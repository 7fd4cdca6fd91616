use crate::ops::ReadEvent;
use crate::ops::read_bytes_result;
use crate::ops::run;
use crate::ops::step_result;
use crate::ops::step_state;
use crate::registry::close_result;
use crate::registry::close_state;
use crate::registry::is_smallest_free;
use crate::response::IpcError;
use vstd::prelude::*;

verus! {

/// After `k` opens on an empty registry, the open handles are exactly `0..k`.
proof fn lemma_opened_prefix<C>(states: Seq<Map<u32, C>>, ids: Seq<u32>, conns: Seq<C>, k: int)
    requires
        states.len() == ids.len() + 1,
        conns.len() == ids.len(),
        states[0] == Map::<u32, C>::empty(),
        forall|j: int|
            0 <= j < ids.len() ==> is_smallest_free(states[j], #[trigger] ids[j]) && states[j + 1]
                == states[j].insert(ids[j], conns[j]),
        0 <= k <= ids.len(),
    ensures
        forall|i: u32| #[trigger] states[k].contains_key(i) <==> (i as int) < k,
        forall|j: int| 0 <= j < k ==> #[trigger] ids[j] == j,
    decreases k,
{
    if k > 0 {
        lemma_opened_prefix(states, ids, conns, k - 1);
        let p = k - 1;
        assert(is_smallest_free(states[p], ids[p]));
        if (ids[p] as int) > p {
            assert(states[p].contains_key(p as u32));
        }
        assert(ids[p] == p);
        assert(states[k] == states[p].insert(ids[p], conns[p]));
    }
}

/// Opens on a fresh registry, with no close between them, issue the handles
/// `0, 1, 2, ...` in turn: pairwise distinct, and the smallest integers.
pub proof fn lemma_fresh_opens_issue_smallest<C>(
    states: Seq<Map<u32, C>>,
    ids: Seq<u32>,
    conns: Seq<C>,
)
    requires
        states.len() == ids.len() + 1,
        conns.len() == ids.len(),
        states[0] == Map::<u32, C>::empty(),
        forall|j: int|
            0 <= j < ids.len() ==> is_smallest_free(states[j], #[trigger] ids[j]) && states[j + 1]
                == states[j].insert(ids[j], conns[j]),
    ensures
        forall|j: int| 0 <= j < ids.len() ==> #[trigger] ids[j] == j,
        forall|j: int, k: int| 0 <= j < k < ids.len() ==> ids[j] != ids[k],
{
    lemma_opened_prefix(states, ids, conns, ids.len() as int);
}

/// Closing an open handle below which every handle is open (the smallest
/// one, in a registry without gaps), then opening again, reissues that handle.
pub proof fn lemma_reopen_reuses_handle<C>(m: Map<u32, C>, h: u32, id: u32)
    requires
        m.contains_key(h),
        forall|i: u32| i < h ==> m.contains_key(i),
        is_smallest_free(close_state(m, h), id),
    ensures
        id == h,
{
    if id < h {
        assert(close_state(m, h).contains_key(id));
    } else if id > h {
        assert(close_state(m, h).contains_key(h));
    }
}

/// `close` on an unknown handle fails with not-found, and once a handle is
/// closed it is unknown, so every later operation on it fails that way.
pub proof fn lemma_closed_handle_not_found<C>(m: Map<u32, C>, h: u32)
    ensures
        !m.contains_key(h) ==> close_result(m, h) == Err::<(), IpcError>(IpcError::NotFound),
        !close_state(m, h).contains_key(h),
        close_result(close_state(m, h), h) == Err::<(), IpcError>(IpcError::NotFound),
{
}

/// When the one read call into a buffer of `b.len()` bytes delivered `n`
/// bytes of what the peer sent, `read_bytes` returns a prefix of the bytes
/// sent, and nothing else.
pub proof fn lemma_read_bytes_returns_prefix(b: Seq<u8>, buf: Seq<u8>, n: usize)
    requires
        buf.len() == b.len(),
        n <= b.len(),
        buf.subrange(0, n as int) == b.subrange(0, n as int),
    ensures
        read_bytes_result(buf, Ok(n)) matches Ok(p) && p.len() <= b.len() && p == b.subrange(0, p.len() as int),
{
}

/// The events of a peer that sends `bytes` and then closes.
pub open spec fn sent_then_closed(bytes: Seq<u8>) -> Seq<ReadEvent> {
    bytes.map_values(|x: u8| ReadEvent::Byte(x)) + seq![ReadEvent::End]
}

proof fn lemma_run_sent_then_closed(received: Seq<u8>, bytes: Seq<u8>)
    ensures
        run(received, sent_then_closed(bytes)) == Some(Ok::<Seq<u8>, IpcError>(received + bytes)),
    decreases bytes.len(),
{
    let evs = sent_then_closed(bytes);
    if bytes.len() == 0 {
        assert(evs[0] == ReadEvent::End);
        assert(received + bytes == received);
    } else {
        assert(evs[0] == ReadEvent::Byte(bytes[0]));
        assert(step_result(received, evs[0]) is None);
        assert(evs.drop_first() == sent_then_closed(bytes.drop_first()));
        lemma_run_sent_then_closed(received.push(bytes[0]), bytes.drop_first());
        assert(step_state(received, evs[0]) == received.push(bytes[0]));
        assert(received.push(bytes[0]) + bytes.drop_first() == received + bytes);
    }
}

/// A peer that writes some bytes and then closes its end: reading to the
/// end yields exactly those bytes.
pub proof fn lemma_stream_termination(bytes: Seq<u8>)
    ensures
        run(Seq::empty(), sent_then_closed(bytes)) == Some(Ok::<Seq<u8>, IpcError>(bytes)),
{
    lemma_run_sent_then_closed(Seq::empty(), bytes);
    assert(Seq::<u8>::empty() + bytes == bytes);
}

} // verus!
