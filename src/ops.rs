use crate::response::IpcError;
use crate::response::done;
use crate::response::done_bytes;
use crate::response::payload_view;
use vstd::prelude::*;

verus! {

/// Turns the result of writing a whole payload into the operation's outcome.
pub fn write_all_outcome(written: Result<(), String>) -> (r: Result<Vec<u8>, IpcError>)
    ensures
        match written {
            Ok(_) => payload_view(r) == Ok::<Seq<u8>, IpcError>(done_bytes()),
            Err(m) => r == Err::<Vec<u8>, IpcError>(IpcError::Os(m)),
        },
{
    match written {
        Ok(_) => Ok(done()),
        Err(m) => Err(IpcError::Os(m)),
    }
}

/// A zero-filled buffer of `len` bytes for one read call.
pub fn read_buffer(len: u32) -> (r: Vec<u8>)
    ensures
        r@ == Seq::new(len as nat, |i: int| 0u8),
{
    let r: Vec<u8> = vec![0u8; len as usize];
    assert(r@ =~= Seq::new(len as nat, |i: int| 0u8));
    r
}

/// The outcome of `read_bytes` after one read call into `buf` reported `got`.
pub open spec fn read_bytes_result(buf: Seq<u8>, got: Result<usize, String>) -> Result<Seq<u8>, IpcError> {
    match got {
        Ok(n) => Ok(buf.subrange(0, n as int)),
        Err(m) => Err(IpcError::Os(m)),
    }
}

/// Turns the result of one read call into `buf` into the operation's outcome:
/// the bytes that call delivered, however few, or the failure.
pub fn read_bytes_outcome(buf: Vec<u8>, got: Result<usize, String>) -> (r: Result<Vec<u8>, IpcError>)
    requires
        got matches Ok(n) ==> n <= buf@.len(),
    ensures
        payload_view(r) == read_bytes_result(buf@, got),
{
    match got {
        Ok(n) => {
            let mut buf = buf;
            buf.truncate(n);
            Ok(buf)
        },
        Err(m) => Err(IpcError::Os(m)),
    }
}

/// What one single-byte read call on a stream reported.
#[derive(Debug, PartialEq, Eq)]
pub enum ReadEvent {
    /// One byte arrived.
    Byte(u8),
    /// The read returned no bytes: the peer closed its write side.
    End,
    /// The read failed; the operating system's description.
    Failed(String),
}

/// Whether to read again, or the outcome of reading until the peer closed.
#[derive(Debug, PartialEq, Eq)]
pub enum ReadStep {
    More,
    Finished(Result<Vec<u8>, IpcError>),
}

/// The outcome that an event ends the read with, if it ends it, given the bytes so far.
pub open spec fn step_result(received: Seq<u8>, ev: ReadEvent) -> Option<Result<Seq<u8>, IpcError>> {
    match ev {
        ReadEvent::Byte(_) => None,
        ReadEvent::End => Some(Ok(received)),
        ReadEvent::Failed(m) => if received.len() == 0 {
            Some(Err(IpcError::Os(m)))
        } else {
            Some(Ok(received))
        },
    }
}

/// The bytes received after an event.
pub open spec fn step_state(received: Seq<u8>, ev: ReadEvent) -> Seq<u8> {
    match ev {
        ReadEvent::Byte(b) => received.push(b),
        _ => received,
    }
}

/// The outcome of feeding `evs` in order, from `received`: the first one that
/// ends the read decides it; `None` when none does.
pub open spec fn run(received: Seq<u8>, evs: Seq<ReadEvent>) -> Option<Result<Seq<u8>, IpcError>>
    decreases evs.len(),
{
    if evs.len() == 0 {
        None
    } else {
        match step_result(received, evs[0]) {
            Some(x) => Some(x),
            None => run(step_state(received, evs[0]), evs.drop_first()),
        }
    }
}

/// Reads a stream to its end one byte at a time: accumulates the bytes
/// until the peer closes, and treats a failure after some data as the end.
pub struct StringReader {
    received: Vec<u8>,
}

impl View for StringReader {
    type V = Seq<u8>;

    closed spec fn view(&self) -> Seq<u8> {
        self.received@
    }
}

impl StringReader {
    /// A reader that has received nothing.
    pub fn new() -> (r: Self)
        ensures
            r@ == Seq::<u8>::empty(),
    {
        StringReader { received: Vec::new() }
    }

    /// Takes in what one read call reported.
    pub fn step(&mut self, ev: ReadEvent) -> (r: ReadStep)
        ensures
            final(self)@ == step_state(old(self)@, ev),
            match r {
                ReadStep::More => step_result(old(self)@, ev) is None,
                ReadStep::Finished(x) => step_result(old(self)@, ev) == Some(payload_view(x)),
            },
    {
        match ev {
            ReadEvent::Byte(b) => {
                self.received.push(b);
                ReadStep::More
            },
            ReadEvent::End => ReadStep::Finished(Ok(self.received.clone())),
            ReadEvent::Failed(m) => {
                if self.received.len() == 0 {
                    ReadStep::Finished(Err(IpcError::Os(m)))
                } else {
                    ReadStep::Finished(Ok(self.received.clone()))
                }
            },
        }
    }
}

} // verus!
