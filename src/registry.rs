use crate::args::format_u32;
use crate::args::decimal_text;
use crate::response::IpcError;
use std::collections::HashMap;
use vstd::prelude::*;

verus! {

broadcast use vstd::std_specs::hash::group_hash_axioms;

/// Whether `id` is the smallest integer that is not a key of `m`.
pub open spec fn is_smallest_free<C>(m: Map<u32, C>, id: u32) -> bool {
    &&& !m.contains_key(id)
    &&& forall|i: u32| i < id ==> m.contains_key(i)
}

/// What `close` returns on a registry.
pub open spec fn close_result<C>(m: Map<u32, C>, id: u32) -> Result<(), IpcError> {
    if m.contains_key(id) {
        Ok(())
    } else {
        Err(IpcError::NotFound)
    }
}

/// The registry after `close`: the handle is gone, if it was there.
pub open spec fn close_state<C>(m: Map<u32, C>, id: u32) -> Map<u32, C> {
    m.remove(id)
}

/// All open connections of one execution context, each under its handle.
pub struct Registry<C> {
    conns: HashMap<u32, C>,
}

impl<C> View for Registry<C> {
    type V = Map<u32, C>;

    closed spec fn view(&self) -> Map<u32, C> {
        self.conns@
    }
}

impl<C> Registry<C> {
    /// An empty registry.
    pub fn new() -> (r: Self)
        ensures
            r@ == Map::<u32, C>::empty(),
    {
        Registry { conns: HashMap::new() }
    }

    /// Whether `id` names an open connection.
    pub fn has_id(&self, id: u32) -> (r: bool)
        ensures
            r == self@.contains_key(id),
    {
        self.conns.contains_key(&id)
    }

    /// The smallest handle not in use, or `None` when every `u32` is taken.
    pub fn get_next_id(&self) -> (r: Option<u32>)
        ensures
            match r {
                Some(id) => is_smallest_free(self@, id),
                None => forall|i: u32| self@.contains_key(i),
            },
    {
        let mut id: u32 = 0;
        while self.has_id(id)
            invariant
                forall|i: u32| i < id ==> self@.contains_key(i),
            decreases u32::MAX - id,
        {
            if id == u32::MAX {
                assert forall|i: u32| self@.contains_key(i) by {
                    if i < id {
                    }
                }
                return None;
            }
            id = id + 1;
        }
        Some(id)
    }

    /// Registers a connection that was just established under the smallest
    /// free handle, and returns that handle; a failed connect registers nothing.
    pub fn open(&mut self, connected: Result<C, String>) -> (r: Result<u32, IpcError>)
        ensures
            match connected {
                Err(m) => r == Err::<u32, IpcError>(IpcError::Os(m)) && final(self)@ == old(self)@,
                Ok(c) => match r {
                    Ok(id) => is_smallest_free(old(self)@, id)
                        && final(self)@ == old(self)@.insert(id, c),
                    Err(e) => e == IpcError::NoFreeHandle
                        && (forall|i: u32| old(self)@.contains_key(i))
                        && final(self)@ == old(self)@,
                },
            },
    {
        match connected {
            Err(m) => Err(IpcError::Os(m)),
            Ok(c) => match self.get_next_id() {
                None => Err(IpcError::NoFreeHandle),
                Some(id) => {
                    self.conns.insert(id, c);
                    Ok(id)
                },
            },
        }
    }

    /// Like `open`, with the handle given back as its canonical decimal text.
    pub fn open_text(&mut self, connected: Result<C, String>) -> (r: Result<Vec<u8>, IpcError>)
        ensures
            match connected {
                Err(m) => r == Err::<Vec<u8>, IpcError>(IpcError::Os(m)) && final(self)@ == old(self)@,
                Ok(c) => match r {
                    Ok(t) => exists|id: u32| #![auto]
                        t@ == decimal_text(id as nat) && is_smallest_free(old(self)@, id)
                            && final(self)@ == old(self)@.insert(id, c),
                    Err(e) => e == IpcError::NoFreeHandle
                        && (forall|i: u32| old(self)@.contains_key(i))
                        && final(self)@ == old(self)@,
                },
            },
    {
        let id = self.open(connected)?;
        Ok(format_u32(id))
    }

    /// Removes the connection under `id`, which releases it.
    pub fn close(&mut self, id: u32) -> (r: Result<(), IpcError>)
        ensures
            r == close_result(old(self)@, id),
            final(self)@ == close_state(old(self)@, id),
    {
        match self.conns.remove(&id) {
            Some(_) => Ok(()),
            None => Err(IpcError::NotFound),
        }
    }

    /// Takes the connection under `id` out of the registry so that it can be
    /// used; `checkin` puts it back. An unknown handle leaves the registry as it is.
    pub fn checkout(&mut self, id: u32) -> (r: Result<C, IpcError>)
        ensures
            match r {
                Ok(c) => old(self)@.contains_key(id) && c == old(self)@[id]
                    && final(self)@ == old(self)@.remove(id),
                Err(e) => !old(self)@.contains_key(id) && e == IpcError::NotFound
                    && final(self)@ == old(self)@,
            },
    {
        match self.conns.remove(&id) {
            Some(c) => Ok(c),
            None => Err(IpcError::NotFound),
        }
    }

    /// Puts a connection taken out by `checkout` back under its handle.
    pub fn checkin(&mut self, id: u32, c: C)
        requires
            !old(self)@.contains_key(id),
        ensures
            final(self)@ == old(self)@.insert(id, c),
    {
        self.conns.insert(id, c);
    }
}

} // verus!
