//! The state that an execution context keeps for the bridge.
use crate::error::{HostException, HostExceptionView};
use vstd::prelude::*;

verus! {

/// The bridge's part of an execution context: one slot for a host exception
/// on its way across the engine, and the host callbacks that the context
/// keeps alive.
#[derive(Debug)]
pub struct StoreData {
    exception: Option<HostException>,
    retained: Vec<u64>,
}

impl StoreData {
    /// The exception that waits in the slot, if any.
    pub closed spec fn pending(&self) -> Option<HostExceptionView> {
        match self.exception {
            Some(e) => Some(e@),
            None => None,
        }
    }

    /// The identities of the retained callbacks, oldest first.
    pub closed spec fn retained(&self) -> Seq<u64> {
        self.retained@
    }

    /// A context's state with an empty slot and nothing retained.
    pub fn new() -> (data: StoreData)
        ensures
            data.pending() is None,
            data.retained() == Seq::<u64>::empty(),
    {
        StoreData { exception: None, retained: Vec::new() }
    }

    /// Puts `e` into the slot, in place of whatever was there.
    pub fn hold_exception(&mut self, e: HostException)
        ensures
            final(self).pending() == Some(e@),
            final(self).retained() == old(self).retained(),
    {
        self.exception = Some(e);
    }

    /// Empties the slot and hands out what was in it.
    pub fn take_exception(&mut self) -> (e: Option<HostException>)
        ensures
            final(self).pending() is None,
            final(self).retained() == old(self).retained(),
            match e {
                Some(x) => old(self).pending() == Some(x@),
                None => old(self).pending() is None,
            },
    {
        self.exception.take()
    }

    /// Whether an exception waits in the slot.
    pub fn has_exception(&self) -> (b: bool)
        ensures
            b == self.pending().is_some(),
    {
        self.exception.is_some()
    }

    /// Records that the callback with identity `id` must stay alive as long as
    /// this context does.
    pub fn retain(&mut self, id: u64)
        ensures
            final(self).retained() == old(self).retained().push(id),
            final(self).pending() == old(self).pending(),
    {
        self.retained.push(id);
    }

    /// Whether the callback with identity `id` is retained.
    pub fn is_retained(&self, id: u64) -> (b: bool)
        ensures
            b == self.retained().contains(id),
    {
        let mut i: usize = 0;
        while i < self.retained.len()
            invariant
                i <= self.retained.len(),
                forall|j: int| 0 <= j < i ==> self.retained@[j] != id,
            decreases self.retained.len() - i,
        {
            if self.retained[i] == id {
                return true;
            }
            i += 1;
        }
        false
    }
}

} // verus!
