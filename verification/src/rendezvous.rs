//! The result rendezvous: a one-shot handoff that carries the delivered
//! payload from the capability registry's result callback to the caller
//! waiting for it.
//!
//! The slot is written at most once and read at most once.  A second
//! delivery is refused and reported, and a take that finds nothing tells
//! the caller that no result was ever delivered — both are detectable
//! contract violations, never silent ones.

use vstd::prelude::*;

verus! {

/// The model of a rendezvous: the value it holds, if any, and whether the
/// consumer has already taken it.
pub struct SpecRendezvous {
    pub value: Option<Seq<char>>,
    pub taken: bool,
}

/// A one-shot, single-producer/single-consumer slot for one delivered
/// payload.
pub struct Rendezvous {
    slot: Option<String>,
    taken: bool,
}

impl View for Rendezvous {
    type V = SpecRendezvous;

    closed spec fn view(&self) -> SpecRendezvous {
        SpecRendezvous {
            value: match self.slot {
                Some(v) => Some(v@),
                None => None,
            },
            taken: self.taken,
        }
    }
}

impl Rendezvous {
    /// An empty rendezvous, not yet delivered to and not yet taken from.
    pub fn new() -> (r: Rendezvous)
        ensures
            r@.value is None,
            !r@.taken,
    {
        Rendezvous { slot: None, taken: false }
    }

    /// Publish one delivered payload.  Delivery is accepted exactly when
    /// nothing was delivered before and nothing was taken yet; a repeated
    /// delivery is refused and leaves the rendezvous unchanged, so a
    /// misbehaving producer is detectable rather than silently absorbed.
    pub fn deliver(&mut self, v: String) -> (r: bool)
        ensures
            r == (old(self)@.value is None && !old(self)@.taken),
            r ==> final(self)@ == (SpecRendezvous { value: Some(v@), taken: false }),
            !r ==> final(self)@ == old(self)@,
    {
        if self.taken {
            return false;
        }
        match &self.slot {
            Some(_) => false,
            None => {
                self.slot = Some(v);
                true
            },
        }
    }

    /// Consume the rendezvous.  Yields the delivered payload exactly when
    /// one was delivered and not yet taken; yields nothing when no delivery
    /// ever happened, which the caller surfaces as its own failure rather
    /// than mistaking it for an empty success.
    pub fn take(&mut self) -> (r: Option<String>)
        ensures
            final(self)@.taken,
            final(self)@.value is None,
            match r {
                Some(v) => !old(self)@.taken && old(self)@.value == Some(v@),
                None => old(self)@.taken || old(self)@.value is None,
            },
    {
        let v = self.slot.take();
        let was_taken = self.taken;
        self.taken = true;
        if was_taken {
            None
        } else {
            v
        }
    }
}

} // verus!
