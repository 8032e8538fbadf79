//! The submit event and its suppress-default flag.

use vstd::prelude::*;

verus! {

/// One user-initiated submission. It carries a payload that the dispatch
/// never inspects, and the flag by which a handler asks the host to skip its
/// default action. The flag starts lowered and can only be raised.
#[derive(Debug)]
pub struct SubmitEvent<P> {
    payload: P,
    default_suppressed: bool,
}

impl<P> SubmitEvent<P> {
    /// Whether suppress-default was called on this event.
    pub closed spec fn suppressed(&self) -> bool {
        self.default_suppressed
    }

    /// The payload the event was raised with.
    pub closed spec fn data(&self) -> P {
        self.payload
    }

    /// An event as the host raises it: the flag is lowered.
    pub fn new(payload: P) -> (event: Self)
        ensures
            !event.suppressed(),
            event.data() == payload,
    {
        SubmitEvent { payload, default_suppressed: false }
    }

    /// Asks the host to skip its default action. Raising the flag again
    /// leaves it raised.
    pub fn suppress_default(&mut self)
        ensures
            final(self).suppressed(),
            final(self).data() == old(self).data(),
    {
        self.default_suppressed = true;
    }

    /// Whether suppress-default was called on this event.
    pub fn default_suppressed(&self) -> (b: bool)
        ensures
            b == self.suppressed(),
    {
        self.default_suppressed
    }

    /// The payload the event was raised with.
    pub fn payload(&self) -> (p: &P)
        ensures
            *p == self.data(),
    {
        &self.payload
    }

    /// Gives the payload back and ends the event.
    pub fn into_payload(self) -> (p: P)
        ensures
            p == self.data(),
    {
        self.payload
    }
}

} // verus!
