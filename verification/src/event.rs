//! The notifications that successful writes leave in the event log.

use vstd::prelude::*;
use crate::records::AccountId;

verus! {

/// One entry of the append-only event log.
#[derive(Clone, Copy, Debug, PartialEq, Eq, Structural)]
pub enum Event {
    /// A person record was written for the account.
    PersonCreated(AccountId),
    /// A person record was updated for the account. Declared for observers;
    /// no handler emits it.
    PersonUpdated(AccountId),
    /// A blood record was written for the account.
    BloodDataInserted(AccountId),
    /// A prediction was requested by the account. Declared for observers; no
    /// handler emits it.
    PredictDiabet(AccountId),
    /// The counter with the given index (1 or 2) was set to the given value.
    ValueSet(u32, u32),
}

/// Which of the two global counters.
#[derive(Clone, Copy, Debug, PartialEq, Eq, Structural)]
pub enum Counter {
    Thing1,
    Thing2,
}

impl Counter {
    /// The index under which events report the counter.
    pub open spec fn spec_index(self) -> u32 {
        match self {
            Counter::Thing1 => 1u32,
            Counter::Thing2 => 2u32,
        }
    }

    /// The index under which events report the counter: 1 or 2.
    #[verifier::when_used_as_spec(spec_index)]
    pub fn index(self) -> (r: u32)
        ensures
            r == self.spec_index(),
    {
        match self {
            Counter::Thing1 => 1u32,
            Counter::Thing2 => 2u32,
        }
    }
}

} // verus!
