//! The operations of the ledger, and the decision each one comes to.
//!
//! A decision is a pure function of the origin and the call: it never reads
//! the store. A host that keeps the records in storage of its own can ask for
//! the decision and carry out the effect itself.

use vstd::prelude::*;
use crate::event::{Counter, Event};
use crate::origin::{ensure_signed, signer, Error, Origin};
use crate::records::{AccountId, BloodRecord, PersonData};
use crate::store::Write;

verus! {

/// One operation with its arguments.
#[derive(Clone, Copy, Debug, PartialEq, Eq, Structural)]
pub enum Call {
    /// File the caller's person record: age, sex, bmi.
    CreatePerson(u32, u32, u32),
    /// File the caller's blood record: blood pressure and six serum readings.
    InsertBlood(u32, u32, u32, u32, u32, u32, u32),
    /// Ask for a prediction. Inert: it changes nothing and emits nothing.
    PredictDiabetes,
    /// Set the first counter.
    SetThing1(u32),
    /// Set the second counter.
    SetThing2(u32),
}

/// What an accepted call does: at most one write, and at most one event.
#[derive(Clone, Copy, Debug, PartialEq, Eq, Structural)]
pub struct Effect {
    pub write: Option<Write>,
    pub event: Option<Event>,
}

impl Call {
    /// Whether the call, once accepted, writes to the store.
    pub open spec fn mutates(self) -> bool {
        !(self is PredictDiabetes)
    }

    /// What the call does when the given account makes it.
    pub open spec fn effect_for(self, who: AccountId) -> Effect {
        match self {
            Call::CreatePerson(age, sex, bmi) => Effect {
                write: Some(Write::Person(who, PersonData { age, sex, bmi })),
                event: Some(Event::PersonCreated(who)),
            },
            Call::InsertBlood(bp, sr1, sr2, sr3, sr4, sr5, sr6) => Effect {
                write: Some(Write::Blood(who, BloodRecord { bp, sr1, sr2, sr3, sr4, sr5, sr6 })),
                event: Some(Event::BloodDataInserted(who)),
            },
            Call::PredictDiabetes => Effect { write: None, event: None },
            Call::SetThing1(value) => Effect {
                write: Some(Write::Scalar(Counter::Thing1, value)),
                event: Some(Event::ValueSet(1, value)),
            },
            Call::SetThing2(value) => Effect {
                write: Some(Write::Scalar(Counter::Thing2, value)),
                event: Some(Event::ValueSet(2, value)),
            },
        }
    }
}

/// The decision on a call: its effect when the origin is a signed account,
/// `Unauthorized` otherwise.
pub open spec fn decision(origin: Origin, call: Call) -> Result<Effect, Error> {
    match signer(origin) {
        Ok(who) => Ok(call.effect_for(who)),
        Err(e) => Err(e),
    }
}

/// What the caller is told: `Ok` when the origin is a signed account,
/// `Unauthorized` otherwise, whatever the call.
pub open spec fn verdict(origin: Origin) -> Result<(), Error> {
    match signer(origin) {
        Ok(_) => Ok(()),
        Err(e) => Err(e),
    }
}

/// Decides a call without touching any store.
pub fn decide(origin: Origin, call: Call) -> (r: Result<Effect, Error>)
    ensures
        r == decision(origin, call),
{
    let who = ensure_signed(origin)?;
    let effect = match call {
        Call::CreatePerson(age, sex, bmi) => Effect {
            write: Some(Write::Person(who, PersonData::new(age, sex, bmi))),
            event: Some(Event::PersonCreated(who)),
        },
        Call::InsertBlood(bp, sr1, sr2, sr3, sr4, sr5, sr6) => Effect {
            write: Some(Write::Blood(who, BloodRecord::new(bp, sr1, sr2, sr3, sr4, sr5, sr6))),
            event: Some(Event::BloodDataInserted(who)),
        },
        Call::PredictDiabetes => Effect { write: None, event: None },
        Call::SetThing1(value) => Effect {
            write: Some(Write::Scalar(Counter::Thing1, value)),
            event: Some(Event::ValueSet(Counter::Thing1.index(), value)),
        },
        Call::SetThing2(value) => Effect {
            write: Some(Write::Scalar(Counter::Thing2, value)),
            event: Some(Event::ValueSet(Counter::Thing2.index(), value)),
        },
    };
    Ok(effect)
}

} // verus!
