//! The ledger itself: the authenticated handlers, the read-only queries and
//! the event log.
//!
//! Every handler is a single step with two outcomes. It is applied: the store
//! takes one complete write and the log one event. Or it is rejected: nothing
//! is written, nothing is logged, and the caller gets the error.

use vstd::prelude::*;
use crate::call::{verdict, Call};
use crate::event::{Counter, Event};
use crate::origin::{ensure_signed, Error, Origin};
use crate::records::{AccountId, BloodRecord, PersonData};
use crate::state::{lemma_step_consistent, State};
use crate::store::{sum_of, Store};

verus! {

/// The store together with the log of events emitted so far.
pub struct Module {
    store: Store,
    events: Vec<Event>,
}

impl View for Module {
    type V = State;

    closed spec fn view(&self) -> State {
        State { store: self.store@, events: self.events@ }
    }
}

impl Module {
    /// The log accounts for the store. `new` establishes it and every handler
    /// keeps it.
    pub open spec fn wf(&self) -> bool {
        self@.consistent()
    }

    /// A ledger with no records, both counters zero and an empty log.
    pub fn new() -> (r: Module)
        ensures
            r@ == State::empty(),
            r.wf(),
    {
        Module { store: Store::new(), events: Vec::new() }
    }

    /// Appends one event to the log.
    fn deposit_event(&mut self, event: Event)
        ensures
            final(self)@ == (State {
                store: old(self)@.store,
                events: old(self)@.events.push(event),
            }),
    {
        self.events.push(event);
    }

    /// Files the caller's person record, replacing any earlier one, and logs
    /// `PersonCreated`. The fields are taken as given. Anything but a signed
    /// origin is rejected with `Unauthorized` and changes nothing.
    pub fn create_person(&mut self, origin: Origin, age: u32, sex: u32, bmi: u32) -> (r: Result<
        (),
        Error,
    >)
        requires
            old(self).wf(),
        ensures
            final(self).wf(),
            r == verdict(origin),
            !(origin is Signed) ==> *final(self) == *old(self),
            final(self)@ == old(self)@.step(origin, Call::CreatePerson(age, sex, bmi)),
            origin matches Origin::Signed(who) ==> final(self)@.store.person(who) == Some(
                PersonData { age, sex, bmi },
            ),
    {
        let sender = ensure_signed(origin)?;
        self.store.put_person(sender, PersonData::new(age, sex, bmi));
        self.deposit_event(Event::PersonCreated(sender));
        proof {
            lemma_step_consistent(old(self)@, origin, Call::CreatePerson(age, sex, bmi));
        }
        Ok(())
    }

    /// Files the caller's blood record, replacing any earlier one, and logs
    /// `BloodDataInserted`. No person record is needed. Anything but a signed
    /// origin is rejected with `Unauthorized` and changes nothing.
    pub fn insert_blood(
        &mut self,
        origin: Origin,
        bp: u32,
        sr1: u32,
        sr2: u32,
        sr3: u32,
        sr4: u32,
        sr5: u32,
        sr6: u32,
    ) -> (r: Result<(), Error>)
        requires
            old(self).wf(),
        ensures
            final(self).wf(),
            r == verdict(origin),
            !(origin is Signed) ==> *final(self) == *old(self),
            final(self)@ == old(self)@.step(
                origin,
                Call::InsertBlood(bp, sr1, sr2, sr3, sr4, sr5, sr6),
            ),
            origin matches Origin::Signed(who) ==> final(self)@.store.blood_of(who) == Some(
                BloodRecord { bp, sr1, sr2, sr3, sr4, sr5, sr6 },
            ),
    {
        let sender = ensure_signed(origin)?;
        self.store.put_blood(sender, BloodRecord::new(bp, sr1, sr2, sr3, sr4, sr5, sr6));
        self.deposit_event(Event::BloodDataInserted(sender));
        proof {
            lemma_step_consistent(
                old(self)@,
                origin,
                Call::InsertBlood(bp, sr1, sr2, sr3, sr4, sr5, sr6),
            );
        }
        Ok(())
    }

    /// Checks the origin and does nothing else: the ledger is never changed,
    /// whether the call is accepted or not.
    pub fn predict_diabetes(&mut self, origin: Origin) -> (r: Result<(), Error>)
        ensures
            r == verdict(origin),
            *final(self) == *old(self),
            final(self)@ == old(self)@.step(origin, Call::PredictDiabetes),
    {
        let _sender = ensure_signed(origin)?;
        Ok(())
    }

    /// Replaces the first counter and logs `ValueSet(1, value)`. Any signed
    /// account may do so. Anything but a signed origin is rejected with
    /// `Unauthorized` and changes nothing.
    pub fn set_thing_1(&mut self, origin: Origin, value: u32) -> (r: Result<(), Error>)
        requires
            old(self).wf(),
        ensures
            final(self).wf(),
            r == verdict(origin),
            !(origin is Signed) ==> *final(self) == *old(self),
            final(self)@ == old(self)@.step(origin, Call::SetThing1(value)),
    {
        let _sender = ensure_signed(origin)?;
        self.store.put_scalar(Counter::Thing1, value);
        self.deposit_event(Event::ValueSet(Counter::Thing1.index(), value));
        proof {
            lemma_step_consistent(old(self)@, origin, Call::SetThing1(value));
        }
        Ok(())
    }

    /// Replaces the second counter and logs `ValueSet(2, value)`. Any signed
    /// account may do so. Anything but a signed origin is rejected with
    /// `Unauthorized` and changes nothing.
    pub fn set_thing_2(&mut self, origin: Origin, value: u32) -> (r: Result<(), Error>)
        requires
            old(self).wf(),
        ensures
            final(self).wf(),
            r == verdict(origin),
            !(origin is Signed) ==> *final(self) == *old(self),
            final(self)@ == old(self)@.step(origin, Call::SetThing2(value)),
    {
        let _sender = ensure_signed(origin)?;
        self.store.put_scalar(Counter::Thing2, value);
        self.deposit_event(Event::ValueSet(Counter::Thing2.index(), value));
        proof {
            lemma_step_consistent(old(self)@, origin, Call::SetThing2(value));
        }
        Ok(())
    }

    /// Runs the handler that the call names, with the call's arguments.
    pub fn dispatch(&mut self, origin: Origin, call: Call) -> (r: Result<(), Error>)
        requires
            old(self).wf(),
        ensures
            final(self).wf(),
            r == verdict(origin),
            !(origin is Signed) ==> *final(self) == *old(self),
            final(self)@ == old(self)@.step(origin, call),
    {
        match call {
            Call::CreatePerson(age, sex, bmi) => self.create_person(origin, age, sex, bmi),
            Call::InsertBlood(bp, sr1, sr2, sr3, sr4, sr5, sr6) => self.insert_blood(
                origin,
                bp,
                sr1,
                sr2,
                sr3,
                sr4,
                sr5,
                sr6,
            ),
            Call::PredictDiabetes => self.predict_diabetes(origin),
            Call::SetThing1(value) => self.set_thing_1(origin, value),
            Call::SetThing2(value) => self.set_thing_2(origin, value),
        }
    }

    /// The person record of the account, if one was ever filed.
    pub fn persons(&self, who: AccountId) -> (r: Option<PersonData>)
        ensures
            r == self@.store.person(who),
    {
        self.store.get_person(who)
    }

    /// The blood record of the account, if one was ever filed.
    pub fn blood_data(&self, who: AccountId) -> (r: Option<BloodRecord>)
        ensures
            r == self@.store.blood_of(who),
    {
        self.store.get_blood(who)
    }

    /// The first counter: the value last set, or zero.
    pub fn thing1(&self) -> (r: u32)
        ensures
            r == self@.store.thing1,
    {
        self.store.get_scalar(Counter::Thing1)
    }

    /// The second counter: the value last set, or zero.
    pub fn thing2(&self) -> (r: u32)
        ensures
            r == self@.store.thing2,
    {
        self.store.get_scalar(Counter::Thing2)
    }

    /// The sum of the two counters. A sum that does not fit in a `u32` is
    /// reported as the largest `u32`.
    pub fn get_sum(&self) -> (r: u32)
        ensures
            r == self@.store.sum(),
            self@.store.thing1 + self@.store.thing2 <= u32::MAX ==> r == self@.store.thing1
                + self@.store.thing2,
    {
        sum_of(self.thing1(), self.thing2())
    }

    /// Every event emitted so far, oldest first.
    pub fn events(&self) -> (r: &Vec<Event>)
        ensures
            r@ == self@.events,
    {
        &self.events
    }
}

} // verus!
