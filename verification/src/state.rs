//! The ledger as a mathematical value, and its one-step transition.

use vstd::prelude::*;
use crate::call::{decision, Call, Effect};
use crate::event::{Counter, Event};
use crate::origin::{signer, Origin};
use crate::records::AccountId;
use crate::store::Contents;

verus! {

/// The whole ledger: what the store holds and every event emitted so far,
/// oldest first.
pub struct State {
    pub store: Contents,
    pub events: Seq<Event>,
}

impl State {
    /// The ledger before any call.
    pub open spec fn empty() -> State {
        State { store: Contents::empty(), events: Seq::empty() }
    }

    /// The ledger after an effect is carried out: its write, if any, is made
    /// and its event, if any, is appended.
    pub open spec fn apply(self, effect: Effect) -> State {
        State {
            store: match effect.write {
                Some(w) => self.store.write(w),
                None => self.store,
            },
            events: match effect.event {
                Some(e) => self.events.push(e),
                None => self.events,
            },
        }
    }

    /// The ledger after one call: an accepted call is applied whole, a
    /// rejected one leaves the ledger as it was.
    pub open spec fn step(self, origin: Origin, call: Call) -> State {
        match decision(origin, call) {
            Ok(effect) => self.apply(effect),
            Err(_) => self,
        }
    }

    /// The ledger after a sequence of calls, applied in order.
    pub open spec fn run(self, calls: Seq<(Origin, Call)>) -> State
        decreases calls.len(),
    {
        if calls.len() == 0 {
            self
        } else {
            self.run(calls.drop_last()).step(calls.last().0, calls.last().1)
        }
    }

    /// The log accounts for the store: an account has a person record exactly
    /// when the log holds its `PersonCreated`, a blood record exactly when the
    /// log holds its `BloodDataInserted`, and each counter has the value of
    /// the latest `ValueSet` logged for it, or zero where there is none.
    pub open spec fn consistent(self) -> bool {
        &&& forall|who: AccountId|
            #![trigger self.store.persons.contains_key(who)]
            #![trigger self.events.contains(Event::PersonCreated(who))]
            self.store.persons.contains_key(who) <==> self.events.contains(
                Event::PersonCreated(who),
            )
        &&& forall|who: AccountId|
            #![trigger self.store.blood.contains_key(who)]
            #![trigger self.events.contains(Event::BloodDataInserted(who))]
            self.store.blood.contains_key(who) <==> self.events.contains(
                Event::BloodDataInserted(who),
            )
        &&& self.store.thing1 == logged_value(self.events, Counter::Thing1)
        &&& self.store.thing2 == logged_value(self.events, Counter::Thing2)
    }
}

/// The value that the log gives a counter: that of the latest `ValueSet`
/// logged under the counter's index, or zero where there is none.
pub open spec fn logged_value(log: Seq<Event>, counter: Counter) -> u32
    decreases log.len(),
{
    if log.len() == 0 {
        0
    } else {
        match log.last() {
            Event::ValueSet(index, value) => if index == counter.spec_index() {
                value
            } else {
                logged_value(log.drop_last(), counter)
            },
            _ => logged_value(log.drop_last(), counter),
        }
    }
}

/// How many calls of the sequence are accepted and write to the store.
pub open spec fn accepted_writes(calls: Seq<(Origin, Call)>) -> nat
    decreases calls.len(),
{
    if calls.len() == 0 {
        0
    } else {
        let rest = accepted_writes(calls.drop_last());
        if signer(calls.last().0) is Ok && calls.last().1.mutates() {
            rest + 1
        } else {
            rest
        }
    }
}

/// An element is in a sequence with one more element at its end exactly when
/// it was in the sequence or is the new element.
pub proof fn lemma_push_contains(log: Seq<Event>, e: Event, x: Event)
    ensures
        log.push(e).contains(x) <==> (log.contains(x) || x == e),
{
    if log.contains(x) {
        let i = choose|i: int| 0 <= i < log.len() && log[i] == x;
        assert(log.push(e)[i] == x);
    }
    if x == e {
        assert(log.push(e)[log.len() as int] == x);
    }
    if log.push(e).contains(x) {
        let i = choose|i: int| 0 <= i < log.push(e).len() && log.push(e)[i] == x;
        if i < log.len() {
            assert(log[i] == x);
        }
    }
}

/// Every call keeps the log and the store consistent.
pub proof fn lemma_step_consistent(s: State, origin: Origin, call: Call)
    requires
        s.consistent(),
    ensures
        s.step(origin, call).consistent(),
{
    let t = s.step(origin, call);
    match decision(origin, call) {
        Ok(effect) => {
            match effect.event {
                Some(e) => {
                    assert forall|x: Event| t.events.contains(x) <==> (s.events.contains(x) || x
                        == e) by {
                        lemma_push_contains(s.events, e, x);
                    }
                    assert(t.events.drop_last() =~= s.events);
                    assert(t.events.last() == e);
                },
                None => {},
            }
        },
        Err(_) => {},
    }
}

} // verus!
