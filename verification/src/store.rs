//! The identity store: two account-keyed maps and two scalar cells. It does
//! no validation; every write replaces the whole value under its key.

use std::collections::HashMap;
use vstd::prelude::*;
use crate::event::Counter;
use crate::records::{AccountId, BloodRecord, PersonData};

verus! {

broadcast use vstd::std_specs::hash::group_hash_axioms;

/// One complete write to the store.
#[derive(Clone, Copy, Debug, PartialEq, Eq, Structural)]
pub enum Write {
    /// Replace the person record of the account.
    Person(AccountId, PersonData),
    /// Replace the blood record of the account.
    Blood(AccountId, BloodRecord),
    /// Replace the value of the counter.
    Scalar(Counter, u32),
}

/// The sum of two counter values where it fits in a `u32`, the largest `u32`
/// where it does not.
pub open spec fn capped_sum(a: u32, b: u32) -> u32 {
    if a + b <= u32::MAX {
        (a + b) as u32
    } else {
        u32::MAX
    }
}

/// Adds two counter values without wrapping: a sum that does not fit in a
/// `u32` is reported as the largest `u32`.
pub fn sum_of(a: u32, b: u32) -> (r: u32)
    ensures
        r == capped_sum(a, b),
        a + b <= u32::MAX ==> r == a + b,
        a + b > u32::MAX ==> r == u32::MAX,
{
    if a <= u32::MAX - b {
        a + b
    } else {
        u32::MAX
    }
}

/// What a store holds, as mathematical maps and values.
pub struct Contents {
    pub persons: Map<AccountId, PersonData>,
    pub blood: Map<AccountId, BloodRecord>,
    pub thing1: u32,
    pub thing2: u32,
}

impl Contents {
    /// The store before any write: no records, both counters zero.
    pub open spec fn empty() -> Contents {
        Contents { persons: Map::empty(), blood: Map::empty(), thing1: 0, thing2: 0 }
    }

    /// The person record filed under the account, if there is one.
    pub open spec fn person(self, who: AccountId) -> Option<PersonData> {
        if self.persons.contains_key(who) {
            Some(self.persons[who])
        } else {
            None
        }
    }

    /// The blood record filed under the account, if there is one.
    pub open spec fn blood_of(self, who: AccountId) -> Option<BloodRecord> {
        if self.blood.contains_key(who) {
            Some(self.blood[who])
        } else {
            None
        }
    }

    /// The value of the counter.
    pub open spec fn scalar(self, counter: Counter) -> u32 {
        match counter {
            Counter::Thing1 => self.thing1,
            Counter::Thing2 => self.thing2,
        }
    }

    /// The sum of the two counters, capped at the largest `u32`.
    pub open spec fn sum(self) -> u32 {
        capped_sum(self.thing1, self.thing2)
    }

    /// The contents after the write: the one key it names holds the new
    /// value, everything else is as before.
    pub open spec fn write(self, w: Write) -> Contents {
        match w {
            Write::Person(who, rec) => Contents { persons: self.persons.insert(who, rec), ..self },
            Write::Blood(who, rec) => Contents { blood: self.blood.insert(who, rec), ..self },
            Write::Scalar(Counter::Thing1, value) => Contents { thing1: value, ..self },
            Write::Scalar(Counter::Thing2, value) => Contents { thing2: value, ..self },
        }
    }
}

/// The store itself.
pub struct Store {
    persons: HashMap<AccountId, PersonData>,
    blood: HashMap<AccountId, BloodRecord>,
    thing1: u32,
    thing2: u32,
}

impl View for Store {
    type V = Contents;

    closed spec fn view(&self) -> Contents {
        Contents {
            persons: self.persons@,
            blood: self.blood@,
            thing1: self.thing1,
            thing2: self.thing2,
        }
    }
}

impl Store {
    /// An empty store.
    pub fn new() -> (r: Store)
        ensures
            r@ == Contents::empty(),
    {
        Store { persons: HashMap::new(), blood: HashMap::new(), thing1: 0, thing2: 0 }
    }

    /// Reads the person record of the account.
    pub fn get_person(&self, who: AccountId) -> (r: Option<PersonData>)
        ensures
            r == self@.person(who),
    {
        match self.persons.get(&who) {
            Some(rec) => Some(*rec),
            None => None,
        }
    }

    /// Reads the blood record of the account.
    pub fn get_blood(&self, who: AccountId) -> (r: Option<BloodRecord>)
        ensures
            r == self@.blood_of(who),
    {
        match self.blood.get(&who) {
            Some(rec) => Some(*rec),
            None => None,
        }
    }

    /// Reads the counter.
    pub fn get_scalar(&self, counter: Counter) -> (r: u32)
        ensures
            r == self@.scalar(counter),
    {
        match counter {
            Counter::Thing1 => self.thing1,
            Counter::Thing2 => self.thing2,
        }
    }

    /// Files the person record under the account, replacing any earlier one.
    pub fn put_person(&mut self, who: AccountId, rec: PersonData)
        ensures
            final(self)@ == old(self)@.write(Write::Person(who, rec)),
    {
        self.persons.insert(who, rec);
    }

    /// Files the blood record under the account, replacing any earlier one.
    pub fn put_blood(&mut self, who: AccountId, rec: BloodRecord)
        ensures
            final(self)@ == old(self)@.write(Write::Blood(who, rec)),
    {
        self.blood.insert(who, rec);
    }

    /// Replaces the value of the counter.
    pub fn put_scalar(&mut self, counter: Counter, value: u32)
        ensures
            final(self)@ == old(self)@.write(Write::Scalar(counter, value)),
    {
        match counter {
            Counter::Thing1 => {
                self.thing1 = value;
            },
            Counter::Thing2 => {
                self.thing2 = value;
            },
        }
    }

    /// Carries out one write.
    pub fn apply(&mut self, w: Write)
        ensures
            final(self)@ == old(self)@.write(w),
    {
        match w {
            Write::Person(who, rec) => self.put_person(who, rec),
            Write::Blood(who, rec) => self.put_blood(who, rec),
            Write::Scalar(counter, value) => self.put_scalar(counter, value),
        }
    }
}

} // verus!
