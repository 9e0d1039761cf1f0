//! What holds of every ledger, proved from the one-step transition that the
//! handlers' contracts are stated over.

use vstd::prelude::*;
use crate::call::{verdict, Call};
use crate::event::{Counter, Event};
use crate::origin::{Error, Origin};
use crate::records::{AccountId, BloodRecord, PersonData};
use crate::state::{accepted_writes, lemma_step_consistent, logged_value, State};

verus! {

/// Round trip: after an account files a person record, the query for that
/// account returns exactly that record.
pub proof fn law_create_person_round_trip(s: State, who: AccountId, age: u32, sex: u32, bmi: u32)
    ensures
        s.step(Origin::Signed(who), Call::CreatePerson(age, sex, bmi)).store.person(who) == Some(
            PersonData { age, sex, bmi },
        ),
{
}

/// Round trip: after an account files a blood record, the query for that
/// account returns exactly that record.
pub proof fn law_insert_blood_round_trip(
    s: State,
    who: AccountId,
    bp: u32,
    sr1: u32,
    sr2: u32,
    sr3: u32,
    sr4: u32,
    sr5: u32,
    sr6: u32,
)
    ensures
        s.step(
            Origin::Signed(who),
            Call::InsertBlood(bp, sr1, sr2, sr3, sr4, sr5, sr6),
        ).store.blood_of(who) == Some(BloodRecord { bp, sr1, sr2, sr3, sr4, sr5, sr6 }),
{
}

/// Overwrite, not merge: when one account files two person records in turn,
/// the store ends as if only the second had been filed.
pub proof fn law_create_person_overwrites(
    s: State,
    who: AccountId,
    first: PersonData,
    second: PersonData,
)
    ensures
        ({
            let o = Origin::Signed(who);
            let c1 = Call::CreatePerson(first.age, first.sex, first.bmi);
            let c2 = Call::CreatePerson(second.age, second.sex, second.bmi);
            &&& s.step(o, c1).step(o, c2).store.person(who) == Some(second)
            &&& s.step(o, c1).step(o, c2).store == s.step(o, c2).store
        }),
{
    let o = Origin::Signed(who);
    let c1 = Call::CreatePerson(first.age, first.sex, first.bmi);
    let c2 = Call::CreatePerson(second.age, second.sex, second.bmi);
    assert(s.step(o, c1).step(o, c2).store.persons =~= s.step(o, c2).store.persons);
}

/// A write touches one key only: filing a person record changes no other
/// account's person record, no blood record and no counter.
pub proof fn law_create_person_touches_one_key(
    s: State,
    who: AccountId,
    age: u32,
    sex: u32,
    bmi: u32,
    other: AccountId,
)
    ensures
        ({
            let t = s.step(Origin::Signed(who), Call::CreatePerson(age, sex, bmi));
            &&& other != who ==> t.store.person(other) == s.store.person(other)
            &&& t.store.blood == s.store.blood
            &&& t.store.thing1 == s.store.thing1
            &&& t.store.thing2 == s.store.thing2
        }),
{
}

/// A write touches one key only: filing a blood record changes no other
/// account's blood record, no person record and no counter.
pub proof fn law_insert_blood_touches_one_key(
    s: State,
    who: AccountId,
    rec: BloodRecord,
    other: AccountId,
)
    ensures
        ({
            let t = s.step(
                Origin::Signed(who),
                Call::InsertBlood(rec.bp, rec.sr1, rec.sr2, rec.sr3, rec.sr4, rec.sr5, rec.sr6),
            );
            &&& other != who ==> t.store.blood_of(other) == s.store.blood_of(other)
            &&& t.store.persons == s.store.persons
            &&& t.store.thing1 == s.store.thing1
            &&& t.store.thing2 == s.store.thing2
        }),
{
}

/// The two kinds of record do not interfere: when one account files a person
/// record and a blood record, in either order, each query returns the record
/// of its own kind.
pub proof fn law_records_independent(s: State, who: AccountId, p: PersonData, b: BloodRecord)
    ensures
        ({
            let o = Origin::Signed(who);
            let cp = Call::CreatePerson(p.age, p.sex, p.bmi);
            let cb = Call::InsertBlood(b.bp, b.sr1, b.sr2, b.sr3, b.sr4, b.sr5, b.sr6);
            &&& s.step(o, cp).step(o, cb).store.person(who) == Some(p)
            &&& s.step(o, cp).step(o, cb).store.blood_of(who) == Some(b)
            &&& s.step(o, cb).step(o, cp).store.person(who) == Some(p)
            &&& s.step(o, cb).step(o, cp).store.blood_of(who) == Some(b)
            &&& s.step(o, cp).step(o, cb).store == s.step(o, cb).step(o, cp).store
        }),
{
}

/// Each counter is replaced, not accumulated, and neither disturbs the other:
/// after the first is set to `a` and the second to `b`, the counters are `a`
/// and `b` and the sum is `a + b`, capped at the largest `u32`.
pub proof fn law_counters_replace(s: State, o1: AccountId, o2: AccountId, a: u32, b: u32)
    ensures
        ({
            let t = s.step(Origin::Signed(o1), Call::SetThing1(a)).step(
                Origin::Signed(o2),
                Call::SetThing2(b),
            );
            &&& t.store.thing1 == a
            &&& t.store.thing2 == b
            &&& a + b <= u32::MAX ==> t.store.sum() == a + b
            &&& a + b > u32::MAX ==> t.store.sum() == u32::MAX
            &&& t.store.persons == s.store.persons
            &&& t.store.blood == s.store.blood
        }),
{
}

/// Any call from an origin that is not a signed account is rejected with
/// `Unauthorized`, and leaves the store and the log unchanged.
pub proof fn law_unsigned_rejected(s: State, origin: Origin, call: Call)
    requires
        !(origin is Signed),
    ensures
        verdict(origin) == Err::<(), Error>(Error::Unauthorized),
        s.step(origin, call) == s,
{
}

/// Every call from a signed account is accepted.
pub proof fn law_signed_accepted(origin: Origin)
    requires
        origin is Signed,
    ensures
        verdict(origin) == Ok::<(), Error>(()),
{
}

/// The prediction request changes nothing, whatever the origin and whatever
/// the ledger held before.
pub proof fn law_predict_changes_nothing(s: State, origin: Origin)
    ensures
        s.step(origin, Call::PredictDiabetes) == s,
{
}

/// One call appends exactly one event when it is accepted and writes, and
/// none otherwise; the events already logged stay as they were.
pub proof fn law_step_events(s: State, origin: Origin, call: Call)
    ensures
        ({
            let t = s.step(origin, call);
            if origin is Signed && call.mutates() {
                &&& t.events.len() == s.events.len() + 1
                &&& t.events.drop_last() == s.events
            } else {
                t == s
            }
        }),
{
    let t = s.step(origin, call);
    if origin is Signed && call.mutates() {
        assert(t.events.drop_last() =~= s.events);
    }
}

/// Over any sequence of calls, the log grows by exactly the number of calls
/// that were accepted and write to the store, and the events logged before the
/// sequence are the first events after it.
pub proof fn law_event_count(s: State, calls: Seq<(Origin, Call)>)
    ensures
        s.run(calls).events.len() == s.events.len() + accepted_writes(calls),
        s.run(calls).events.subrange(0, s.events.len() as int) == s.events,
    decreases calls.len(),
{
    if calls.len() == 0 {
        assert(s.events.subrange(0, s.events.len() as int) =~= s.events);
    } else {
        let before = s.run(calls.drop_last());
        law_event_count(s, calls.drop_last());
        law_step_events(before, calls.last().0, calls.last().1);
        let after = s.run(calls);
        assert(after.events.subrange(0, s.events.len() as int) =~= before.events.subrange(
            0,
            s.events.len() as int,
        ));
    }
}

/// Over any sequence of calls the log keeps accounting for the store.
pub proof fn law_run_consistent(s: State, calls: Seq<(Origin, Call)>)
    requires
        s.consistent(),
    ensures
        s.run(calls).consistent(),
    decreases calls.len(),
{
    if calls.len() > 0 {
        law_run_consistent(s, calls.drop_last());
        lemma_step_consistent(s.run(calls.drop_last()), calls.last().0, calls.last().1);
    }
}

/// A ledger that started empty has a record for an account exactly when the
/// log holds the event of an accepted call of that account that filed one, and
/// each counter has the value of the latest `ValueSet` logged for it.
pub proof fn law_store_follows_log(calls: Seq<(Origin, Call)>, who: AccountId)
    ensures
        State::empty().run(calls).store.thing1 == logged_value(
            State::empty().run(calls).events,
            Counter::Thing1,
        ),
        State::empty().run(calls).store.thing2 == logged_value(
            State::empty().run(calls).events,
            Counter::Thing2,
        ),
        State::empty().run(calls).store.persons.contains_key(who) <==> State::empty().run(
            calls,
        ).events.contains(Event::PersonCreated(who)),
        State::empty().run(calls).store.blood.contains_key(who) <==> State::empty().run(
            calls,
        ).events.contains(Event::BloodDataInserted(who)),
{
    law_run_consistent(State::empty(), calls);
}

/// Whether the sequence holds a call by which the account files a person
/// record and which is accepted.
pub open spec fn files_person(calls: Seq<(Origin, Call)>, who: AccountId) -> bool {
    exists|i: int|
        0 <= i < calls.len() && (#[trigger] calls[i]).0 == Origin::Signed(who)
            && calls[i].1 is CreatePerson
}

/// Whether the sequence holds a call by which the account files a blood
/// record and which is accepted.
pub open spec fn files_blood(calls: Seq<(Origin, Call)>, who: AccountId) -> bool {
    exists|i: int|
        0 <= i < calls.len() && (#[trigger] calls[i]).0 == Origin::Signed(who)
            && calls[i].1 is InsertBlood
}

/// A ledger that started empty has a record of a kind for an account exactly
/// when the account has filed one by an accepted call.
pub proof fn law_record_iff_filed(calls: Seq<(Origin, Call)>, who: AccountId)
    ensures
        State::empty().run(calls).store.persons.contains_key(who) <==> files_person(calls, who),
        State::empty().run(calls).store.blood.contains_key(who) <==> files_blood(calls, who),
    decreases calls.len(),
{
    if calls.len() > 0 {
        let prev = calls.drop_last();
        let last = calls.last();
        law_record_iff_filed(prev, who);
        if files_person(prev, who) {
            let i = choose|i: int|
                0 <= i < prev.len() && (#[trigger] prev[i]).0 == Origin::Signed(who)
                    && prev[i].1 is CreatePerson;
            assert(calls[i] == prev[i]);
        }
        if files_blood(prev, who) {
            let i = choose|i: int|
                0 <= i < prev.len() && (#[trigger] prev[i]).0 == Origin::Signed(who)
                    && prev[i].1 is InsertBlood;
            assert(calls[i] == prev[i]);
        }
        if last.0 == Origin::Signed(who) {
            assert(calls[calls.len() - 1] == last);
        }
        if files_person(calls, who) {
            let i = choose|i: int|
                0 <= i < calls.len() && (#[trigger] calls[i]).0 == Origin::Signed(who)
                    && calls[i].1 is CreatePerson;
            if i < prev.len() {
                assert(prev[i] == calls[i]);
            }
        }
        if files_blood(calls, who) {
            let i = choose|i: int|
                0 <= i < calls.len() && (#[trigger] calls[i]).0 == Origin::Signed(who)
                    && calls[i].1 is InsertBlood;
            if i < prev.len() {
                assert(prev[i] == calls[i]);
            }
        }
    }
}

} // verus!
