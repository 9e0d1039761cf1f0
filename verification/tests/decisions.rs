use health_records::call::{decide, Call, Effect};
use health_records::event::{Counter, Event};
use health_records::origin::{ensure_signed, Error, Origin};
use health_records::records::{BloodRecord, PersonData};
use health_records::store::{sum_of, Store, Write};

#[test]
fn ensure_signed_returns_the_signer() {
    assert_eq!(ensure_signed(Origin::Signed(42)), Ok(42));
    assert_eq!(ensure_signed(Origin::Signed(0)), Ok(0));
}

#[test]
fn ensure_signed_rejects_root_and_unsigned() {
    assert_eq!(ensure_signed(Origin::Root), Err(Error::Unauthorized));
    assert_eq!(ensure_signed(Origin::Unsigned), Err(Error::Unauthorized));
    assert_eq!(ensure_signed(Origin::Authorized), Err(Error::Unauthorized));
}

#[test]
fn ensure_signed_keeps_accounts_apart() {
    assert_ne!(ensure_signed(Origin::Signed(1)), ensure_signed(Origin::Signed(2)));
    assert_eq!(ensure_signed(Origin::Signed(u64::MAX)), Ok(u64::MAX));
}

#[test]
fn sum_of_adds_and_caps() {
    assert_eq!(sum_of(0, 0), 0);
    assert_eq!(sum_of(5, 7), 12);
    assert_eq!(sum_of(u32::MAX, 0), u32::MAX);
    assert_eq!(sum_of(u32::MAX - 1, 1), u32::MAX);
    assert_eq!(sum_of(u32::MAX, 1), u32::MAX);
    assert_eq!(sum_of(u32::MAX, u32::MAX), u32::MAX);
}

#[test]
fn errors_are_distinct() {
    assert_ne!(Error::Unauthorized, Error::NotEnoughDataFields);
}

#[test]
fn counter_indices() {
    assert_eq!(Counter::Thing1.index(), 1);
    assert_eq!(Counter::Thing2.index(), 2);
}

#[test]
fn record_constructors_keep_field_order() {
    assert_eq!(PersonData::new(1, 2, 3), PersonData { age: 1, sex: 2, bmi: 3 });
    assert_eq!(
        BloodRecord::new(1, 2, 3, 4, 5, 6, 7),
        BloodRecord { bp: 1, sr1: 2, sr2: 3, sr3: 4, sr4: 5, sr5: 6, sr6: 7 }
    );
}

#[test]
fn decide_create_person() {
    assert_eq!(
        decide(Origin::Signed(4), Call::CreatePerson(1, 2, 3)),
        Ok(Effect {
            write: Some(Write::Person(4, PersonData { age: 1, sex: 2, bmi: 3 })),
            event: Some(Event::PersonCreated(4)),
        })
    );
}

#[test]
fn decide_insert_blood() {
    assert_eq!(
        decide(Origin::Signed(4), Call::InsertBlood(1, 2, 3, 4, 5, 6, 7)),
        Ok(Effect {
            write: Some(Write::Blood(
                4,
                BloodRecord { bp: 1, sr1: 2, sr2: 3, sr3: 4, sr4: 5, sr5: 6, sr6: 7 }
            )),
            event: Some(Event::BloodDataInserted(4)),
        })
    );
}

#[test]
fn decide_counters() {
    assert_eq!(
        decide(Origin::Signed(4), Call::SetThing1(9)),
        Ok(Effect {
            write: Some(Write::Scalar(Counter::Thing1, 9)),
            event: Some(Event::ValueSet(1, 9)),
        })
    );
    assert_eq!(
        decide(Origin::Signed(4), Call::SetThing2(8)),
        Ok(Effect {
            write: Some(Write::Scalar(Counter::Thing2, 8)),
            event: Some(Event::ValueSet(2, 8)),
        })
    );
}

#[test]
fn decide_prediction_is_inert() {
    assert_eq!(
        decide(Origin::Signed(4), Call::PredictDiabetes),
        Ok(Effect { write: None, event: None })
    );
}

#[test]
fn decide_rejects_every_call_without_a_signer() {
    let calls = vec![
        Call::CreatePerson(1, 2, 3),
        Call::InsertBlood(1, 2, 3, 4, 5, 6, 7),
        Call::PredictDiabetes,
        Call::SetThing1(1),
        Call::SetThing2(2),
    ];
    for call in calls {
        assert_eq!(decide(Origin::Root, call), Err(Error::Unauthorized));
        assert_eq!(decide(Origin::Unsigned, call), Err(Error::Unauthorized));
        assert_eq!(decide(Origin::Authorized, call), Err(Error::Unauthorized));
    }
}

#[test]
fn store_put_is_visible_to_get() {
    let mut s = Store::new();
    assert_eq!(s.get_person(1), None);
    assert_eq!(s.get_blood(1), None);
    s.put_person(1, PersonData { age: 1, sex: 2, bmi: 3 });
    assert_eq!(s.get_person(1), Some(PersonData { age: 1, sex: 2, bmi: 3 }));
    assert_eq!(s.get_blood(1), None);
    s.put_blood(1, BloodRecord::new(7, 6, 5, 4, 3, 2, 1));
    assert_eq!(s.get_blood(1), Some(BloodRecord::new(7, 6, 5, 4, 3, 2, 1)));
    assert_eq!(s.get_person(1), Some(PersonData { age: 1, sex: 2, bmi: 3 }));
    assert_eq!(s.get_person(2), None);
}

#[test]
fn store_scalars_start_at_zero_and_are_replaced() {
    let mut s = Store::new();
    assert_eq!(s.get_scalar(Counter::Thing1), 0);
    assert_eq!(s.get_scalar(Counter::Thing2), 0);
    s.put_scalar(Counter::Thing1, 10);
    s.put_scalar(Counter::Thing1, 4);
    assert_eq!(s.get_scalar(Counter::Thing1), 4);
    assert_eq!(s.get_scalar(Counter::Thing2), 0);
    s.put_scalar(Counter::Thing2, 6);
    assert_eq!(s.get_scalar(Counter::Thing1), 4);
    assert_eq!(s.get_scalar(Counter::Thing2), 6);
}

#[test]
fn store_apply_carries_out_each_kind_of_write() {
    let mut s = Store::new();
    s.apply(Write::Person(3, PersonData::new(1, 1, 1)));
    s.apply(Write::Blood(3, BloodRecord::new(2, 2, 2, 2, 2, 2, 2)));
    s.apply(Write::Scalar(Counter::Thing1, 5));
    s.apply(Write::Scalar(Counter::Thing2, 6));
    assert_eq!(s.get_person(3), Some(PersonData::new(1, 1, 1)));
    assert_eq!(s.get_blood(3), Some(BloodRecord::new(2, 2, 2, 2, 2, 2, 2)));
    assert_eq!(s.get_scalar(Counter::Thing1), 5);
    assert_eq!(s.get_scalar(Counter::Thing2), 6);
}
