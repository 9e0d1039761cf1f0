//! The shapes of the stored records.

use vstd::prelude::*;

verus! {

/// The account identifier that keys every per-account record. The ledger
/// never creates or destroys identifiers; it only files records under them.
pub type AccountId = u64;

/// The demographic record of one account. No field is range-checked.
#[derive(Clone, Copy, Debug, PartialEq, Eq, Structural, Default)]
pub struct PersonData {
    pub age: u32,
    pub sex: u32,
    pub bmi: u32,
}

/// The blood measurements of one account: blood pressure and six serum
/// readings. No field is range-checked.
#[derive(Clone, Copy, Debug, PartialEq, Eq, Structural, Default)]
pub struct BloodRecord {
    pub bp: u32,
    pub sr1: u32,
    pub sr2: u32,
    pub sr3: u32,
    pub sr4: u32,
    pub sr5: u32,
    pub sr6: u32,
}

impl PersonData {
    /// Builds a record from its three fields, each taken as given.
    pub fn new(age: u32, sex: u32, bmi: u32) -> (r: PersonData)
        ensures
            r == (PersonData { age, sex, bmi }),
    {
        PersonData { age, sex, bmi }
    }
}

impl BloodRecord {
    /// Builds a record from the blood pressure and the six serum readings,
    /// each taken as given.
    pub fn new(bp: u32, sr1: u32, sr2: u32, sr3: u32, sr4: u32, sr5: u32, sr6: u32) -> (r:
        BloodRecord)
        ensures
            r == (BloodRecord { bp, sr1, sr2, sr3, sr4, sr5, sr6 }),
    {
        BloodRecord { bp, sr1, sr2, sr3, sr4, sr5, sr6 }
    }
}

} // verus!
