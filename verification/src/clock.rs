//! What a journaled clock step records for a reading of the host clock: milliseconds
//! since the Unix epoch.

use vstd::prelude::*;

verus! {

/// The milliseconds a clock step records for a reading of the host clock, given as whole
/// milliseconds since the epoch or `None` for a clock set before it: zero before the
/// epoch, and `u64::MAX` for a reading beyond what `u64` holds.
pub open spec fn recorded_millis(reading: Option<u128>) -> nat {
    match reading {
        Some(millis) => if millis > u64::MAX {
            u64::MAX as nat
        } else {
            millis as nat
        },
        None => 0,
    }
}

/// The milliseconds recorded for a reading of the host clock: see [`recorded_millis`].
pub fn millis_from_reading(reading: Option<u128>) -> (millis: u64)
    ensures
        millis == recorded_millis(reading),
        reading matches Some(m) ==> (m <= u64::MAX ==> millis == m),
        reading matches Some(m) ==> (m > u64::MAX ==> millis == u64::MAX),
        reading is None ==> millis == 0,
{
    match reading {
        Some(millis) => if millis > u64::MAX as u128 {
            u64::MAX
        } else {
            millis as u64
        },
        None => 0,
    }
}

/// Law: a reading is recorded to the millisecond: `m` milliseconds since the epoch are
/// recorded as exactly `m` while `u64` holds them and as `u64::MAX` beyond, and a clock set
/// before the epoch is recorded as zero. Later readings are never recorded as earlier ones.
pub proof fn lemma_reading_recorded_to_the_millisecond(m: u128, later: u128)
    ensures
        m <= u64::MAX ==> recorded_millis(Some(m)) == m,
        m > u64::MAX ==> recorded_millis(Some(m)) == u64::MAX,
        recorded_millis(None) == 0,
        m <= later ==> recorded_millis(Some(m)) <= recorded_millis(Some(later)),
{
}

} // verus!
