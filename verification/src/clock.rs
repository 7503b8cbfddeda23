//! Wall-clock readings and the timestamps derived from them.
//!
//! Reading the clock is the only part that is not verified; what a reading
//! becomes is a plain function of it.

use vstd::prelude::*;

verus! {

/// Milliseconds since the Unix epoch carried by a clock reading, as a signed
/// 64-bit stamp. A reading of `None` (clock set before the epoch) stamps 0;
/// a count beyond 64 bits keeps its low 64 bits.
pub open spec fn spec_timestamp_millis(elapsed: Option<u128>) -> i64 {
    match elapsed {
        Some(ms) => ms as i64,
        None => 0,
    }
}

/// Whole seconds since the Unix epoch carried by a clock reading.
pub open spec fn spec_timestamp_secs(elapsed: Option<u128>) -> i64 {
    match elapsed {
        Some(ms) => (ms / 1000) as i64,
        None => 0,
    }
}

/// Trusted: calls `std::time::SystemTime::elapsed` on `std::time::UNIX_EPOCH`
/// and hands back the elapsed time in whole milliseconds
/// (`std::time::Duration::as_millis`), or `None` when the system clock reads
/// earlier than the epoch. Nothing is claimed of the value: it is whatever
/// the clock says.
#[verifier::external_body]
pub(crate) fn millis_since_epoch() -> (elapsed: Option<u128>) {
    match std::time::UNIX_EPOCH.elapsed() {
        Ok(d) => Some(d.as_millis()),
        Err(_) => None,
    }
}

/// Millisecond timestamp of a clock reading.
pub fn timestamp_millis(elapsed: Option<u128>) -> (stamp: i64)
    ensures
        stamp == spec_timestamp_millis(elapsed),
        elapsed matches Some(ms) ==> (ms <= i64::MAX ==> stamp == ms),
{
    match elapsed {
        Some(ms) => {
            assert(ms <= 0x7fff_ffff_ffff_ffffu128 ==> ms as i64 == ms) by (bit_vector);
            #[verifier::truncate]
            (ms as i64)
        },
        None => 0,
    }
}

/// Second-resolution timestamp of a clock reading.
pub fn timestamp_secs(elapsed: Option<u128>) -> (stamp: i64)
    ensures
        stamp == spec_timestamp_secs(elapsed),
        elapsed matches Some(ms) ==> (ms / 1000 <= i64::MAX ==> stamp == ms / 1000),
{
    match elapsed {
        Some(ms) => {
            let secs: u128 = ms / 1000;
            assert(secs <= 0x7fff_ffff_ffff_ffffu128 ==> secs as i64 == secs) by (bit_vector);
            #[verifier::truncate]
            (secs as i64)
        },
        None => 0,
    }
}

} // verus!
