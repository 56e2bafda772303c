//! What the panel takes from the machine: fresh random ids and the current
//! time. Each may be unavailable; that is answered as an internal failure.

use vstd::prelude::*;
use vstd::string::*;
use crate::api::ApiError;
use crate::outside::{
    chrono_in_range, chrono_rfc3339, random_bytes_16, since_unix_epoch, system_time_now, utc_in_range,
    utc_rfc3339,
    uuid_v4_from_bytes,
};
use crate::text::{has_suffix, is_uuid_v4_text, lemma_uuid_v4_text_form, uuid_v4_text};

verus! {

pub open spec fn msg_no_randomness() -> Seq<char> {
    "Random source unavailable"@
}

pub open spec fn msg_no_clock() -> Seq<char> {
    "System clock unavailable"@
}

/// Whether `e` is the failure given when the machine's random source or clock
/// is unavailable.
pub open spec fn is_machine_failure(e: ApiError) -> bool {
    e matches ApiError::Internal(m) && (m@ == msg_no_randomness() || m@ == msg_no_clock())
}

/// The text of a version 4 UUID made from 16 random bytes.
pub fn uuid_from_bytes(bytes: [u8; 16]) -> (r: String)
    ensures
        r@ == uuid_v4_text(bytes@),
        is_uuid_v4_text(r@),
{
    proof {
        lemma_uuid_v4_text_form(bytes@);
    }
    uuid_v4_from_bytes(bytes)
}

/// A fresh random id: a version 4 UUID in hyphenated lower-case form, made
/// from 16 bytes of the OS random source; a failure of that source is
/// answered with `Random source unavailable`.
pub fn new_uuid() -> (r: Result<String, ApiError>)
    ensures
        r matches Ok(id) ==> is_uuid_v4_text(id@),
        r matches Err(e) ==> e matches ApiError::Internal(m) && m@ == msg_no_randomness(),
{
    match random_bytes_16() {
        Some(bytes) => Ok(uuid_from_bytes(bytes)),
        None => Err(ApiError::Internal(String::from_str("Random source unavailable"))),
    }
}

fn clock_failure() -> (r: ApiError)
    ensures
        r matches ApiError::Internal(m) && m@ == msg_no_clock(),
{
    ApiError::Internal(String::from_str("System clock unavailable"))
}

/// Whether a clock reading (seconds and nanoseconds since the epoch) is one
/// that chrono can hold.
pub open spec fn reading_in_range(secs: u64, nanos: u32) -> bool {
    secs <= i64::MAX && chrono_in_range(secs as i64, nanos)
}

/// The seconds since the epoch of a clock reading: `System clock unavailable`
/// where there is no reading (the clock is before the epoch) or it lies
/// outside chrono's date range.
pub fn unix_seconds_of(reading: Option<(u64, u32)>) -> (r: Result<i64, ApiError>)
    ensures
        match reading {
            Some((secs, nanos)) => if reading_in_range(secs, nanos) {
                r == Ok::<i64, ApiError>(secs as i64)
            } else {
                r matches Err(e) && e matches ApiError::Internal(m) && m@ == msg_no_clock()
            },
            None => r matches Err(e) && e matches ApiError::Internal(m) && m@ == msg_no_clock(),
        },
{
    match reading {
        None => Err(clock_failure()),
        Some((secs, nanos)) => {
            if secs > 0x7fff_ffff_ffff_ffffu64 {
                return Err(clock_failure());
            }
            let t = secs as i64;
            if utc_in_range(t, nanos) {
                Ok(t)
            } else {
                Err(clock_failure())
            }
        },
    }
}

/// The RFC 3339 text (offset `+00:00`) of a clock reading: `System clock
/// unavailable` where there is no reading or it lies outside chrono's date
/// range.
pub fn rfc3339_of(reading: Option<(u64, u32)>) -> (r: Result<String, ApiError>)
    ensures
        match reading {
            Some((secs, nanos)) => if reading_in_range(secs, nanos) {
                r matches Ok(t) && t@ == chrono_rfc3339(secs as i64, nanos) && has_suffix(
                    t@,
                    "+00:00"@,
                )
            } else {
                r matches Err(e) && e matches ApiError::Internal(m) && m@ == msg_no_clock()
            },
            None => r matches Err(e) && e matches ApiError::Internal(m) && m@ == msg_no_clock(),
        },
{
    match reading {
        None => Err(clock_failure()),
        Some((secs, nanos)) => {
            if secs > 0x7fff_ffff_ffff_ffffu64 {
                return Err(clock_failure());
            }
            match utc_rfc3339(secs as i64, nanos) {
                Some(t) => Ok(t),
                None => Err(clock_failure()),
            }
        },
    }
}

/// Whether `s` is the RFC 3339 text of some clock reading that chrono can
/// hold.
pub open spec fn is_clock_stamp(s: Seq<char>) -> bool {
    exists|secs: u64, nanos: u32|
        nanos < 1_000_000_000 && reading_in_range(secs, nanos) && s == chrono_rfc3339(
            secs as i64,
            nanos,
        )
}

/// Whether `t` is the seconds of some clock reading that chrono can hold.
pub open spec fn is_clock_second(t: int) -> bool {
    exists|nanos: u32| nanos < 1_000_000_000 && #[trigger] reading_in_range(t as u64, nanos)
}

/// Reads the system clock: seconds and nanoseconds since the Unix epoch, or
/// none where the clock reads before the epoch.
pub fn clock_reading() -> (r: Option<(u64, u32)>)
    ensures
        r matches Some((_, n)) ==> n < 1_000_000_000,
{
    since_unix_epoch(system_time_now())
}

/// The current time in seconds since the Unix epoch, where the clock reads
/// after the epoch and inside chrono's date range; otherwise `System clock
/// unavailable`.
pub fn now_unix_seconds() -> (r: Result<i64, ApiError>)
    ensures
        r matches Ok(t) ==> t >= 0 && is_clock_second(t as int),
        r matches Err(e) ==> e matches ApiError::Internal(m) && m@ == msg_no_clock(),
{
    let reading = clock_reading();
    let r = unix_seconds_of(reading);
    proof {
        if let Some((secs, nanos)) = reading {
            if r is Ok {
                assert(r->Ok_0 as u64 == secs);
                assert(nanos < 1_000_000_000 && reading_in_range(r->Ok_0 as u64, nanos));
            }
        }
    }
    r
}

/// The current time in RFC 3339 with offset `+00:00`, where the clock reads
/// after the epoch and inside chrono's date range; otherwise `System clock
/// unavailable`.
pub fn now_rfc3339() -> (r: Result<String, ApiError>)
    ensures
        r matches Ok(s) ==> is_clock_stamp(s@) && has_suffix(s@, "+00:00"@),
        r matches Err(e) ==> e matches ApiError::Internal(m) && m@ == msg_no_clock(),
{
    let reading = clock_reading();
    let r = rfc3339_of(reading);
    proof {
        if let Some((secs, nanos)) = reading {
            if r is Ok {
                assert(nanos < 1_000_000_000 && reading_in_range(secs, nanos) && r->Ok_0@
                    == chrono_rfc3339(secs as i64, nanos));
            }
        }
    }
    r
}

} // verus!
