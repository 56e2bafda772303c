//! The calls into outside crates that the library's logic makes, each
//! behind a trusted item whose contract states what the crate's source shows.

use vstd::prelude::*;
use crate::text::{has_prefix, has_suffix, uuid_v4_text};

verus! {

/// `once_cell::sync::OnceCell<T>`, carried through opaquely.
#[verifier::external_type_specification]
#[verifier::external_body]
#[verifier::reject_recursive_types(T)]
pub struct ExOnceCell<T>(once_cell::sync::OnceCell<T>);

/// What `bcrypt::verify(password, hash)` returns: `Some(b)` for `Ok(b)`,
/// `None` for an error (a malformed hash). It recomputes the hash of the
/// password with the cost and salt read from `hash` and compares.
pub uninterp spec fn bcrypt_verdict(password: Seq<char>, hash: Seq<char>) -> Option<bool>;

/// Calls `bcrypt::hash(password, bcrypt::DEFAULT_COST)` and gives its error
/// as the error's `Display` text. The salt is drawn from the OS, so the hash
/// itself is not a function of the password. What the source shows of every
/// outcome:
/// - a hash is written as `$2b$12$`, 22 characters of salt and 31 of hash (60
///   in all), and `bcrypt::verify` accepts the same password against it (it
///   parses back the cost and salt it was made with);
/// - with the cost fixed at 12 (which is allowed), the only error is a failure
///   of the OS random source, `BcryptError::Rand`, whose text starts with
///   `Rand error: `. When that happens is not stated.
#[verifier::external_body]
pub(crate) fn bcrypt_hash(password: &str) -> (r: Result<String, String>)
    ensures
        r matches Ok(h) ==> bcrypt_verdict(password@, h@) == Some(true) && h@.len() == 60
            && has_prefix(h@, "$2b$12$"@),
        r matches Err(t) ==> has_prefix(t@, "Rand error: "@),
{
    match bcrypt::hash(password, bcrypt::DEFAULT_COST) {
        Ok(h) => Ok(h),
        Err(e) => Err(e.to_string()),
    }
}

/// Calls `bcrypt::verify(password, hash)` and keeps the verdict, dropping the
/// error value (`.ok()`).
#[verifier::external_body]
pub(crate) fn bcrypt_verify(password: &str, hash: &str) -> (r: Option<bool>)
    ensures
        r == bcrypt_verdict(password@, hash@),
{
    bcrypt::verify(password, hash).ok()
}

/// Calls `getrandom::fill` on a buffer of 16 bytes: the bytes drawn from the
/// OS random source, or `None` where that source fails. The bytes are random;
/// nothing is stated of them.
#[verifier::external_body]
pub(crate) fn random_bytes_16() -> Option<[u8; 16]> {
    let mut bytes = [0u8; 16];
    match getrandom::fill(&mut bytes) {
        Ok(()) => Some(bytes),
        Err(_) => None,
    }
}

/// Calls `uuid::Builder::from_random_bytes(bytes)` and renders the UUID
/// (`into_uuid()`, then `to_string()`). `from_random_bytes` sets the high
/// nibble of byte 6 to the version 4 and the top bits of byte 8 to the variant
/// `10` (builder.rs `with_version`, `with_variant`); `Display` writes the 16
/// bytes as lower-case hex, high nibble first, hyphenated 8-4-4-4-12.
#[verifier::external_body]
pub(crate) fn uuid_v4_from_bytes(bytes: [u8; 16]) -> (r: String)
    ensures
        r@ == uuid_v4_text(bytes@),
{
    uuid::Builder::from_random_bytes(bytes).into_uuid().to_string()
}

/// `std::time::SystemTime`, carried through opaquely.
#[verifier::external_type_specification]
#[verifier::external_body]
pub struct ExSystemTime(std::time::SystemTime);

/// Calls `std::time::SystemTime::now()`. The value depends on the clock and is
/// opaque; nothing is stated of it.
#[verifier::external_body]
pub(crate) fn system_time_now() -> std::time::SystemTime {
    std::time::SystemTime::now()
}

/// Calls `t.duration_since(UNIX_EPOCH)` and gives the duration as whole
/// seconds and the nanoseconds past them (`as_secs`, `subsec_nanos`); `None`
/// where `t` is before the epoch. Of every outcome, the documented fact that
/// `subsec_nanos` is below one second is stated; `t` is opaque, so the
/// reading itself is not.
#[verifier::external_body]
pub(crate) fn since_unix_epoch(t: std::time::SystemTime) -> (r: Option<(u64, u32)>)
    ensures
        r matches Some((_, n)) ==> n < 1_000_000_000,
{
    match t.duration_since(std::time::UNIX_EPOCH) {
        Ok(d) => Some((d.as_secs(), d.subsec_nanos())),
        Err(_) => None,
    }
}

/// The first and last day that chrono's dates reach, counted from the common
/// era (1 January of year 1 is day 1): 1 January of year -262143 and
/// 31 December of year 262142 (`MIN_YEAR`, `MAX_YEAR` in naive/date/mod.rs).
pub open spec fn chrono_first_day() -> int {
    -95746129
}

pub open spec fn chrono_last_day() -> int {
    95745399
}

/// Whether `chrono::DateTime::<Utc>::from_timestamp(secs, nanos)` gives an
/// instant: the day `floor(secs / 86400) + 719163` (the epoch is day 719163
/// from the common era) must be one of chrono's dates, and `nanos` must be
/// below one second, or below two in the last second of a minute (a leap
/// second), as `NaiveTime::from_num_seconds_from_midnight_opt` requires.
pub open spec fn chrono_in_range(secs: i64, nanos: u32) -> bool {
    let days = secs as int / 86400 + 719163;
    let second_of_day = secs as int % 86400;
    &&& chrono_first_day() <= days <= chrono_last_day()
    &&& (nanos < 1_000_000_000 || (nanos < 2_000_000_000 && second_of_day % 60 == 59))
}

/// What `to_rfc3339()` writes for the instant `secs` seconds and `nanos`
/// nanoseconds after the epoch, in `Utc`.
pub uninterp spec fn chrono_rfc3339(secs: i64, nanos: u32) -> Seq<char>;

/// Calls `chrono::DateTime::<Utc>::from_timestamp(secs, nanos)` and tells
/// whether it gave an instant (`is_some()`).
#[verifier::external_body]
pub(crate) fn utc_in_range(secs: i64, nanos: u32) -> (r: bool)
    ensures
        r == chrono_in_range(secs, nanos),
{
    chrono::DateTime::<chrono::Utc>::from_timestamp(secs, nanos).is_some()
}

/// Calls `chrono::DateTime::<Utc>::from_timestamp(secs, nanos)` and renders
/// the instant with `to_rfc3339()`; `None` where there is no such instant. The
/// offset of `Utc` is written as `+00:00` at the end (never `Z`).
#[verifier::external_body]
pub(crate) fn utc_rfc3339(secs: i64, nanos: u32) -> (r: Option<String>)
    ensures
        r is Some == chrono_in_range(secs, nanos),
        r matches Some(t) ==> t@ == chrono_rfc3339(secs, nanos) && has_suffix(t@, "+00:00"@),
{
    match chrono::DateTime::<chrono::Utc>::from_timestamp(secs, nanos) {
        Some(t) => Some(t.to_rfc3339()),
        None => None,
    }
}

/// Calls `once_cell::sync::OnceCell::get`. The cell is written through a
/// shared reference, so its contents are not a function of the reference that
/// Verus sees; nothing is stated of the result.
#[verifier::external_body]
pub(crate) fn once_cell_get(cell: &once_cell::sync::OnceCell<String>) -> Option<&String> {
    cell.get()
}

/// Calls `once_cell::sync::OnceCell::set`: where the cell already holds a
/// value it hands back the rejected value unchanged. Whether the cell was
/// empty is not stated (it is state that Verus does not see).
#[verifier::external_body]
pub(crate) fn once_cell_set(cell: &once_cell::sync::OnceCell<String>, value: String) -> (r: Result<
    (),
    String,
>)
    ensures
        r matches Err(v) ==> v == value,
{
    cell.set(value)
}

} // verus!
