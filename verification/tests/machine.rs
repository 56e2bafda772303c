use chrono::{DateTime, Utc};
use kite_a::api::ApiError;
use kite_a::system::{new_uuid, now_rfc3339, now_unix_seconds, rfc3339_of, unix_seconds_of, uuid_from_bytes};

fn internal(e: &ApiError) -> Option<&str> {
    match e {
        ApiError::Internal(m) => Some(m.as_str()),
        _ => None,
    }
}

#[test]
fn uuid_text_from_bytes() {
    let bytes = [
        0x12, 0x34, 0x56, 0x78, 0x9a, 0xbc, 0xde, 0xf0, 0xff, 0xee, 0xdd, 0xcc, 0xbb, 0xaa, 0x99, 0x88,
    ];
    assert_eq!(uuid_from_bytes(bytes), "12345678-9abc-4ef0-bfee-ddccbbaa9988");
    assert_eq!(
        uuid_from_bytes(bytes),
        uuid::Builder::from_random_bytes(bytes).into_uuid().to_string()
    );
    let zeros = [0u8; 16];
    assert_eq!(uuid_from_bytes(zeros), "00000000-0000-4000-8000-000000000000");
}

#[test]
fn fresh_uuids_differ() {
    let a = new_uuid().ok().unwrap();
    let b = new_uuid().ok().unwrap();
    assert_ne!(a, b);
    assert_eq!(a.chars().nth(14), Some('4'));
}

#[test]
fn clock_readings() {
    assert_eq!(unix_seconds_of(Some((0, 0))).ok(), Some(0));
    assert_eq!(unix_seconds_of(Some((1_700_000_000, 5))).ok(), Some(1_700_000_000));
    assert_eq!(rfc3339_of(Some((0, 0))).ok().unwrap(), "1970-01-01T00:00:00+00:00");
    assert_eq!(
        rfc3339_of(Some((1_700_000_000, 500_000_000))).ok().unwrap(),
        "2023-11-14T22:13:20.500+00:00"
    );
    let e = unix_seconds_of(None).err().unwrap();
    assert_eq!(internal(&e), Some("System clock unavailable"));
    let e = rfc3339_of(Some((u64::MAX, 0))).err().unwrap();
    assert_eq!(internal(&e), Some("System clock unavailable"));
    let e = rfc3339_of(Some((i64::MAX as u64, 0))).err().unwrap();
    assert_eq!(internal(&e), Some("System clock unavailable"));
}

#[test]
fn current_time() {
    let now = now_unix_seconds().ok().unwrap();
    assert!(now > 1_600_000_000);
    assert!(now_rfc3339().ok().unwrap().ends_with("+00:00"));
}

// The bounds of chrono's range, written out in `chrono_first_day` and
// `chrono_last_day` (days from the common era; the epoch is day 719163).
const LAST_SECOND: i64 = (95_745_399 - 719_163 + 1) * 86_400 - 1;
const FIRST_SECOND: i64 = (-95_746_129 - 719_163) * 86_400;

#[test]
fn chrono_range_bounds() {
    assert!(DateTime::<Utc>::from_timestamp(LAST_SECOND, 0).is_some());
    assert!(DateTime::<Utc>::from_timestamp(LAST_SECOND + 1, 0).is_none());
    assert!(DateTime::<Utc>::from_timestamp(FIRST_SECOND, 0).is_some());
    assert!(DateTime::<Utc>::from_timestamp(FIRST_SECOND - 1, 0).is_none());
    assert!(DateTime::<Utc>::from_timestamp(59, 1_500_000_000).is_some());
    assert!(DateTime::<Utc>::from_timestamp(58, 1_500_000_000).is_none());
    assert!(DateTime::<Utc>::from_timestamp(59, 2_000_000_000).is_none());
}

#[test]
fn readings_at_the_range_edges() {
    assert_eq!(unix_seconds_of(Some((LAST_SECOND as u64, 0))).ok(), Some(LAST_SECOND));
    assert!(unix_seconds_of(Some((LAST_SECOND as u64 + 1, 0))).is_err());
    assert!(rfc3339_of(Some((LAST_SECOND as u64, 0))).is_ok());
    assert!(rfc3339_of(Some((LAST_SECOND as u64 + 1, 0))).is_err());
    assert_eq!(unix_seconds_of(Some((59, 1_500_000_000))).ok(), Some(59));
    assert!(unix_seconds_of(Some((58, 1_500_000_000))).is_err());
}

#[test]
fn clock_reads_after_the_epoch() {
    let (secs, nanos) = kite_a::system::clock_reading().unwrap();
    assert!(secs > 1_600_000_000);
    assert!(nanos < 1_000_000_000);
}

#[test]
fn claims_from_readings() {
    let u = kite_a::auth::User {
        id: "u7".to_string(),
        username: "zoe".to_string(),
        password_hash: "h".to_string(),
        role: "user".to_string(),
        created_at: "t".to_string(),
    };
    let c = kite_a::auth::claims_of_reading(&u, Some((1_000, 3))).ok().unwrap();
    assert_eq!(c.sub, "u7");
    assert_eq!(c.name, "zoe");
    assert_eq!(c.role, "user");
    assert_eq!(c.exp, 1_000 + 86_400);
    let e = kite_a::auth::claims_of_reading(&u, None).err().unwrap();
    assert_eq!(internal(&e), Some("System clock unavailable"));
    let e = kite_a::auth::claims_of_reading(&u, Some((LAST_SECOND as u64 + 1, 0))).err().unwrap();
    assert_eq!(internal(&e), Some("System clock unavailable"));
}
