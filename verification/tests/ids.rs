//! Identifier text forms: writing, reading, and fresh generation.

use uchat::domain::ids::{parse_uuid, uuid_to_string, IdErr, PostId, SessionId, UserId};

const SAMPLE: u128 = 0x67e55044_10b1_426f_9247_bb680e5fe0c8;

#[test]
fn uuid_text_is_hyphenated_lower_case() {
    assert_eq!(uuid_to_string(SAMPLE), "67e55044-10b1-426f-9247-bb680e5fe0c8");
    assert_eq!(uuid_to_string(0), "00000000-0000-0000-0000-000000000000");
    assert_eq!(uuid_to_string(u128::MAX), "ffffffff-ffff-ffff-ffff-ffffffffffff");
}

#[test]
fn uuid_parse_reads_both_forms() {
    assert_eq!(parse_uuid("67e55044-10b1-426f-9247-bb680e5fe0c8"), Some(SAMPLE));
    assert_eq!(parse_uuid("67e5504410b1426f9247bb680e5fe0c8"), Some(SAMPLE));
    assert_eq!(parse_uuid("67E55044-10B1-426F-9247-BB680E5FE0C8"), Some(SAMPLE));
}

#[test]
fn uuid_parse_rejects_malformed_text() {
    assert_eq!(parse_uuid(""), None);
    assert_eq!(parse_uuid("67e55044-10b1-426f-9247-bb680e5fe0c"), None);
    assert_eq!(parse_uuid("67e55044x10b1-426f-9247-bb680e5fe0c8"), None);
    assert_eq!(parse_uuid("g7e5504410b1426f9247bb680e5fe0c8"), None);
    assert_eq!(parse_uuid("{67e55044-10b1-426f-9247-bb680e5fe0c8}"), None);
}

#[test]
fn uuid_text_round_trips() {
    let values = [0u128, 1, SAMPLE, u128::MAX, 0x8000_0000_0000_0000_0000_0000_0000_0001];
    for v in values {
        assert_eq!(parse_uuid(&uuid_to_string(v)), Some(v));
    }
}

#[test]
fn id_types_write_and_read_their_text() {
    let id = PostId::from_u128(SAMPLE);
    assert_eq!(id.to_string(), "67e55044-10b1-426f-9247-bb680e5fe0c8");
    assert_eq!(PostId::from_str(&id.to_string()).unwrap().as_u128(), SAMPLE);
    assert_eq!(SessionId::from_str("not an id").unwrap_err(), IdErr::Parse);
    assert_eq!(IdErr::Parse.message(), "failed to parse ID");
}

#[test]
fn fresh_ids_are_version_four() {
    // The generator comes from the uuid crate; its version digit is fixed.
    let id = UserId::new();
    let text = id.to_string();
    assert_eq!(text.as_bytes()[14] as char, '4');
    assert_eq!(UserId::from_str(&text).unwrap().as_u128(), id.into_inner());
}

#[test]
fn fresh_ids_differ() {
    let a = UserId::new();
    let b = UserId::new();
    assert!(a.as_u128() != b.as_u128());
}
