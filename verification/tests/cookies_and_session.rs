//! Cookie lookup, the session cookie round trip, and authorization.

use uchat::cookie::{get_from_str, SESSION_ID, SESSION_SIGNATURE};
use uchat::crypto::{decode_base64, encode_base64};
use uchat::domain::ids::{SessionId, UserId};
use uchat::session::{
    authorize_session, session_cookie_header, session_credentials, Session, UserSession,
    SESSION_DURATION_SECONDS,
};

#[test]
fn cookie_lookup_finds_plain_pairs() {
    assert_eq!(get_from_str("a=1; b=2", "a"), Some("1"));
    assert_eq!(get_from_str("a=1; b=2", "b"), Some("2"));
    assert_eq!(get_from_str("a=1; b=2", "c"), None);
}

#[test]
fn cookie_lookup_trims_spaces_around_pairs() {
    assert_eq!(get_from_str("  a=1  ;   b=2  ", "a"), Some("1"));
    assert_eq!(get_from_str("  a=1  ;   b=2  ", "b"), Some("2"));
}

#[test]
fn cookie_lookup_takes_the_first_match_and_keeps_inner_equals() {
    assert_eq!(get_from_str("k=first; k=second", "k"), Some("first"));
    assert_eq!(get_from_str("sig=ab=cd==", "sig"), Some("ab=cd=="));
}

#[test]
fn cookie_lookup_skips_pairs_without_equals() {
    assert_eq!(get_from_str("junk; a=1", "a"), Some("1"));
    assert_eq!(get_from_str("junk", "junk"), None);
    assert_eq!(get_from_str("", "a"), None);
}

#[test]
fn cookie_lookup_allows_empty_values() {
    assert_eq!(get_from_str("a=; b=2", "a"), Some(""));
}

#[test]
fn session_cookie_header_round_trips() {
    let sid = SessionId::from_u128(0x1234_5678_9abc_def0_1122_3344_5566_7788);
    let sig = encode_base64(&[7u8, 1, 9, 200, 31]);
    let header = session_cookie_header(&sid, &sig);
    assert_eq!(get_from_str(&header, SESSION_ID), Some(sid.to_string().as_str()));
    assert_eq!(get_from_str(&header, SESSION_SIGNATURE), Some(sig.as_str()));

    let (read_sid, read_sig) = session_credentials(&header).unwrap();
    assert_eq!(read_sid.as_u128(), sid.as_u128());
    assert_eq!(read_sig, vec![7u8, 1, 9, 200, 31]);
}

#[test]
fn session_credentials_reject_broken_cookies() {
    assert_eq!(session_credentials("").is_none(), true);
    assert!(session_credentials("session_id=not-a-uuid; session_signature=aGk=").is_none());
    assert!(session_credentials(
        "session_id=67e55044-10b1-426f-9247-bb680e5fe0c8; session_signature=!!!"
    )
    .is_none());
    assert!(session_credentials("session_id=67e55044-10b1-426f-9247-bb680e5fe0c8").is_none());
}

#[test]
fn base64_wrappers_encode_and_decode() {
    // Known vectors pin the wrapper down: handing the input back unchanged
    // would fail here.
    assert_eq!(encode_base64(b"hi"), "aGk=");
    assert_eq!(encode_base64(b""), "");
    assert_eq!(encode_base64(b"hello"), "aGVsbG8=");
    assert_eq!(decode_base64("aGVsbG8=").unwrap(), b"hello".to_vec());
    assert_eq!(decode_base64("!!!"), None);
    // The decoder is strict: non-canonical padding is refused.
    assert_eq!(decode_base64("aGk"), None);
}

#[test]
fn session_rows_carry_their_expiry() {
    let sid = SessionId::from_u128(5);
    let uid = UserId::from_u128(9);
    let s = Session::new(sid, uid, 1_700_000_000, SESSION_DURATION_SECONDS);
    assert_eq!(s.expires_at, 1_700_000_000 + 1_814_400);
    assert_eq!(s.created_at, 1_700_000_000);
    assert_eq!(s.user_id, uid);
    assert_eq!(s.id, sid);
}

#[test]
fn authorization_needs_signature_session_and_time() {
    let sid = SessionId::from_u128(5);
    let uid = UserId::from_u128(9);
    let session = Session::new(sid, uid, 1_700_000_000, SESSION_DURATION_SECONDS);

    let ok = authorize_session(true, Some(session), 1_700_000_001).unwrap();
    assert_eq!(ok, UserSession { user_id: uid, session_id: sid });

    assert!(authorize_session(false, Some(session), 1_700_000_001).is_none());
    assert!(authorize_session(true, None, 1_700_000_001).is_none());
    // At or past the expiry instant the session no longer authorizes.
    assert!(authorize_session(true, Some(session), session.expires_at).is_none());
    assert!(authorize_session(true, Some(session), i64::MAX).is_none());
}
