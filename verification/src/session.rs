//! Login sessions and the cookie-based authorization of requests.
//!
//! A request is authorized by a pair of cookies: the session identifier
//! and a base64 signature over it. The caller verifies the signature with
//! its signing key and looks the session up; the decision that combines
//! those results is made here, and a request is accepted only when the
//! signature held, the session exists and it has not expired.

use crate::cookie::{
    cookie_value, get_from_str, lemma_two_pair_header_lookup, plain_cookie_name,
    plain_cookie_value, two_pair_header,
};
use crate::crypto::{base64_decoded, decode_base64};
use crate::domain::ids::{
    uuid_hyphenated, uuid_hyphenated_form, uuid_parsed_value, uuid_simple_form, SessionId, UserId,
};
use vstd::prelude::*;

verus! {

/// How long a fresh session lasts, in seconds: three weeks.
pub const SESSION_DURATION_SECONDS: i64 = 1814400;

/// A stored login session. Times are seconds since the Unix epoch.
#[derive(Clone, Copy, Debug, PartialEq, Eq, Structural)]
pub struct Session {
    pub id: SessionId,
    pub user_id: UserId,
    pub expires_at: i64,
    pub created_at: i64,
}

impl Session {
    /// The session row for `user_id` made at `created_at` and lasting
    /// `duration_seconds`.
    pub fn new(id: SessionId, user_id: UserId, created_at: i64, duration_seconds: i64) -> (r:
        Session)
        requires
            0 <= duration_seconds,
            created_at + duration_seconds <= i64::MAX,
        ensures
            r.id == id,
            r.user_id == user_id,
            r.created_at == created_at,
            r.expires_at == created_at + duration_seconds,
    {
        Session { id, user_id, expires_at: created_at + duration_seconds, created_at }
    }
}

/// The identity a request acts as, once its cookies have been accepted.
#[derive(Clone, Copy, Debug, PartialEq, Eq, Structural)]
pub struct UserSession {
    pub user_id: UserId,
    pub session_id: SessionId,
}

/// The session identifier a cookie header presents, if its text is a
/// well-formed UUID.
pub open spec fn header_session_id(header: Seq<char>) -> Option<int> {
    match cookie_value(header, "session_id"@) {
        Some(t) => if uuid_simple_form(t) || uuid_hyphenated_form(t) {
            Some(uuid_parsed_value(t))
        } else {
            None
        },
        None => None,
    }
}

/// The signature bytes a cookie header presents, if its text is canonical
/// base64.
pub open spec fn header_signature(header: Seq<char>) -> Option<Seq<u8>> {
    match cookie_value(header, "session_signature"@) {
        Some(t) => base64_decoded(t),
        None => None,
    }
}

/// Read the session identifier and the signature bytes out of a `Cookie`
/// header. Both cookies must be present and well formed.
pub fn session_credentials(cookies: &str) -> (r: Option<(SessionId, Vec<u8>)>)
    ensures
        match r {
            Some((sid, sig)) => header_session_id(cookies@) == Some(sid@ as int)
                && header_signature(cookies@) == Some(sig@),
            None => header_session_id(cookies@) is None || header_signature(cookies@) is None,
        },
{
    let id_text = match get_from_str(cookies, "session_id") {
        Some(t) => t,
        None => {
            return None;
        },
    };
    let session_id = match SessionId::from_str(id_text) {
        Ok(id) => id,
        Err(_) => {
            return None;
        },
    };
    let sig_text = match get_from_str(cookies, "session_signature") {
        Some(t) => t,
        None => {
            return None;
        },
    };
    let signature = match decode_base64(sig_text) {
        Some(s) => s,
        None => {
            return None;
        },
    };
    Some((session_id, signature))
}

/// Write the pair of session cookies as one `Cookie` header, the
/// identifier in its hyphenated text form.
pub fn session_cookie_header(session_id: &SessionId, signature_b64: &str) -> (r: String)
    ensures
        r@ == two_pair_header(
            "session_id"@,
            uuid_hyphenated(session_id@),
            "session_signature"@,
            signature_b64@,
        ),
{
    let mut header = "session_id=".to_owned();
    let id_text = session_id.to_string();
    header.append(id_text.as_str());
    header.append("; session_signature=");
    header.append(signature_b64);
    proof {
        reveal_strlit("session_id=");
        reveal_strlit("session_id");
        reveal_strlit("; session_signature=");
        reveal_strlit("session_signature");
        assert(header@ =~= two_pair_header(
            "session_id"@,
            uuid_hyphenated(session_id@),
            "session_signature"@,
            signature_b64@,
        ));
    }
    header
}

/// Issuing cookies and reading them back round-trips: a header written
/// from an identifier text and a signature text presents exactly those
/// cookies, as long as neither text carries a semicolon or a space. The
/// hyphenated UUID form and base64 text always satisfy that.
pub proof fn lemma_session_cookie_round_trip(id_text: Seq<char>, sig_text: Seq<char>)
    requires
        plain_cookie_value(id_text),
        plain_cookie_value(sig_text),
    ensures
        cookie_value(two_pair_header("session_id"@, id_text, "session_signature"@, sig_text), "session_id"@)
            == Some(id_text),
        cookie_value(two_pair_header("session_id"@, id_text, "session_signature"@, sig_text), "session_signature"@)
            == Some(sig_text),
{
    reveal_strlit("session_id");
    reveal_strlit("session_signature");
    assert(plain_cookie_name("session_id"@));
    assert(plain_cookie_name("session_signature"@));
    assert("session_id"@ != "session_signature"@) by {
        assert("session_id"@.len() != "session_signature"@.len());
    }
    lemma_two_pair_header_lookup("session_id"@, id_text, "session_signature"@, sig_text);
}

/// The hyphenated identifier text never carries a cookie separator: every
/// character is a hexadecimal digit or a hyphen.
pub proof fn lemma_uuid_text_is_cookie_safe(v: u128)
    ensures
        plain_cookie_value(uuid_hyphenated(v)),
{
    let h = uuid_hyphenated(v);
    assert forall|i: int| 0 <= i < h.len() implies h[i] != ';' && h[i] != ' ' by {
        if !crate::domain::ids::uuid_hyphen_pos(i) {
            let nb = crate::domain::ids::uuid_nibble(v, crate::domain::ids::uuid_digit_index(i));
            crate::domain::ids::lemma_pow16_pos(31 - crate::domain::ids::uuid_digit_index(i));
            assert(0 <= nb < 16);
            assert(crate::domain::ids::hex_char(nb) != ';' && crate::domain::ids::hex_char(nb)
                != ' ');
        }
    }
}

/// Issued session cookies present their credentials back: the header
/// written from a session identifier and a signature text carries exactly
/// that identifier and whatever the signature text decodes to. With the
/// text taken from the encoder, that is the signature bytes themselves.
pub proof fn lemma_issued_cookies_present_credentials(sid: u128, sig_text: Seq<char>)
    requires
        plain_cookie_value(sig_text),
    ensures
        header_session_id(two_pair_header("session_id"@, uuid_hyphenated(sid), "session_signature"@, sig_text))
            == Some(sid as int),
        header_signature(two_pair_header("session_id"@, uuid_hyphenated(sid), "session_signature"@, sig_text))
            == base64_decoded(sig_text),
{
    lemma_uuid_text_is_cookie_safe(sid);
    lemma_session_cookie_round_trip(uuid_hyphenated(sid), sig_text);
    crate::domain::ids::lemma_uuid_round_trip(sid);
}

/// The final authorization decision. The caller has verified the
/// signature against its signing key and looked the session up; the
/// request is accepted only when the signature held and the session
/// exists and has not expired at `now`.
pub fn authorize_session(signature_valid: bool, session: Option<Session>, now: i64) -> (r: Option<
    UserSession,
>)
    ensures
        match r {
            Some(us) => signature_valid && (session matches Some(s) && now < s.expires_at
                && us.user_id == s.user_id && us.session_id == s.id),
            None => !signature_valid || session is None || (session matches Some(s) && now
                >= s.expires_at),
        },
{
    if !signature_valid {
        return None;
    }
    match session {
        Some(s) => {
            if now < s.expires_at {
                Some(UserSession { user_id: s.user_id, session_id: s.id })
            } else {
                None
            }
        },
        None => None,
    }
}

} // verus!
