//! Decisions and answers of the account and profile handlers.

use crate::crypto::{base64_of, encode_base64};
use crate::domain::ids::{uuid_hyphenated, ImageId, SessionId, UserId};
use crate::domain::user::{display_name_valid, DisplayName, Username};
use crate::endpoint::user::{CreateUserOk, FollowAction, FollowUserOk, LoginOk, PublicUserProfile,
    UpdateProfile};
use crate::endpoint::Update;
use crate::error::{ApiErr, ServerErr};
use crate::query::user::{UpdateProfileParams, User};
use crate::session::{Session, SESSION_DURATION_SECONDS};
use vstd::prelude::*;

verus! {

/// A base64-encoded session signature, ready for its cookie.
pub struct SessionSignature(pub String);

/// The URL under which the profile image named `id` is served from the
/// server address `base`, which ends in a slash.
pub fn profile_id_to_url(base: &str, id: &str) -> (r: String)
    ensures
        r@ == base@ + "usercontent/"@ + "img/"@ + id@,
{
    let mut joined = base.to_owned();
    joined.append("usercontent/");
    joined.append("img/");
    joined.append(id);
    joined
}

/// The public profile of a stored user: a stored display name that does
/// not validate is dropped, the stored image name becomes its serving URL,
/// and following is not claimed.
pub fn to_public(user: User, base_url: &str) -> (r: PublicUserProfile)
    ensures
        r.id == user.id,
        (match user.display_name {
            Some(n) => if display_name_valid(n@) {
                r.display_name matches Some(d) && d@ == n@
            } else {
                r.display_name is None
            },
            None => r.display_name is None,
        }),
        r.handle == user.handle,
        (match user.profile_image {
            Some(img) => r.profile_image matches Some(u) && u@ == base_url@ + "usercontent/"@
                + "img/"@ + img@,
            None => r.profile_image is None,
        }),
        r.created_at == user.created_at,
        r.am_following == false,
{
    let display_name = match user.display_name {
        Some(n) => match DisplayName::new(n) {
            Ok(d) => Some(d),
            Err(_) => None,
        },
        None => None,
    };
    let profile_image = match user.profile_image {
        Some(img) => Some(profile_id_to_url(base_url, img.as_str())),
        None => None,
    };
    PublicUserProfile {
        id: user.id,
        display_name,
        handle: user.handle,
        profile_image,
        created_at: user.created_at,
        am_following: false,
    }
}

/// The profile with the viewer's follow relation filled in: a viewed
/// profile claims following only when the viewer follows the user.
pub fn mark_following(profile: PublicUserProfile, am_following: bool) -> (r: PublicUserProfile)
    ensures
        r.id == profile.id,
        r.display_name == profile.display_name,
        r.handle == profile.handle,
        r.profile_image == profile.profile_image,
        r.created_at == profile.created_at,
        r.am_following == am_following,
{
    PublicUserProfile {
        id: profile.id,
        display_name: profile.display_name,
        handle: profile.handle,
        profile_image: profile.profile_image,
        created_at: profile.created_at,
        am_following,
    }
}

/// The fresh session for `user_id`, lasting the standard three weeks from
/// `now`, with its signature encoded for the cookie. The caller has signed
/// the session identifier and passes the raw signature bytes.
pub fn new_session(session_id: SessionId, user_id: UserId, now: i64, signature_bytes: &[u8]) -> (r:
    (Session, SessionSignature))
    requires
        0 <= now,
        now + SESSION_DURATION_SECONDS <= i64::MAX,
    ensures
        r.0.id == session_id,
        r.0.user_id == user_id,
        r.0.created_at == now,
        r.0.expires_at == now + SESSION_DURATION_SECONDS,
        r.1.0@ == base64_of(signature_bytes@),
{
    let session = Session::new(session_id, user_id, now, SESSION_DURATION_SECONDS);
    let signature = SessionSignature(encode_base64(signature_bytes));
    (session, signature)
}

/// The decision after the password check and the account lookup: a failed
/// check is answered as a wrong password, a missing account as a missing
/// login, and only a found account with the right password signs in.
pub fn process_login(password_verified: bool, user: Option<User>) -> (r: Result<User, ServerErr>)
    ensures
        r is Ok <==> (password_verified && user is Some),
        match r {
            Ok(u) => user matches Some(u0) && u == u0,
            Err(e) => (!password_verified && (e matches ServerErr::Login(p) && p.0 == 400 && p.1@
                == "Invalid password"@)) || (password_verified && user is None && (
            e matches ServerErr::Login(p) && p.0 == 404 && p.1@ == "Missing login"@)),
        },
{
    if !password_verified {
        return Err(ServerErr::wrong_password());
    }
    match user {
        Some(u) => Ok(u),
        None => Err(ServerErr::missing_login()),
    }
}

/// The answer for a successful login.
pub fn build_login_ok(user: User, session: &Session, signature: SessionSignature, base_url: &str)
    -> (r: LoginOk)
    ensures
        r.session_signature == signature.0,
        r.session_id == session.id,
        r.session_expires == session.expires_at,
        r.display_name == user.display_name,
        r.email == user.email,
        (match user.profile_image {
            Some(img) => r.profile_image matches Some(u) && u@ == base_url@ + "usercontent/"@
                + "img/"@ + img@,
            None => r.profile_image is None,
        }),
        r.user_id == user.id,
{
    let profile_image = match user.profile_image {
        Some(img) => Some(profile_id_to_url(base_url, img.as_str())),
        None => None,
    };
    LoginOk {
        session_signature: signature.0,
        session_id: session.id,
        session_expires: session.expires_at,
        display_name: user.display_name,
        email: user.email,
        profile_image,
        user_id: user.id,
    }
}

/// The decision after inserting a new account: a clashing handle is
/// answered as an existing account.
pub fn process_registration(created: Option<UserId>) -> (r: Result<UserId, ServerErr>)
    ensures
        r is Ok <==> created is Some,
        match r {
            Ok(id) => created == Some(id),
            Err(e) => created is None && (e matches ServerErr::Login(p) && p.0 == 409 && p.1@
                == "Account already exists"@),
        },
{
    match created {
        Some(id) => Ok(id),
        None => Err(ServerErr::account_exists()),
    }
}

/// The answer for a successful registration.
pub fn build_create_user_ok(
    user_id: UserId,
    username: Username,
    session: &Session,
    signature: SessionSignature,
) -> (r: CreateUserOk)
    ensures
        r.user_id == user_id,
        r.username == username,
        r.session_signature == signature.0,
        r.session_id == session.id,
        r.session_expires == session.expires_at,
{
    CreateUserOk {
        user_id,
        username,
        session_signature: signature.0,
        session_id: session.id,
        session_expires: session.expires_at,
    }
}

/// The stored update for a profile change request. The caller has hashed
/// the new password, if one was asked for, and stored the new image under
/// `new_image_id`, if one was sent; a password asked to be cleared is left
/// alone.
pub fn update_profile_params(
    request: UpdateProfile,
    user_id: UserId,
    hashed_password: Option<String>,
    new_image_id: Option<ImageId>,
) -> (r: UpdateProfileParams)
    requires
        (request.password is Change) <==> hashed_password is Some,
        (request.profile_image is Change) <==> new_image_id is Some,
    ensures
        r.id == user_id,
        r.display_name == request.display_name,
        r.email == request.email,
        (match hashed_password {
            Some(h) => r.password_hash matches Update::Change(x) && x == h,
            None => r.password_hash is NoChange,
        }),
        (match request.profile_image {
            Update::Change(_) => new_image_id matches Some(id) && (
            r.profile_image matches Update::Change(u) && u@ == uuid_hyphenated(id@)),
            Update::NoChange => r.profile_image is NoChange,
            Update::SetNull => r.profile_image is SetNull,
        }),
{
    let password_hash = match hashed_password {
        Some(h) => Update::Change(h),
        None => Update::NoChange,
    };
    let profile_image = match request.profile_image {
        Update::Change(_) => {
            let id = match new_image_id {
                Some(id) => id,
                None => {
                    proof {
                        assert(false);
                    }
                    ImageId::from_u128(0)
                },
            };
            Update::Change(id.to_string())
        },
        Update::NoChange => Update::NoChange,
        Update::SetNull => Update::SetNull,
    };
    UpdateProfileParams {
        id: user_id,
        display_name: request.display_name,
        email: request.email,
        password_hash,
        profile_image,
    }
}

/// Following yourself is refused with a fixed answer; otherwise the
/// request settles whether the user is followed now.
pub fn process_follow(session_user: UserId, follows: UserId, action: FollowAction) -> (r: Result<
    FollowUserOk,
    ApiErr,
>)
    ensures
        r is Ok <==> follows != session_user,
        match r {
            Ok(ok) => ok.is_following == (action is Follow),
            Err(e) => e.code == Some(400u16) && e.msg@ == "cannot follow self"@,
        },
{
    if follows == session_user {
        return Err(ApiErr::new(400, "cannot follow self"));
    }
    Ok(FollowUserOk { is_following: matches!(action, FollowAction::Follow) })
}

} // verus!
