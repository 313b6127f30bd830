//! Requests and answers for accounts, profiles and following.

use crate::domain::ids::{SessionId, UserId};
use crate::domain::user::{DisplayName, Password, Username};
use crate::endpoint::post::PublicPost;
use crate::endpoint::{Endpoint, Update};
use vstd::prelude::*;

verus! {

/// A user's profile as shown to other users.
#[derive(Clone, Debug)]
pub struct PublicUserProfile {
    pub id: UserId,
    pub display_name: Option<DisplayName>,
    pub handle: String,
    pub profile_image: Option<String>,
    pub created_at: i64,
    pub am_following: bool,
}

/// Whether a user is being followed or unfollowed.
#[derive(Clone, Copy, Debug, PartialEq, Eq, Structural)]
pub enum FollowAction {
    Follow,
    Unfollow,
}

/// Register a new account.
#[derive(Clone)]
pub struct CreateUser {
    pub username: Username,
    pub password: Password,
}

impl Endpoint for CreateUser {
    open spec fn spec_url(&self) -> Seq<char> {
        "/account/create"@
    }

    fn url(&self) -> (r: &'static str) {
        "/account/create"
    }
}

/// The answer to `CreateUser`: the new account and its first session.
/// The expiry is in seconds since the Unix epoch.
#[derive(Clone, Debug)]
pub struct CreateUserOk {
    pub user_id: UserId,
    pub username: Username,
    pub session_signature: String,
    pub session_id: SessionId,
    pub session_expires: i64,
}

/// Sign in.
#[derive(Clone)]
pub struct Login {
    pub username: Username,
    pub password: Password,
}

impl Endpoint for Login {
    open spec fn spec_url(&self) -> Seq<char> {
        "/account/login"@
    }

    fn url(&self) -> (r: &'static str) {
        "/account/login"
    }
}

/// The answer to `Login`: the fresh session and the signed-in profile.
#[derive(Clone, Debug)]
pub struct LoginOk {
    pub session_signature: String,
    pub session_id: SessionId,
    pub session_expires: i64,
    pub display_name: Option<String>,
    pub email: Option<String>,
    pub profile_image: Option<String>,
    pub user_id: UserId,
}

/// Fetch the signed-in user's own profile.
#[derive(Clone, Debug)]
pub struct GetMyProfile;

impl Endpoint for GetMyProfile {
    open spec fn spec_url(&self) -> Seq<char> {
        "/profile/me"@
    }

    fn url(&self) -> (r: &'static str) {
        "/profile/me"
    }
}

/// The answer to `GetMyProfile`.
#[derive(Clone, Debug)]
pub struct GetMyProfileOk {
    pub display_name: Option<String>,
    pub email: Option<String>,
    pub profile_image: Option<String>,
    pub user_id: UserId,
}

/// Change parts of the signed-in user's profile.
#[derive(Clone)]
pub struct UpdateProfile {
    pub display_name: Update<String>,
    pub email: Update<String>,
    pub profile_image: Update<String>,
    pub password: Update<Password>,
}

impl Endpoint for UpdateProfile {
    open spec fn spec_url(&self) -> Seq<char> {
        "/profile/update"@
    }

    fn url(&self) -> (r: &'static str) {
        "/profile/update"
    }
}

/// The answer to `UpdateProfile`: where the profile image now lives.
#[derive(Clone, Debug)]
pub struct UpdateProfileOk {
    pub profile_image: Option<String>,
}

/// Fetch another user's profile and posts.
#[derive(Clone, Debug)]
pub struct ViewProfile {
    pub user_id: UserId,
}

impl Endpoint for ViewProfile {
    open spec fn spec_url(&self) -> Seq<char> {
        "/profile/view"@
    }

    fn url(&self) -> (r: &'static str) {
        "/profile/view"
    }
}

/// The answer to `ViewProfile`.
#[derive(Clone, Debug)]
pub struct ViewProfileOk {
    pub profile: PublicUserProfile,
    pub posts: Vec<PublicPost>,
}

/// Ask whether the signed-in user follows another.
#[derive(Clone, Debug)]
pub struct IsFollowing {
    pub follows: UserId,
}

impl Endpoint for IsFollowing {
    open spec fn spec_url(&self) -> Seq<char> {
        "/profile/following"@
    }

    fn url(&self) -> (r: &'static str) {
        "/profile/following"
    }
}

/// The answer to `IsFollowing`.
#[derive(Clone, Debug)]
pub struct IsFollowingOk {
    pub is_following: bool,
}

/// Follow or unfollow another user.
#[derive(Clone, Debug)]
pub struct FollowUser {
    pub follows: UserId,
    pub action: FollowAction,
}

impl Endpoint for FollowUser {
    open spec fn spec_url(&self) -> Seq<char> {
        "/user/follow"@
    }

    fn url(&self) -> (r: &'static str) {
        "/user/follow"
    }
}

/// The answer to `FollowUser`: whether the user is followed now.
#[derive(Clone, Debug)]
pub struct FollowUserOk {
    pub is_following: bool,
}

} // verus!
