//! State kept by the front end's pages, and the routes between them.

use vstd::prelude::*;

pub mod edit_profile;
pub mod home;
pub mod login;
pub mod new_post;
pub mod register;
pub mod view_profile;

verus! {

pub const ACCOUNT_REGISTER: &'static str = "/account/register";

pub const ACCOUNT_LOGIN: &'static str = "/account/login";

pub const HOME: &'static str = "/home";

pub const POST_NEW_CHAT: &'static str = "/post/new_chat";

pub const POSTS_TRENDING: &'static str = "/posts/trending";

pub const POST_NEW_IMAGE: &'static str = "/post/new_image";

pub const POST_NEW_POLL: &'static str = "/post/new_poll";

pub const HOME_LIKED: &'static str = "/home/liked";

pub const HOME_BOOKMARKED: &'static str = "/home/bookmarked";

pub const PROFILE_EDIT: &'static str = "/profile/edit";

pub const PROFILE_VIEW: &'static str = "/profile/view/:id";

} // verus!
