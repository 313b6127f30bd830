//! Building the URLs under which the server serves user content.
//!
//! The server's own address comes from its configuration; the paths here
//! are joined onto it. A base always ends in a slash, so joining a
//! relative path is appending it.

use vstd::prelude::*;

verus! {

/// The directory of uploaded user content, under the server root.
pub const USER_CONTENT_ROOT: &'static str = "usercontent/";

/// The directory of uploaded images, under the user content directory.
pub const USER_CONTENT_IMAGES: &'static str = "img/";

/// Join `fragment` onto the server address `api_url`, which must end in a
/// slash for the join to be plain appending.
pub fn domain_and(api_url: &str, fragment: &str) -> (r: String)
    ensures
        r@ == api_url@ + fragment@,
{
    let mut joined = api_url.to_owned();
    joined.append(fragment);
    joined
}

} // verus!
