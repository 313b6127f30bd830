//! The signed-in user's own profile, as the front end remembers it.

use crate::domain::ids::UserId;
use vstd::prelude::*;

verus! {

/// What the front end knows about the signed-in user: the profile image
/// URL and the user identifier, each once fetched.
#[derive(Clone, Debug)]
pub struct LocalProfile {
    pub image: Option<String>,
    pub user_id: Option<UserId>,
}

impl Default for LocalProfile {
    /// Nothing known yet.
    fn default() -> (r: Self)
        ensures
            r.image is None,
            r.user_id is None,
    {
        LocalProfile { image: None, user_id: None }
    }
}

} // verus!
