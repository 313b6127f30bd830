//! State of the page showing another user's profile.

use crate::page::edit_profile::PreviewImageData;
use vstd::prelude::*;

verus! {

/// What the profile page shows about the viewed user.
#[derive(Clone, Debug)]
pub struct ViewProfileData {
    pub display_name: Option<String>,
    pub handle: String,
    pub profile_image: Option<PreviewImageData>,
}

impl Default for ViewProfileData {
    /// Nothing fetched yet.
    fn default() -> (r: Self)
        ensures
            r.display_name is None,
            r.handle@.len() == 0,
            r.profile_image is None,
    {
        ViewProfileData { display_name: None, handle: String::new(), profile_image: None }
    }
}

} // verus!
