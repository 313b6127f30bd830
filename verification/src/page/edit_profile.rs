//! State of the profile form, and the update request it submits.

use crate::components::keyed_notification_box::{without_key, KeyedNotifications};
use crate::domain::user::{password_valid, Password};
use crate::endpoint::user::UpdateProfile;
use crate::endpoint::Update;
use vstd::prelude::*;

verus! {

/// The picture the form shows: either newly loaded data, or the address
/// of the stored picture.
#[derive(Clone, Debug)]
pub enum PreviewImageData {
    DataUrl(String),
    Remote(String),
}

/// What the profile form holds.
#[derive(Debug)]
pub struct PageState {
    pub form_errors: KeyedNotifications,
    pub display_name: String,
    pub email: String,
    pub password: String,
    pub password_confirm: String,
    pub profile_image: Option<PreviewImageData>,
}

impl Default for PageState {
    /// An empty form.
    fn default() -> (r: Self)
        ensures
            r.form_errors@.len() == 0,
            r.display_name@.len() == 0,
            r.email@.len() == 0,
            r.password@.len() == 0,
            r.password_confirm@.len() == 0,
            r.profile_image is None,
    {
        PageState {
            form_errors: KeyedNotifications::new(),
            display_name: String::new(),
            email: String::new(),
            password: String::new(),
            password_confirm: String::new(),
            profile_image: None,
        }
    }
}

impl PageState {
    /// Note under the fixed key whether the two password fields disagree.
    pub fn check_password_mismatch(&mut self)
        ensures
            final(self).display_name == old(self).display_name,
            final(self).email == old(self).email,
            final(self).password == old(self).password,
            final(self).password_confirm == old(self).password_confirm,
            final(self).profile_image == old(self).profile_image,
            final(self).form_errors@ == (if old(self).password@ == old(self).password_confirm@ {
                without_key(old(self).form_errors@, "password-mismatch"@)
            } else {
                without_key(old(self).form_errors@, "password-mismatch"@).push(
                    ("password-mismatch"@, "Passwords must match"@),
                )
            }),
    {
        if self.password == self.password_confirm {
            self.form_errors.remove("password-mismatch");
        } else {
            self.form_errors.set("password-mismatch", "Passwords must match");
        }
    }

    /// The update request the form submits: an empty display name or
    /// e-mail clears the stored field, an empty password is left alone,
    /// a newly loaded image is sent and a remote one is kept.
    pub fn update_request(&self) -> (r: UpdateProfile)
        requires
            self.password@.len() == 0 || password_valid(self.password@),
        ensures
            (if self.display_name@.len() == 0 {
                r.display_name is SetNull
            } else {
                r.display_name matches Update::Change(v) && v@ == self.display_name@
            }),
            (if self.email@.len() == 0 {
                r.email is SetNull
            } else {
                r.email matches Update::Change(v) && v@ == self.email@
            }),
            (if self.password@.len() == 0 {
                r.password is NoChange
            } else {
                r.password matches Update::Change(p) && p@ == self.password@
            }),
            (match self.profile_image {
                Some(PreviewImageData::DataUrl(d)) => r.profile_image matches Update::Change(v)
                    && v@ == d@,
                Some(PreviewImageData::Remote(_)) => r.profile_image is NoChange,
                None => r.profile_image is SetNull,
            }),
    {
        let display_name = if self.display_name.as_str().is_empty() {
            Update::SetNull
        } else {
            Update::Change(self.display_name.clone())
        };
        let email = if self.email.as_str().is_empty() {
            Update::SetNull
        } else {
            Update::Change(self.email.clone())
        };
        let password = if self.password.as_str().is_empty() {
            Update::NoChange
        } else {
            match Password::new(self.password.clone()) {
                Ok(p) => Update::Change(p),
                Err(_) => {
                    proof {
                        assert(false);
                    }
                    Update::NoChange
                },
            }
        };
        let profile_image = match &self.profile_image {
            Some(PreviewImageData::DataUrl(d)) => Update::Change(d.clone()),
            Some(PreviewImageData::Remote(_)) => Update::NoChange,
            None => Update::SetNull,
        };
        UpdateProfile { display_name, email, profile_image, password }
    }
}

} // verus!
