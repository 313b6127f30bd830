//! State of the registration form.

use crate::components::keyed_notification_box::{without_key, KeyedNotifications};
use crate::domain::user::{
    password_valid, username_valid, Password, PasswordError, Username, UsernameError,
};
use crate::domain::UserFacingError;
use vstd::prelude::*;

verus! {

/// What the registration form holds: the two inputs, the notifications
/// shown under them, and the errors the server answered with.
pub struct PageState {
    pub username: String,
    pub password: String,
    pub form_errors: KeyedNotifications,
    pub server_errors: KeyedNotifications,
}

impl PageState {
    /// An empty form.
    pub fn new() -> (r: Self)
        ensures
            r.username@.len() == 0,
            r.password@.len() == 0,
            r.form_errors@.len() == 0,
            r.server_errors@.len() == 0,
    {
        PageState {
            username: String::new(),
            password: String::new(),
            form_errors: KeyedNotifications::new(),
            server_errors: KeyedNotifications::new(),
        }
    }

    /// The form may be submitted when both fields are filled in and no
    /// form notification is set.
    pub fn can_submit(&self) -> (r: bool)
        ensures
            r == (self.username@.len() > 0 && self.password@.len() > 0 && self.form_errors@.len()
                == 0),
    {
        let is_form_empty = self.username.as_str().is_empty() || self.password.as_str().is_empty();
        let has_errors = self.form_errors.has_messages();
        !is_form_empty && !has_errors
    }

    /// Take a keystroke in the user name field: store the input and note
    /// its validation under the field's key.
    pub fn note_username(&mut self, input: String)
        ensures
            final(self).username == input,
            final(self).password == old(self).password,
            final(self).server_errors == old(self).server_errors,
            final(self).form_errors@ == (if username_valid(input@) {
                without_key(old(self).form_errors@, "bad-username"@)
            } else {
                without_key(old(self).form_errors@, "bad-username"@).push(
                    (
                        "bad-username"@,
                        (if input@.len() == 0 {
                            UsernameError::Missing
                        } else if input@.len() < 3 {
                            UsernameError::TooShort
                        } else {
                            UsernameError::TooLong
                        }).spec_message(),
                    ),
                )
            }),
    {
        match Username::new(input.clone()) {
            Ok(_) => self.form_errors.remove("bad-username"),
            Err(e) => self.form_errors.set("bad-username", e.formatted_error()),
        }
        self.username = input;
    }

    /// Take a keystroke in the password field: store the input and note
    /// its validation under the field's key.
    pub fn note_password(&mut self, input: String)
        ensures
            final(self).password == input,
            final(self).username == old(self).username,
            final(self).server_errors == old(self).server_errors,
            final(self).form_errors@ == (if password_valid(input@) {
                without_key(old(self).form_errors@, "bad-password"@)
            } else {
                without_key(old(self).form_errors@, "bad-password"@).push(
                    (
                        "bad-password"@,
                        (if input@.len() == 0 {
                            PasswordError::Missing
                        } else {
                            PasswordError::TooShort
                        }).spec_message(),
                    ),
                )
            }),
    {
        match Password::new(input.clone()) {
            Ok(_) => self.form_errors.remove("bad-password"),
            Err(e) => self.form_errors.set("bad-password", e.formatted_error()),
        }
        self.password = input;
    }
}

} // verus!
