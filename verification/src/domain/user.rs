//! Validated values describing a user: name, password and display name.

use crate::domain::UserFacingError;
use vstd::prelude::*;

pub use crate::domain::email::{Email, EmailError, email_valid, is_valid_email};

verus! {

/// A user name is valid when it has between three and thirty characters.
pub open spec fn username_valid(s: Seq<char>) -> bool {
    3 <= s.len() <= 30
}

/// The handle a user signs in with.
#[derive(Debug)]
pub struct Username {
    text: String,
}

impl View for Username {
    type V = Seq<char>;

    closed spec fn view(&self) -> Seq<char> {
        self.text@
    }
}

/// Why a candidate user name was rejected.
#[derive(Clone, Copy, Debug, PartialEq, Eq, Structural)]
pub enum UsernameError {
    Missing,
    TooShort,
    TooLong,
}

impl UserFacingError for UsernameError {
    open spec fn spec_message(&self) -> Seq<char> {
        match self {
            UsernameError::Missing => "User name cannot be empty"@,
            UsernameError::TooShort => "User name must be at least 3 characters"@,
            UsernameError::TooLong => "User name must be at most 30 characters"@,
        }
    }

    fn formatted_error(&self) -> (r: &'static str)
        ensures
            r@ == self.spec_message(),
    {
        match self {
            UsernameError::Missing => "User name cannot be empty",
            UsernameError::TooShort => "User name must be at least 3 characters",
            UsernameError::TooLong => "User name must be at most 30 characters",
        }
    }
}

impl Username {
    #[verifier::type_invariant]
    spec fn type_inv(&self) -> bool {
        username_valid(self.text@)
    }

    /// Validate `text` as a user name. An empty name is reported as missing;
    /// otherwise a name outside the length bounds is too short or too long.
    pub fn new(text: String) -> (r: Result<Self, UsernameError>)
        ensures
            match r {
                Ok(u) => u@ == text@ && username_valid(text@),
                Err(e) => !username_valid(text@) && e == (if text@.len() == 0 {
                    UsernameError::Missing
                } else if text@.len() < 3 {
                    UsernameError::TooShort
                } else {
                    UsernameError::TooLong
                }),
            },
    {
        let n = text.as_str().unicode_len();
        if n == 0 {
            Err(UsernameError::Missing)
        } else if n < 3 {
            Err(UsernameError::TooShort)
        } else if n > 30 {
            Err(UsernameError::TooLong)
        } else {
            Ok(Username { text })
        }
    }

    /// The validated text.
    pub fn as_str(&self) -> (r: &str)
        ensures
            r@ == self@,
            username_valid(self@),
    {
        proof {
            use_type_invariant(self);
        }
        self.text.as_str()
    }

    /// Give the text back up.
    pub fn into_inner(self) -> (r: String)
        ensures
            r@ == self@,
            username_valid(self@),
    {
        proof {
            use_type_invariant(&self);
        }
        self.text
    }
}

impl Clone for Username {
    fn clone(&self) -> (r: Self)
        ensures
            r == self,
    {
        proof {
            use_type_invariant(self);
        }
        Username { text: self.text.clone() }
    }
}

/// A password is valid when it has at least eight characters.
pub open spec fn password_valid(s: Seq<char>) -> bool {
    s.len() >= 8
}

/// The secret a user signs in with. It is kept out of debug output.
pub struct Password {
    text: String,
}

impl View for Password {
    type V = Seq<char>;

    closed spec fn view(&self) -> Seq<char> {
        self.text@
    }
}

/// Why a candidate password was rejected.
#[derive(Clone, Copy, Debug, PartialEq, Eq, Structural)]
pub enum PasswordError {
    Missing,
    TooShort,
}

impl UserFacingError for PasswordError {
    open spec fn spec_message(&self) -> Seq<char> {
        match self {
            PasswordError::Missing => "Password cannot be empty"@,
            PasswordError::TooShort => "Password must be at least 8 characters"@,
        }
    }

    fn formatted_error(&self) -> (r: &'static str)
        ensures
            r@ == self.spec_message(),
    {
        match self {
            PasswordError::Missing => "Password cannot be empty",
            PasswordError::TooShort => "Password must be at least 8 characters",
        }
    }
}

impl Password {
    #[verifier::type_invariant]
    spec fn type_inv(&self) -> bool {
        password_valid(self.text@)
    }

    /// Validate `text` as a password. An empty password is reported as
    /// missing; otherwise a password under the minimum length is too short.
    pub fn new(text: String) -> (r: Result<Self, PasswordError>)
        ensures
            match r {
                Ok(p) => p@ == text@ && password_valid(text@),
                Err(e) => !password_valid(text@) && e == (if text@.len() == 0 {
                    PasswordError::Missing
                } else {
                    PasswordError::TooShort
                }),
            },
    {
        let n = text.as_str().unicode_len();
        if n == 0 {
            Err(PasswordError::Missing)
        } else if n < 8 {
            Err(PasswordError::TooShort)
        } else {
            Ok(Password { text })
        }
    }

    /// The validated text.
    pub fn as_str(&self) -> (r: &str)
        ensures
            r@ == self@,
            password_valid(self@),
    {
        proof {
            use_type_invariant(self);
        }
        self.text.as_str()
    }

    /// Give the text back up.
    pub fn into_inner(self) -> (r: String)
        ensures
            r@ == self@,
            password_valid(self@),
    {
        proof {
            use_type_invariant(&self);
        }
        self.text
    }
}

impl Clone for Password {
    fn clone(&self) -> (r: Self)
        ensures
            r == self,
    {
        proof {
            use_type_invariant(self);
        }
        Password { text: self.text.clone() }
    }
}

/// A display name is valid when it has at most thirty characters.
pub open spec fn display_name_valid(s: Seq<char>) -> bool {
    s.len() <= 30
}

/// The name shown beside a user's posts. It may be empty.
#[derive(Debug)]
pub struct DisplayName {
    text: String,
}

impl View for DisplayName {
    type V = Seq<char>;

    closed spec fn view(&self) -> Seq<char> {
        self.text@
    }
}

/// Why a candidate display name was rejected.
#[derive(Clone, Copy, Debug, PartialEq, Eq, Structural)]
pub enum DisplayNameError {
    TooLong,
}

impl UserFacingError for DisplayNameError {
    open spec fn spec_message(&self) -> Seq<char> {
        match self {
            DisplayNameError::TooLong => "Display name must be at most 30 characters"@,
        }
    }

    fn formatted_error(&self) -> (r: &'static str)
        ensures
            r@ == self.spec_message(),
    {
        match self {
            DisplayNameError::TooLong => "Display name must be at most 30 characters",
        }
    }
}

impl DisplayName {
    /// The most characters a display name may have.
    pub const MAX_CHARS: usize = 30;

    #[verifier::type_invariant]
    spec fn type_inv(&self) -> bool {
        display_name_valid(self.text@)
    }

    /// Validate `text` as a display name.
    pub fn new(text: String) -> (r: Result<Self, DisplayNameError>)
        ensures
            match r {
                Ok(d) => d@ == text@ && display_name_valid(text@),
                Err(e) => !display_name_valid(text@) && e == DisplayNameError::TooLong,
            },
    {
        let n = text.as_str().unicode_len();
        if n > 30 {
            Err(DisplayNameError::TooLong)
        } else {
            Ok(DisplayName { text })
        }
    }

    /// The validated text.
    pub fn as_str(&self) -> (r: &str)
        ensures
            r@ == self@,
            display_name_valid(self@),
    {
        proof {
            use_type_invariant(self);
        }
        self.text.as_str()
    }

    /// Give the text back up.
    pub fn into_inner(self) -> (r: String)
        ensures
            r@ == self@,
            display_name_valid(self@),
    {
        proof {
            use_type_invariant(&self);
        }
        self.text
    }
}

impl Clone for DisplayName {
    fn clone(&self) -> (r: Self)
        ensures
            r == self,
    {
        proof {
            use_type_invariant(self);
        }
        DisplayName { text: self.text.clone() }
    }
}

} // verus!
