//! Validated e-mail addresses.
//!
//! An address is accepted when it has the shape `name@host.tld`: some
//! non-whitespace text, an `@`, more non-whitespace text, then a final dot
//! followed by one to sixty-four characters, with no whitespace anywhere.

use crate::domain::UserFacingError;
use vstd::prelude::*;

verus! {

/// The characters that count as whitespace: the Unicode `White_Space` set.
pub open spec fn email_whitespace(c: char) -> bool {
    ||| 0x9 <= c as int <= 0xD
    ||| c as int == 0x20
    ||| c as int == 0x85
    ||| c as int == 0xA0
    ||| c as int == 0x1680
    ||| 0x2000 <= c as int <= 0x200A
    ||| c as int == 0x2028
    ||| c as int == 0x2029
    ||| c as int == 0x202F
    ||| c as int == 0x205F
    ||| c as int == 0x3000
}

/// Positions `i` and `j` cut `s` into `name@host.tld`: the `@` comes after
/// at least one character, the final dot comes at least two characters
/// later, and one to sixty-four characters follow the dot.
pub open spec fn email_split_at(s: Seq<char>, i: int, j: int) -> bool {
    &&& 1 <= i
    &&& i + 2 <= j
    &&& j + 1 < s.len()
    &&& s.len() - (j + 1) <= 64
    &&& s[i] == '@'
    &&& s[j] == '.'
}

/// A string is a valid address when it has no whitespace and some pair of
/// positions cuts it into `name@host.tld`.
pub open spec fn email_valid(s: Seq<char>) -> bool {
    &&& forall|k: int| 0 <= k < s.len() ==> !email_whitespace(#[trigger] s[k])
    &&& exists|i: int, j: int| email_split_at(s, i, j)
}

/// Whether `c` counts as whitespace for address validation.
fn is_email_whitespace(c: char) -> (r: bool)
    ensures
        r == email_whitespace(c),
{
    let u = c as u32;
    (0x9 <= u && u <= 0xD) || u == 0x20 || u == 0x85 || u == 0xA0 || u == 0x1680 || (0x2000 <= u
        && u <= 0x200A) || u == 0x2028 || u == 0x2029 || u == 0x202F || u == 0x205F || u == 0x3000
}

/// Whether `email` is a valid address.
pub fn is_valid_email(email: &str) -> (r: bool)
    ensures
        r == email_valid(email@),
{
    let n = email.unicode_len();

    let mut k: usize = 0;
    while k < n
        invariant
            n == email@.len(),
            k <= n,
            forall|m: int| 0 <= m < k ==> !email_whitespace(#[trigger] email@[m]),
        decreases n - k,
    {
        if is_email_whitespace(email.get_char(k)) {
            return false;
        }
        k += 1;
    }

    // A cut needs a character before the `@`, two between `@` and the dot,
    // and one after the dot.
    if n < 5 {
        assert(forall|i: int, j: int| !email_split_at(email@, i, j));
        return false;
    }

    // The first `@` that has at least one character before it. Any cut uses
    // an `@` no earlier, so if no cut works with this one, none works.
    let mut at: usize = 1;
    while at < n && email.get_char(at) != '@'
        invariant
            n == email@.len(),
            1 <= at <= n,
            forall|m: int| 1 <= m < at ==> email@[m] != '@',
        decreases n - at,
    {
        at += 1;
    }
    if at >= n {
        assert(forall|i: int, j: int| !email_split_at(email@, i, j));
        return false;
    }

    let mut j: usize = at;
    while j < n
        invariant
            n == email@.len(),
            forall|m: int| 0 <= m < n ==> !email_whitespace(#[trigger] email@[m]),
            1 <= at < n,
            email@[at as int] == '@',
            forall|m: int| 1 <= m < at ==> email@[m] != '@',
            at <= j <= n,
            forall|m: int| at <= m < j ==> !email_split_at(email@, at as int, m),
        decreases n - j,
    {
        if j - at >= 2 && j < n - 1 && n - 1 - j <= 64 && email.get_char(j) == '.' {
            assert(email_split_at(email@, at as int, j as int));
            return true;
        }
        assert(!email_split_at(email@, at as int, j as int));
        j += 1;
    }

    // No dot worked with the first eligible `@`; show no later `@` helps.
    assert forall|i: int, j: int| !email_split_at(email@, i, j) by {
        if email_split_at(email@, i, j) {
            assert(at <= i);
            assert(email_split_at(email@, at as int, j));
        }
    };
    false
}

/// The address of a user's mailbox.
#[derive(Debug)]
pub struct Email {
    text: String,
}

impl View for Email {
    type V = Seq<char>;

    closed spec fn view(&self) -> Seq<char> {
        self.text@
    }
}

/// Why a candidate address was rejected.
#[derive(Clone, Copy, Debug, PartialEq, Eq, Structural)]
pub enum EmailError {
    Invalid,
}

impl UserFacingError for EmailError {
    open spec fn spec_message(&self) -> Seq<char> {
        match self {
            EmailError::Invalid => "Email is not valid. Format: your_name@example.com"@,
        }
    }

    fn formatted_error(&self) -> (r: &'static str)
        ensures
            r@ == self.spec_message(),
    {
        match self {
            EmailError::Invalid => "Email is not valid. Format: your_name@example.com",
        }
    }
}

impl Email {
    #[verifier::type_invariant]
    spec fn type_inv(&self) -> bool {
        email_valid(self.text@)
    }

    /// Validate `text` as an address.
    pub fn new(text: String) -> (r: Result<Self, EmailError>)
        ensures
            match r {
                Ok(e) => e@ == text@ && email_valid(text@),
                Err(e) => !email_valid(text@) && e == EmailError::Invalid,
            },
    {
        if is_valid_email(text.as_str()) {
            Ok(Email { text })
        } else {
            Err(EmailError::Invalid)
        }
    }

    /// The validated text.
    pub fn as_str(&self) -> (r: &str)
        ensures
            r@ == self@,
            email_valid(self@),
    {
        proof {
            use_type_invariant(self);
        }
        self.text.as_str()
    }

    /// Give the text back up.
    pub fn into_inner(self) -> (r: String)
        ensures
            r@ == self@,
            email_valid(self@),
    {
        proof {
            use_type_invariant(&self);
        }
        self.text
    }
}

impl Clone for Email {
    fn clone(&self) -> (r: Self)
        ensures
            r == self,
    {
        proof {
            use_type_invariant(self);
        }
        Email { text: self.text.clone() }
    }
}

} // verus!
