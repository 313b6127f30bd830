//! Validated domain values: names, passwords and post bodies.
//!
//! Each type holds a string that satisfied its validation rule when the
//! value was made; the rule is kept as a type invariant, so every value of
//! one of these types is well formed.

use vstd::prelude::*;

pub mod email;
pub mod ids;
pub mod post;
pub mod user;

verus! {

/// An error that can be shown to the person using the service.
pub trait UserFacingError {
    /// The message shown for this error, as a spec-level sequence.
    spec fn spec_message(&self) -> Seq<char>;

    /// The message shown for this error.
    fn formatted_error(&self) -> (r: &'static str)
        ensures
            r@ == self.spec_message(),
    ;
}

} // verus!
