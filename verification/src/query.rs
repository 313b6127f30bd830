//! Row types of the storage layer and the computations on them.
//!
//! The SQL itself runs outside this crate; callers read rows, hand them to
//! the functions here, and write rows back.

use vstd::prelude::*;

pub mod post;
pub mod user;

verus! {

/// What a delete statement found.
#[derive(Clone, Copy, Debug, PartialEq, Eq, Structural)]
pub enum DeleteStatus {
    Deleted,
    NotFound,
}

impl DeleteStatus {
    /// The status for a delete that touched `count` rows.
    pub fn new(count: usize) -> (r: Self)
        ensures
            r == (if count > 0 {
                DeleteStatus::Deleted
            } else {
                DeleteStatus::NotFound
            }),
    {
        if count > 0 {
            DeleteStatus::Deleted
        } else {
            DeleteStatus::NotFound
        }
    }
}

/// Whether a counting query counted exactly one row.
pub fn is_one(n: Option<i64>) -> (r: bool)
    ensures
        r == (n matches Some(k) && k == 1),
{
    match n {
        Some(k) => k == 1,
        None => false,
    }
}

} // verus!
