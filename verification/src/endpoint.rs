//! Request and response types shared by the server and the front end.

use vstd::prelude::*;

pub mod app_url;
pub mod post;
pub mod user;

verus! {

/// A request type of the API, tied to the fixed URL it is posted to.
pub trait Endpoint {
    /// The URL, as a spec-level sequence.
    spec fn spec_url(&self) -> Seq<char>;

    /// The URL this request is posted to.
    fn url(&self) -> (r: &'static str)
        ensures
            r@ == self.spec_url(),
    ;
}

/// The answer sent for a failed request: the message shown to the caller.
#[derive(Debug)]
pub struct RequestFailed {
    pub msg: String,
}

/// A requested change to an optional stored field: set a new value, leave
/// the field alone, or clear it.
#[derive(Clone, Debug)]
pub enum Update<T> {
    Change(T),
    NoChange,
    SetNull,
}

impl<T> Update<T> {
    /// The new value, if one was requested; clearing counts as no value.
    pub fn into_option(self) -> (r: Option<T>)
        ensures
            r == (match self {
                Update::Change(data) => Some(data),
                Update::NoChange | Update::SetNull => None::<T>,
            }),
    {
        match self {
            Update::Change(data) => Some(data),
            Update::NoChange | Update::SetNull => None,
        }
    }

    /// The doubled-option form the storage layer expects: `None` leaves the
    /// column alone, `Some(None)` clears it, `Some(Some(v))` stores `v`.
    pub fn into_nullable(self) -> (r: Option<Option<T>>)
        ensures
            r == (match self {
                Update::Change(data) => Some(Some(data)),
                Update::NoChange => None::<Option<T>>,
                Update::SetNull => Some(None::<T>),
            }),
    {
        match self {
            Update::Change(data) => Some(Some(data)),
            Update::NoChange => None,
            Update::SetNull => Some(None),
        }
    }
}

} // verus!
