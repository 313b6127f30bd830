//! The post composer and its three kinds of post.

use vstd::prelude::*;

pub mod chat;
pub mod image;
pub mod poll;

verus! {

/// Which kind of post the composer offers.
#[derive(Clone, Copy, Debug, PartialEq, Eq, Structural)]
pub enum NewPostPages {
    Chat,
    Image,
    Poll,
}

} // verus!
