//! The tabs of the home page.

use vstd::prelude::*;

verus! {

/// Which feed the home page shows.
#[derive(Clone, Copy, Debug, PartialEq, Eq, Structural)]
pub enum HomePages {
    Home,
    Liked,
    Bookmarked,
}

} // verus!
