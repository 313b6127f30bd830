//! The kinds of button a form offers.

use vstd::prelude::*;

verus! {

/// Whether a button submits its form or only runs its handler.
#[derive(Clone, Copy, Debug, PartialEq, Eq, Structural)]
pub enum BtnTypes {
    Button,
    Submit,
}

impl BtnTypes {
    /// The HTML `type` attribute this button renders with.
    pub fn into_type(&self) -> (r: &'static str)
        ensures
            r@ == (match self {
                BtnTypes::Button => "button"@,
                BtnTypes::Submit => "submit"@,
            }),
    {
        match self {
            BtnTypes::Button => "button",
            BtnTypes::Submit => "submit",
        }
    }
}

} // verus!
