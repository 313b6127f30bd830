//! State of the chat post composer.

use crate::domain::post::{headline_valid, message_valid, Headline, Message};
use crate::endpoint::post::Chat;
use vstd::prelude::*;

verus! {

/// What the chat composer holds: the message and an optional headline.
#[derive(Clone, Debug)]
pub struct PageState {
    pub message: String,
    pub headline: String,
}

impl Default for PageState {
    /// An empty composer.
    fn default() -> (r: Self)
        ensures
            r.message@.len() == 0,
            r.headline@.len() == 0,
    {
        PageState { message: String::new(), headline: String::new() }
    }
}

impl PageState {
    /// The post may be submitted when the message validates and the
    /// headline, if one was given, validates too.
    pub fn can_submit(&self) -> (r: bool)
        ensures
            r == (message_valid(self.message@) && (self.headline@.len() == 0 || headline_valid(
                self.headline@,
            ))),
    {
        if Message::new(self.message.clone()).is_err() {
            return false;
        }
        if !self.headline.as_str().is_empty() && Headline::new(self.headline.clone()).is_err() {
            return false;
        }
        true
    }

    /// The chat content a filled-in composer submits.
    pub fn build_chat(&self) -> (r: Chat)
        requires
            message_valid(self.message@),
            self.headline@.len() == 0 || headline_valid(self.headline@),
        ensures
            r.message@ == self.message@,
            (if self.headline@.len() == 0 {
                r.headline is None
            } else {
                r.headline matches Some(h) && h@ == self.headline@
            }),
    {
        let headline = if self.headline.as_str().is_empty() {
            None
        } else {
            match Headline::new(self.headline.clone()) {
                Ok(h) => Some(h),
                Err(_) => {
                    proof {
                        assert(false);
                    }
                    None
                },
            }
        };
        let message = match Message::new(self.message.clone()) {
            Ok(m) => m,
            Err(_) => unreached(),
        };
        Chat { headline, message }
    }
}

} // verus!
