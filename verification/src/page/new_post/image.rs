//! State of the image post composer.

use crate::domain::post::{caption_valid, Caption};
use crate::endpoint::post::{Image, ImageKind};
use vstd::prelude::*;

verus! {

/// What the image composer holds: an optional caption and the loaded
/// image's data URL, once one was picked.
#[derive(Clone, Debug)]
pub struct PageState {
    pub caption: String,
    pub image: Option<String>,
}

impl Default for PageState {
    /// An empty composer.
    fn default() -> (r: Self)
        ensures
            r.caption@.len() == 0,
            r.image is None,
    {
        PageState { caption: String::new(), image: None }
    }
}

impl PageState {
    /// The post may be submitted when an image was picked and the caption,
    /// if one was given, validates.
    pub fn can_submit(&self) -> (r: bool)
        ensures
            r == ((self.caption@.len() == 0 || caption_valid(self.caption@))
                && self.image is Some),
    {
        if !self.caption.as_str().is_empty() && Caption::new(self.caption.clone()).is_err() {
            return false;
        }
        if self.image.is_none() {
            return false;
        }
        true
    }

    /// The image content a filled-in composer submits: the loaded data URL
    /// and the caption, if one was given.
    pub fn build_image(&self) -> (r: Image)
        requires
            self.image is Some,
            self.caption@.len() == 0 || caption_valid(self.caption@),
        ensures
            (r.kind matches ImageKind::DataUrl(d) && (self.image matches Some(img) && d@ == img@)),
            (if self.caption@.len() == 0 {
                r.caption is None
            } else {
                r.caption matches Some(c) && c@ == self.caption@
            }),
    {
        let data = match &self.image {
            Some(img) => img.clone(),
            None => unreached(),
        };
        let caption = if self.caption.as_str().is_empty() {
            None
        } else {
            match Caption::new(self.caption.clone()) {
                Ok(c) => Some(c),
                Err(_) => unreached(),
            }
        };
        Image { kind: ImageKind::DataUrl(data), caption }
    }
}

} // verus!
