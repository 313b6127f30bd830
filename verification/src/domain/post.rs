//! Validated values describing a post: headlines, bodies and captions.
//!
//! Every type here requires a non-empty text with a bound on its character
//! count; only the bound and the messages differ.

use crate::domain::UserFacingError;
use vstd::prelude::*;

verus! {

/// A headline is valid when it is non-empty and has at most thirty
/// characters.
pub open spec fn headline_valid(s: Seq<char>) -> bool {
    1 <= s.len() <= 30
}

/// The headline over a chat post.
#[derive(Debug)]
pub struct Headline {
    text: String,
}

impl View for Headline {
    type V = Seq<char>;

    closed spec fn view(&self) -> Seq<char> {
        self.text@
    }
}

/// Why a candidate headline was rejected.
#[derive(Clone, Copy, Debug, PartialEq, Eq, Structural)]
pub enum HeadlineError {
    Missing,
    TooLong,
}

impl UserFacingError for HeadlineError {
    open spec fn spec_message(&self) -> Seq<char> {
        match self {
            HeadlineError::Missing => "Headline cannot be empty"@,
            HeadlineError::TooLong => "Headline must be at most 30 characters"@,
        }
    }

    fn formatted_error(&self) -> (r: &'static str)
        ensures
            r@ == self.spec_message(),
    {
        match self {
            HeadlineError::Missing => "Headline cannot be empty",
            HeadlineError::TooLong => "Headline must be at most 30 characters",
        }
    }
}

impl Headline {
    /// The most characters a headline may have.
    pub const MAX_CHARS: usize = 30;

    #[verifier::type_invariant]
    spec fn type_inv(&self) -> bool {
        headline_valid(self.text@)
    }

    /// Validate `text` as a headline.
    pub fn new(text: String) -> (r: Result<Self, HeadlineError>)
        ensures
            match r {
                Ok(h) => h@ == text@ && headline_valid(text@),
                Err(e) => !headline_valid(text@) && e == (if text@.len() == 0 {
                    HeadlineError::Missing
                } else {
                    HeadlineError::TooLong
                }),
            },
    {
        let n = text.as_str().unicode_len();
        if n == 0 {
            Err(HeadlineError::Missing)
        } else if n > 30 {
            Err(HeadlineError::TooLong)
        } else {
            Ok(Headline { text })
        }
    }

    /// The validated text.
    pub fn as_str(&self) -> (r: &str)
        ensures
            r@ == self@,
            headline_valid(self@),
    {
        proof {
            use_type_invariant(self);
        }
        self.text.as_str()
    }

    /// Give the text back up.
    pub fn into_inner(self) -> (r: String)
        ensures
            r@ == self@,
            headline_valid(self@),
    {
        proof {
            use_type_invariant(&self);
        }
        self.text
    }
}

impl Clone for Headline {
    fn clone(&self) -> (r: Self)
        ensures
            r == self,
    {
        proof {
            use_type_invariant(self);
        }
        Headline { text: self.text.clone() }
    }
}

/// A poll headline is valid when it is non-empty and has at most fifty
/// characters.
pub open spec fn poll_headline_valid(s: Seq<char>) -> bool {
    1 <= s.len() <= 50
}

/// The headline over a poll post.
#[derive(Debug)]
pub struct PollHeadline {
    text: String,
}

impl View for PollHeadline {
    type V = Seq<char>;

    closed spec fn view(&self) -> Seq<char> {
        self.text@
    }
}

/// Why a candidate poll headline was rejected.
#[derive(Clone, Copy, Debug, PartialEq, Eq, Structural)]
pub enum PollHeadlineError {
    Missing,
    TooLong,
}

impl UserFacingError for PollHeadlineError {
    open spec fn spec_message(&self) -> Seq<char> {
        match self {
            PollHeadlineError::Missing => "Headline cannot be empty"@,
            PollHeadlineError::TooLong => "Headline must be at most 50 characters"@,
        }
    }

    fn formatted_error(&self) -> (r: &'static str)
        ensures
            r@ == self.spec_message(),
    {
        match self {
            PollHeadlineError::Missing => "Headline cannot be empty",
            PollHeadlineError::TooLong => "Headline must be at most 50 characters",
        }
    }
}

impl PollHeadline {
    /// The most characters a poll headline may have.
    pub const MAX_CHARS: usize = 50;

    #[verifier::type_invariant]
    spec fn type_inv(&self) -> bool {
        poll_headline_valid(self.text@)
    }

    /// Validate `text` as a poll headline.
    pub fn new(text: String) -> (r: Result<Self, PollHeadlineError>)
        ensures
            match r {
                Ok(h) => h@ == text@ && poll_headline_valid(text@),
                Err(e) => !poll_headline_valid(text@) && e == (if text@.len() == 0 {
                    PollHeadlineError::Missing
                } else {
                    PollHeadlineError::TooLong
                }),
            },
    {
        let n = text.as_str().unicode_len();
        if n == 0 {
            Err(PollHeadlineError::Missing)
        } else if n > 50 {
            Err(PollHeadlineError::TooLong)
        } else {
            Ok(PollHeadline { text })
        }
    }

    /// The validated text.
    pub fn as_str(&self) -> (r: &str)
        ensures
            r@ == self@,
            poll_headline_valid(self@),
    {
        proof {
            use_type_invariant(self);
        }
        self.text.as_str()
    }

    /// Give the text back up.
    pub fn into_inner(self) -> (r: String)
        ensures
            r@ == self@,
            poll_headline_valid(self@),
    {
        proof {
            use_type_invariant(&self);
        }
        self.text
    }
}

impl Clone for PollHeadline {
    fn clone(&self) -> (r: Self)
        ensures
            r == self,
    {
        proof {
            use_type_invariant(self);
        }
        PollHeadline { text: self.text.clone() }
    }
}

/// A message is valid when it is non-empty and has at most one hundred
/// characters.
pub open spec fn message_valid(s: Seq<char>) -> bool {
    1 <= s.len() <= 100
}

/// The body of a chat post.
#[derive(Debug)]
pub struct Message {
    text: String,
}

impl View for Message {
    type V = Seq<char>;

    closed spec fn view(&self) -> Seq<char> {
        self.text@
    }
}

/// Why a candidate message was rejected.
#[derive(Clone, Copy, Debug, PartialEq, Eq, Structural)]
pub enum MessageError {
    Missing,
    TooLong,
}

impl UserFacingError for MessageError {
    open spec fn spec_message(&self) -> Seq<char> {
        match self {
            MessageError::Missing => "Message cannot be empty"@,
            MessageError::TooLong => "Message must be at most 100 characters"@,
        }
    }

    fn formatted_error(&self) -> (r: &'static str)
        ensures
            r@ == self.spec_message(),
    {
        match self {
            MessageError::Missing => "Message cannot be empty",
            MessageError::TooLong => "Message must be at most 100 characters",
        }
    }
}

impl Message {
    /// The most characters a message may have.
    pub const MAX_CHARS: usize = 100;

    #[verifier::type_invariant]
    spec fn type_inv(&self) -> bool {
        message_valid(self.text@)
    }

    /// Validate `text` as a message.
    pub fn new(text: String) -> (r: Result<Self, MessageError>)
        ensures
            match r {
                Ok(m) => m@ == text@ && message_valid(text@),
                Err(e) => !message_valid(text@) && e == (if text@.len() == 0 {
                    MessageError::Missing
                } else {
                    MessageError::TooLong
                }),
            },
    {
        let n = text.as_str().unicode_len();
        if n == 0 {
            Err(MessageError::Missing)
        } else if n > 100 {
            Err(MessageError::TooLong)
        } else {
            Ok(Message { text })
        }
    }

    /// The validated text.
    pub fn as_str(&self) -> (r: &str)
        ensures
            r@ == self@,
            message_valid(self@),
    {
        proof {
            use_type_invariant(self);
        }
        self.text.as_str()
    }

    /// Give the text back up.
    pub fn into_inner(self) -> (r: String)
        ensures
            r@ == self@,
            message_valid(self@),
    {
        proof {
            use_type_invariant(&self);
        }
        self.text
    }
}

impl Clone for Message {
    fn clone(&self) -> (r: Self)
        ensures
            r == self,
    {
        proof {
            use_type_invariant(self);
        }
        Message { text: self.text.clone() }
    }
}

/// A caption is valid when it is non-empty and has at most sixty characters.
pub open spec fn caption_valid(s: Seq<char>) -> bool {
    1 <= s.len() <= 60
}

/// The caption under an image post.
#[derive(Debug)]
pub struct Caption {
    text: String,
}

impl View for Caption {
    type V = Seq<char>;

    closed spec fn view(&self) -> Seq<char> {
        self.text@
    }
}

/// Why a candidate caption was rejected.
#[derive(Clone, Copy, Debug, PartialEq, Eq, Structural)]
pub enum CaptionError {
    Missing,
    TooLong,
}

impl UserFacingError for CaptionError {
    open spec fn spec_message(&self) -> Seq<char> {
        match self {
            CaptionError::Missing => "Caption cannot be empty"@,
            CaptionError::TooLong => "Caption must be at most 60 characters"@,
        }
    }

    fn formatted_error(&self) -> (r: &'static str)
        ensures
            r@ == self.spec_message(),
    {
        match self {
            CaptionError::Missing => "Caption cannot be empty",
            CaptionError::TooLong => "Caption must be at most 60 characters",
        }
    }
}

impl Caption {
    /// The most characters a caption may have.
    pub const MAX_CHARS: usize = 60;

    #[verifier::type_invariant]
    spec fn type_inv(&self) -> bool {
        caption_valid(self.text@)
    }

    /// Validate `text` as a caption.
    pub fn new(text: String) -> (r: Result<Self, CaptionError>)
        ensures
            match r {
                Ok(c) => c@ == text@ && caption_valid(text@),
                Err(e) => !caption_valid(text@) && e == (if text@.len() == 0 {
                    CaptionError::Missing
                } else {
                    CaptionError::TooLong
                }),
            },
    {
        let n = text.as_str().unicode_len();
        if n == 0 {
            Err(CaptionError::Missing)
        } else if n > 60 {
            Err(CaptionError::TooLong)
        } else {
            Ok(Caption { text })
        }
    }

    /// The validated text.
    pub fn as_str(&self) -> (r: &str)
        ensures
            r@ == self@,
            caption_valid(self@),
    {
        proof {
            use_type_invariant(self);
        }
        self.text.as_str()
    }

    /// Give the text back up.
    pub fn into_inner(self) -> (r: String)
        ensures
            r@ == self@,
            caption_valid(self@),
    {
        proof {
            use_type_invariant(&self);
        }
        self.text
    }
}

impl Clone for Caption {
    fn clone(&self) -> (r: Self)
        ensures
            r == self,
    {
        proof {
            use_type_invariant(self);
        }
        Caption { text: self.text.clone() }
    }
}

/// A poll choice description is valid when it is non-empty and has at most
/// eighty characters.
pub open spec fn poll_choice_description_valid(s: Seq<char>) -> bool {
    1 <= s.len() <= 80
}

/// The text of one answer offered by a poll.
#[derive(Debug)]
pub struct PollChoiceDescription {
    text: String,
}

impl View for PollChoiceDescription {
    type V = Seq<char>;

    closed spec fn view(&self) -> Seq<char> {
        self.text@
    }
}

/// Why a candidate poll choice description was rejected.
#[derive(Clone, Copy, Debug, PartialEq, Eq, Structural)]
pub enum PollChoiceDescriptionError {
    Missing,
    TooLong,
}

impl UserFacingError for PollChoiceDescriptionError {
    open spec fn spec_message(&self) -> Seq<char> {
        match self {
            PollChoiceDescriptionError::Missing => "Poll choice cannot be empty"@,
            PollChoiceDescriptionError::TooLong => "Poll choice must be at most 80 characters"@,
        }
    }

    fn formatted_error(&self) -> (r: &'static str)
        ensures
            r@ == self.spec_message(),
    {
        match self {
            PollChoiceDescriptionError::Missing => "Poll choice cannot be empty",
            PollChoiceDescriptionError::TooLong => "Poll choice must be at most 80 characters",
        }
    }
}

impl PollChoiceDescription {
    /// The most characters a poll choice description may have.
    pub const MAX_CHARS: usize = 80;

    #[verifier::type_invariant]
    spec fn type_inv(&self) -> bool {
        poll_choice_description_valid(self.text@)
    }

    /// Validate `text` as a poll choice description.
    pub fn new(text: String) -> (r: Result<Self, PollChoiceDescriptionError>)
        ensures
            match r {
                Ok(d) => d@ == text@ && poll_choice_description_valid(text@),
                Err(e) => !poll_choice_description_valid(text@) && e == (if text@.len() == 0 {
                    PollChoiceDescriptionError::Missing
                } else {
                    PollChoiceDescriptionError::TooLong
                }),
            },
    {
        let n = text.as_str().unicode_len();
        if n == 0 {
            Err(PollChoiceDescriptionError::Missing)
        } else if n > 80 {
            Err(PollChoiceDescriptionError::TooLong)
        } else {
            Ok(PollChoiceDescription { text })
        }
    }

    /// The validated text.
    pub fn as_str(&self) -> (r: &str)
        ensures
            r@ == self@,
            poll_choice_description_valid(self@),
    {
        proof {
            use_type_invariant(self);
        }
        self.text.as_str()
    }

    /// Give the text back up.
    pub fn into_inner(self) -> (r: String)
        ensures
            r@ == self@,
            poll_choice_description_valid(self@),
    {
        proof {
            use_type_invariant(&self);
        }
        self.text
    }
}

impl Clone for PollChoiceDescription {
    fn clone(&self) -> (r: Self)
        ensures
            r == self,
    {
        proof {
            use_type_invariant(self);
        }
        PollChoiceDescription { text: self.text.clone() }
    }
}

} // verus!
