//! Requests and answers for working with posts, and the content they carry.

use crate::domain::ids::{ImageId, PollChoiceId, PostId, UserId};
use crate::domain::post::{Caption, Headline, Message, PollChoiceDescription, PollHeadline};
use crate::endpoint::user::PublicUserProfile;
use crate::endpoint::Endpoint;
use vstd::prelude::*;

verus! {

/// A chat post: an optional headline over a message.
#[derive(Clone, Debug)]
pub struct Chat {
    pub headline: Option<Headline>,
    pub message: Message,
}

/// Where an image post's picture lives: sent in by the client as a data
/// URL, stored under an identifier, served back under a URL.
#[derive(Clone, Debug)]
pub enum ImageKind {
    DataUrl(String),
    Id(ImageId),
    Url(String),
}

/// An image post: a picture with an optional caption.
#[derive(Clone, Debug)]
pub struct Image {
    pub kind: ImageKind,
    pub caption: Option<Caption>,
}

/// One answer offered by a poll, with its current number of votes.
#[derive(Clone, Debug)]
pub struct PollChoice {
    pub id: PollChoiceId,
    pub num_votes: i64,
    pub description: PollChoiceDescription,
}

/// A poll post: a headline over the offered answers, and the answer the
/// reading user has voted for, if any.
#[derive(Clone, Debug)]
pub struct Poll {
    pub headline: PollHeadline,
    pub choices: Vec<PollChoice>,
    pub voted: Option<PollChoiceId>,
}

/// What a post carries.
#[derive(Clone, Debug)]
pub enum Content {
    Chat(Chat),
    Image(Image),
    Poll(Poll),
}

impl From<Chat> for Content {
    fn from(value: Chat) -> Self {
        Content::Chat(value)
    }
}

impl vstd::std_specs::convert::FromSpecImpl<Chat> for Content {
    open spec fn obeys_from_spec() -> bool {
        true
    }

    open spec fn from_spec(value: Chat) -> Self {
        Content::Chat(value)
    }
}

impl From<Image> for Content {
    fn from(value: Image) -> Self {
        Content::Image(value)
    }
}

impl vstd::std_specs::convert::FromSpecImpl<Image> for Content {
    open spec fn obeys_from_spec() -> bool {
        true
    }

    open spec fn from_spec(value: Image) -> Self {
        Content::Image(value)
    }
}

impl From<Poll> for Content {
    fn from(value: Poll) -> Self {
        Content::Poll(value)
    }
}

impl vstd::std_specs::convert::FromSpecImpl<Poll> for Content {
    open spec fn obeys_from_spec() -> bool {
        true
    }

    open spec fn from_spec(value: Poll) -> Self {
        Content::Poll(value)
    }
}

/// The options a new post is made with. The posting time is in seconds
/// since the Unix epoch.
#[derive(Clone, Debug)]
pub struct NewPostOptions {
    pub reply_to: Option<PostId>,
    pub direct_message_to: Option<UserId>,
    pub time_posted: i64,
}

impl Default for NewPostOptions {
    /// No reply, no direct message, posted now.
    fn default() -> (r: Self)
        ensures
            r.reply_to is None,
            r.direct_message_to is None,
    {
        NewPostOptions {
            reply_to: None,
            direct_message_to: None,
            time_posted: crate::clock::now_utc_seconds(),
        }
    }
}

/// The reading user's reaction to a post.
#[derive(Clone, Copy, Debug, PartialEq, Eq, Structural)]
pub enum LikeStatus {
    Dislike,
    Like,
    NoReaction,
}

/// A post as shown to a reader, with everything the page needs.
#[derive(Clone, Debug)]
pub struct PublicPost {
    pub id: PostId,
    pub by_user: PublicUserProfile,
    pub content: Content,
    pub time_posted: i64,
    pub reply_to: Option<(crate::domain::user::Username, UserId, PostId)>,
    pub like_status: LikeStatus,
    pub bookmarked: bool,
    pub boosted: bool,
    pub likes: i64,
    pub dislikes: i64,
    pub boosts: i64,
}

/// Whether a bookmark is being set or removed.
#[derive(Clone, Copy, Debug, PartialEq, Eq, Structural)]
pub enum BookmarkAction {
    Add,
    Remove,
}

impl From<BookmarkAction> for bool {
    fn from(value: BookmarkAction) -> Self {
        match value {
            BookmarkAction::Add => true,
            BookmarkAction::Remove => false,
        }
    }
}

impl vstd::std_specs::convert::FromSpecImpl<BookmarkAction> for bool {
    open spec fn obeys_from_spec() -> bool {
        true
    }

    open spec fn from_spec(value: BookmarkAction) -> Self {
        value is Add
    }
}

/// Whether a boost is being set or removed.
#[derive(Clone, Copy, Debug, PartialEq, Eq, Structural)]
pub enum BoostAction {
    Add,
    Remove,
}

impl From<BoostAction> for bool {
    fn from(value: BoostAction) -> Self {
        match value {
            BoostAction::Add => true,
            BoostAction::Remove => false,
        }
    }
}

impl vstd::std_specs::convert::FromSpecImpl<BoostAction> for bool {
    open spec fn obeys_from_spec() -> bool {
        true
    }

    open spec fn from_spec(value: BoostAction) -> Self {
        value is Add
    }
}

/// Whether a poll vote was counted or had been cast before.
#[derive(Clone, Copy, Debug, PartialEq, Eq, Structural)]
pub enum VoteCast {
    Yes,
    AlreadyVoted,
}

/// Make a new post.
#[derive(Clone, Debug)]
pub struct NewPost {
    pub content: Content,
    pub options: NewPostOptions,
}

impl Endpoint for NewPost {
    open spec fn spec_url(&self) -> Seq<char> {
        "/post/new"@
    }

    fn url(&self) -> (r: &'static str) {
        "/post/new"
    }
}

/// The answer to `NewPost`.
#[derive(Clone, Debug)]
pub struct NewPostOk {
    pub post_id: PostId,
}

/// Fetch the posts trending now.
#[derive(Clone, Debug)]
pub struct TrendingPosts;

impl Endpoint for TrendingPosts {
    open spec fn spec_url(&self) -> Seq<char> {
        "/posts/trending"@
    }

    fn url(&self) -> (r: &'static str) {
        "/posts/trending"
    }
}

/// The answer to `TrendingPosts`.
#[derive(Clone, Debug)]
pub struct TrendingPostsOk {
    pub posts: Vec<PublicPost>,
}

/// Fetch the posts of the followed users.
#[derive(Clone, Debug)]
pub struct HomePosts;

impl Endpoint for HomePosts {
    open spec fn spec_url(&self) -> Seq<char> {
        "/posts/home"@
    }

    fn url(&self) -> (r: &'static str) {
        "/posts/home"
    }
}

/// The answer to `HomePosts`.
#[derive(Clone, Debug)]
pub struct HomePostsOk {
    pub posts: Vec<PublicPost>,
}

/// Fetch the posts the user has liked.
#[derive(Clone, Debug)]
pub struct LikedPosts;

impl Endpoint for LikedPosts {
    open spec fn spec_url(&self) -> Seq<char> {
        "/posts/liked"@
    }

    fn url(&self) -> (r: &'static str) {
        "/posts/liked"
    }
}

/// The answer to `LikedPosts`.
#[derive(Clone, Debug)]
pub struct LikedPostsOk {
    pub posts: Vec<PublicPost>,
}

/// Fetch the posts the user has bookmarked.
#[derive(Clone, Debug)]
pub struct BookmarkedPosts;

impl Endpoint for BookmarkedPosts {
    open spec fn spec_url(&self) -> Seq<char> {
        "/posts/bookmarked"@
    }

    fn url(&self) -> (r: &'static str) {
        "/posts/bookmarked"
    }
}

/// The answer to `BookmarkedPosts`.
#[derive(Clone, Debug)]
pub struct BookmarkedPostsOk {
    pub posts: Vec<PublicPost>,
}

/// Set or remove a bookmark on a post.
#[derive(Clone, Debug)]
pub struct Bookmark {
    pub post_id: PostId,
    pub action: BookmarkAction,
}

impl Endpoint for Bookmark {
    open spec fn spec_url(&self) -> Seq<char> {
        "/post/bookmark"@
    }

    fn url(&self) -> (r: &'static str) {
        "/post/bookmark"
    }
}

/// The answer to `Bookmark`: the action that was applied.
#[derive(Clone, Debug)]
pub struct BookmarkOk {
    pub status: BookmarkAction,
}

/// Set or remove a boost on a post.
#[derive(Clone, Debug)]
pub struct Boost {
    pub post_id: PostId,
    pub action: BoostAction,
}

impl Endpoint for Boost {
    open spec fn spec_url(&self) -> Seq<char> {
        "/post/boost"@
    }

    fn url(&self) -> (r: &'static str) {
        "/post/boost"
    }
}

/// The answer to `Boost`: the action that was applied.
#[derive(Clone, Debug)]
pub struct BoostOk {
    pub status: BoostAction,
}

/// Vote for one answer of a poll.
#[derive(Clone, Debug)]
pub struct Vote {
    pub post_id: PostId,
    pub choice_id: PollChoiceId,
}

impl Endpoint for Vote {
    open spec fn spec_url(&self) -> Seq<char> {
        "/post/vote"@
    }

    fn url(&self) -> (r: &'static str) {
        "/post/vote"
    }
}

/// The answer to `Vote`.
#[derive(Clone, Debug)]
pub struct VoteOk {
    pub cast: VoteCast,
}

/// React to a post: like, dislike, or withdraw the reaction.
#[derive(Clone, Debug)]
pub struct React {
    pub post_id: PostId,
    pub like_status: LikeStatus,
}

impl Endpoint for React {
    open spec fn spec_url(&self) -> Seq<char> {
        "/post/react"@
    }

    fn url(&self) -> (r: &'static str) {
        "/post/react"
    }
}

/// The answer to `React`: the reaction now stored and the new totals.
#[derive(Clone, Debug)]
pub struct ReactOk {
    pub like_status: LikeStatus,
    pub likes: i64,
    pub dislikes: i64,
}

} // verus!
