//! The endpoint types: URLs, update fields and action flags.

use uchat::domain::ids::{PostId, UserId};
use uchat::domain::user::{Password, Username};
use uchat::endpoint::post::{
    Bookmark, BookmarkAction, Boost, BoostAction, BookmarkedPosts, HomePosts, LikedPosts, React,
    LikeStatus, TrendingPosts, Vote, VoteCast,
};
use uchat::endpoint::user::{
    CreateUser, FollowUser, FollowAction, GetMyProfile, IsFollowing, Login, UpdateProfile,
    ViewProfile,
};
use uchat::endpoint::post::{Chat, Content, NewPostOptions};
use uchat::endpoint::{Endpoint, Update};
use uchat::query::{is_one, DeleteStatus};

#[test]
fn update_into_option_keeps_only_changes() {
    assert_eq!(Update::Change(5).into_option(), Some(5));
    assert_eq!(Update::<i32>::NoChange.into_option(), None);
    assert_eq!(Update::<i32>::SetNull.into_option(), None);
}

#[test]
fn update_into_nullable_distinguishes_clearing() {
    assert_eq!(Update::Change(5).into_nullable(), Some(Some(5)));
    assert_eq!(Update::<i32>::NoChange.into_nullable(), None);
    assert_eq!(Update::<i32>::SetNull.into_nullable(), Some(None));
}

#[test]
fn actions_turn_into_flags() {
    assert!(bool::from(BookmarkAction::Add));
    assert!(!bool::from(BookmarkAction::Remove));
    assert!(bool::from(BoostAction::Add));
    assert!(!bool::from(BoostAction::Remove));
    let added: bool = BookmarkAction::Add.into();
    assert!(added);
}

#[test]
fn public_routes_have_their_urls() {
    let create = CreateUser {
        username: Username::new("alice".to_string()).unwrap(),
        password: Password::new("12345678".to_string()).unwrap(),
    };
    assert_eq!(create.url(), "/account/create");
    let login = Login {
        username: Username::new("alice".to_string()).unwrap(),
        password: Password::new("12345678".to_string()).unwrap(),
    };
    assert_eq!(login.url(), "/account/login");
    assert_eq!(ViewProfile { user_id: UserId::from_u128(1) }.url(), "/profile/view");
}

#[test]
fn authorized_routes_have_their_urls() {
    assert_eq!(TrendingPosts.url(), "/posts/trending");
    assert_eq!(HomePosts.url(), "/posts/home");
    assert_eq!(LikedPosts.url(), "/posts/liked");
    assert_eq!(BookmarkedPosts.url(), "/posts/bookmarked");
    assert_eq!(
        Bookmark { post_id: PostId::from_u128(1), action: BookmarkAction::Add }.url(),
        "/post/bookmark"
    );
    assert_eq!(
        Boost { post_id: PostId::from_u128(1), action: BoostAction::Add }.url(),
        "/post/boost"
    );
    assert_eq!(
        Vote {
            post_id: PostId::from_u128(1),
            choice_id: uchat::domain::ids::PollChoiceId::from_u128(2)
        }
        .url(),
        "/post/vote"
    );
    assert_eq!(
        React { post_id: PostId::from_u128(1), like_status: LikeStatus::Like }.url(),
        "/post/react"
    );
    assert_eq!(GetMyProfile.url(), "/profile/me");
    assert_eq!(
        UpdateProfile {
            display_name: Update::NoChange,
            email: Update::NoChange,
            profile_image: Update::NoChange,
            password: Update::NoChange,
        }
        .url(),
        "/profile/update"
    );
    assert_eq!(IsFollowing { follows: UserId::from_u128(1) }.url(), "/profile/following");
    assert_eq!(
        FollowUser { follows: UserId::from_u128(1), action: FollowAction::Follow }.url(),
        "/user/follow"
    );
}

#[test]
fn vote_outcomes_are_distinct() {
    assert_ne!(VoteCast::Yes, VoteCast::AlreadyVoted);
}

#[test]
fn page_routes_are_fixed() {
    assert_eq!(uchat::page::HOME, "/home");
    assert_eq!(uchat::page::ACCOUNT_LOGIN, "/account/login");
    assert_eq!(uchat::page::ACCOUNT_REGISTER, "/account/register");
    assert_eq!(uchat::page::PROFILE_VIEW, "/profile/view/:id");
}

#[test]
fn post_rows_carry_their_options() {
    let options = NewPostOptions {
        reply_to: Some(PostId::from_u128(7)),
        direct_message_to: None,
        time_posted: 42,
    };
    let content = Content::Chat(Chat {
        headline: None,
        message: uchat::domain::post::Message::new("hi".to_string()).unwrap(),
    });
    let row = uchat::query::post::Post::new(UserId::from_u128(1), content, options);
    assert_eq!(row.user_id, UserId::from_u128(1));
    assert_eq!(row.time_posted, 42);
    assert_eq!(row.reply_to, Some(PostId::from_u128(7)));
    assert!(row.direct_message_to.is_none());

    let defaults = NewPostOptions::default();
    assert!(defaults.reply_to.is_none());
    assert!(defaults.direct_message_to.is_none());
    assert!(defaults.time_posted > 0);
}

#[test]
fn delete_status_counts_rows() {
    assert_eq!(DeleteStatus::new(1), DeleteStatus::Deleted);
    assert_eq!(DeleteStatus::new(0), DeleteStatus::NotFound);
    assert!(is_one(Some(1)));
    assert!(!is_one(Some(2)));
    assert!(!is_one(None));
}
