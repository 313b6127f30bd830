//! The state the front end keeps: notifications, stored posts and forms.

use uchat::components::keyed_notification_box::KeyedNotifications;
use uchat::components::local_profile::LocalProfile;
use uchat::components::post::PostManager;
use uchat::domain::ids::{PostId, UserId};
use uchat::domain::post::Message;
use uchat::domain::user::Username;
use uchat::endpoint::post::{Chat, Content, LikeStatus, PublicPost};
use uchat::endpoint::user::PublicUserProfile;
use uchat::endpoint::Update;
use uchat::components::button::BtnTypes;
use uchat::components::post::{bookmark_action_for, boost_action_for, toggle_like_status};
use uchat::endpoint::post::{BookmarkAction, BoostAction};
use uchat::page::edit_profile::PreviewImageData;

fn sample_post(id: u128) -> PublicPost {
    PublicPost {
        id: PostId::from_u128(id),
        by_user: PublicUserProfile {
            id: UserId::from_u128(100 + id),
            display_name: None,
            handle: format!("user{id}"),
            profile_image: None,
            created_at: 0,
            am_following: false,
        },
        content: Content::Chat(Chat {
            headline: None,
            message: Message::new(format!("post {id}")).unwrap(),
        }),
        time_posted: id as i64,
        reply_to: None,
        like_status: LikeStatus::NoReaction,
        bookmarked: false,
        boosted: false,
        likes: 0,
        dislikes: 0,
        boosts: 0,
    }
}

#[test]
fn notifications_replace_and_clear_by_key() {
    let mut n = KeyedNotifications::new();
    assert!(!n.has_messages());
    n.set("bad-username", "too short");
    n.set("bad-password", "too short too");
    assert!(n.has_messages());
    assert_eq!(n.messages(), vec!["too short".to_string(), "too short too".to_string()]);

    n.set("bad-username", "now too long");
    assert_eq!(n.messages(), vec!["too short too".to_string(), "now too long".to_string()]);

    n.remove("bad-password");
    n.remove("never-set");
    assert_eq!(n.messages(), vec!["now too long".to_string()]);
    n.remove("bad-username");
    assert!(!n.has_messages());
}

#[test]
fn post_manager_keeps_insertion_order() {
    let mut posts = PostManager::new();
    posts.populate(vec![sample_post(1), sample_post(2), sample_post(3)]);
    assert_eq!(posts.len(), 3);
    let ids: Vec<u128> = posts.ids().iter().map(|p| p.as_u128()).collect();
    assert_eq!(ids, vec![1, 2, 3]);
    assert_eq!(posts.get(&PostId::from_u128(2)).unwrap().time_posted, 2);
    assert!(posts.get(&PostId::from_u128(9)).is_none());
}

#[test]
fn post_manager_updates_in_place() {
    let mut posts = PostManager::new();
    posts.populate(vec![sample_post(1), sample_post(2)]);
    let mut changed = sample_post(2);
    changed.likes = 10;
    assert!(posts.update(PostId::from_u128(2), changed));
    assert_eq!(posts.get(&PostId::from_u128(2)).unwrap().likes, 10);
    assert!(!posts.update(PostId::from_u128(9), sample_post(9)));
    let ids: Vec<u128> = posts.ids().iter().map(|p| p.as_u128()).collect();
    assert_eq!(ids, vec![1, 2]);
}

#[test]
fn post_manager_removes_and_clears() {
    let mut posts = PostManager::new();
    posts.populate(vec![sample_post(1), sample_post(2), sample_post(3)]);
    posts.remove(&PostId::from_u128(2));
    let ids: Vec<u128> = posts.ids().iter().map(|p| p.as_u128()).collect();
    assert_eq!(ids, vec![1, 3]);
    posts.remove(&PostId::from_u128(2));
    assert_eq!(posts.len(), 2);
    posts.clear();
    assert_eq!(posts.len(), 0);
}

#[test]
fn login_form_needs_both_fields_and_no_errors() {
    let mut state = uchat::page::login::PageState::new();
    assert!(!state.can_submit());
    state.username = "alice".to_string();
    state.password = "12345678".to_string();
    assert!(state.can_submit());
    state.form_errors.set("bad-password", "too short");
    assert!(!state.can_submit());
    state.form_errors.remove("bad-password");
    assert!(state.can_submit());
}

#[test]
fn register_form_mirrors_the_login_form() {
    let mut state = uchat::page::register::PageState::new();
    assert!(!state.can_submit());
    state.username = "bob".to_string();
    state.password = "12345678".to_string();
    assert!(state.can_submit());
}

#[test]
fn chat_form_needs_a_message_and_a_sane_headline() {
    let mut state = uchat::page::new_post::chat::PageState::default();
    assert!(!state.can_submit());
    state.message = "hello there".to_string();
    assert!(state.can_submit());
    state.headline = "a".repeat(31);
    assert!(!state.can_submit());
    state.headline = "short".to_string();
    assert!(state.can_submit());
}

#[test]
fn image_form_needs_an_image() {
    let mut state = uchat::page::new_post::image::PageState::default();
    assert!(!state.can_submit());
    state.image = Some("data:image/png;base64,AAAA".to_string());
    assert!(state.can_submit());
    state.caption = "c".repeat(61);
    assert!(!state.can_submit());
    state.caption = "a caption".to_string();
    assert!(state.can_submit());
}

#[test]
fn poll_form_validates_headline_and_choices() {
    let mut state = uchat::page::new_post::poll::PageState::new();
    assert_eq!(state.poll_choices.len(), 2);
    assert!(!state.can_submit());
    state.headline = "favourite drink".to_string();
    assert!(!state.can_submit());
    state.replace_choice(0, "tea".to_string());
    state.replace_choice(1, "coffee".to_string());
    assert!(state.can_submit());
}

#[test]
fn poll_choices_keep_their_key_order() {
    let mut state = uchat::page::new_post::poll::PageState::new();
    state.replace_choice(0, "tea".to_string());
    state.replace_choice(1, "coffee".to_string());
    state.push_choice("water".to_string());
    assert_eq!(state.next_id, 3);
    let keys: Vec<usize> = state.poll_choices.iter().map(|c| c.0).collect();
    assert_eq!(keys, vec![0, 1, 2]);
    state.remove_choice(1);
    let keys: Vec<usize> = state.poll_choices.iter().map(|c| c.0).collect();
    assert_eq!(keys, vec![0, 2]);
    // Replacing a removed key slots it back in order.
    state.replace_choice(1, "juice".to_string());
    let keys: Vec<usize> = state.poll_choices.iter().map(|c| c.0).collect();
    assert_eq!(keys, vec![0, 1, 2]);
    assert_eq!(state.poll_choices[1].1, "juice");
}

#[test]
fn profile_form_builds_its_update_request() {
    let mut state = uchat::page::edit_profile::PageState::default();
    state.display_name = "New Name".to_string();
    state.password = "12345678".to_string();
    state.profile_image = Some(PreviewImageData::DataUrl("data:x".to_string()));
    let request = state.update_request();
    assert!(matches!(request.display_name, Update::Change(ref v) if v == "New Name"));
    assert!(matches!(request.email, Update::SetNull));
    assert!(matches!(request.password, Update::Change(_)));
    assert!(matches!(request.profile_image, Update::Change(ref v) if v == "data:x"));

    state.password = String::new();
    state.profile_image = Some(PreviewImageData::Remote("http://h/img".to_string()));
    let request = state.update_request();
    assert!(matches!(request.password, Update::NoChange));
    assert!(matches!(request.profile_image, Update::NoChange));

    state.profile_image = None;
    let request = state.update_request();
    assert!(matches!(request.profile_image, Update::SetNull));
}

#[test]
fn password_mismatch_is_noted_and_cleared() {
    let mut state = uchat::page::edit_profile::PageState::default();
    state.password = "12345678".to_string();
    state.password_confirm = "1234567".to_string();
    state.check_password_mismatch();
    assert_eq!(state.form_errors.messages(), vec!["Passwords must match".to_string()]);
    state.password_confirm = "12345678".to_string();
    state.check_password_mismatch();
    assert!(!state.form_errors.has_messages());
}

#[test]
fn local_profile_starts_empty() {
    let profile = LocalProfile::default();
    assert!(profile.image.is_none());
    assert!(profile.user_id.is_none());
    let _ = Username::new("unused".to_string()).unwrap();
}

#[test]
fn action_bar_toggles() {
    assert_eq!(
        toggle_like_status(LikeStatus::Like, LikeStatus::Like),
        LikeStatus::NoReaction
    );
    assert_eq!(toggle_like_status(LikeStatus::Dislike, LikeStatus::Like), LikeStatus::Like);
    assert_eq!(
        toggle_like_status(LikeStatus::NoReaction, LikeStatus::Dislike),
        LikeStatus::Dislike
    );
    assert_eq!(bookmark_action_for(true), BookmarkAction::Remove);
    assert_eq!(bookmark_action_for(false), BookmarkAction::Add);
    assert_eq!(boost_action_for(true), BoostAction::Remove);
    assert_eq!(boost_action_for(false), BoostAction::Add);
}

#[test]
fn buttons_render_their_type() {
    assert_eq!(BtnTypes::Button.into_type(), "button");
    assert_eq!(BtnTypes::Submit.into_type(), "submit");
}

#[test]
fn composers_build_their_content() {
    let mut chat = uchat::page::new_post::chat::PageState::default();
    chat.message = "hello".to_string();
    let built = chat.build_chat();
    assert_eq!(built.message.as_str(), "hello");
    assert!(built.headline.is_none());
    chat.headline = "news".to_string();
    assert_eq!(chat.build_chat().headline.unwrap().as_str(), "news");

    let mut image = uchat::page::new_post::image::PageState::default();
    image.image = Some("data:image/png;base64,AAAA".to_string());
    image.caption = "look".to_string();
    let built = image.build_image();
    assert!(
        matches!(built.kind, uchat::endpoint::post::ImageKind::DataUrl(ref d) if d == "data:image/png;base64,AAAA")
    );
    assert_eq!(built.caption.unwrap().as_str(), "look");

    let mut poll = uchat::page::new_post::poll::PageState::new();
    poll.headline = "favourite".to_string();
    poll.replace_choice(0, "tea".to_string());
    poll.replace_choice(1, "coffee".to_string());
    let built = poll.build_poll();
    assert_eq!(built.headline.as_str(), "favourite");
    assert_eq!(built.choices.len(), 2);
    assert_eq!(built.choices[0].description.as_str(), "tea");
    assert_eq!(built.choices[0].num_votes, 0);
    assert!(built.voted.is_none());
    assert!(built.choices[0].id.as_u128() != built.choices[1].id.as_u128());
}

#[test]
fn login_keystrokes_note_their_validation() {
    let mut state = uchat::page::login::PageState::new();
    state.note_username("ab".to_string());
    assert_eq!(
        state.form_errors.messages(),
        vec!["User name must be at least 3 characters".to_string()]
    );
    state.note_username("alice".to_string());
    assert!(!state.form_errors.has_messages());
    state.note_password("short".to_string());
    assert_eq!(
        state.form_errors.messages(),
        vec!["Password must be at least 8 characters".to_string()]
    );
    state.note_password("long enough".to_string());
    assert!(state.can_submit());
}

#[test]
fn register_keystrokes_note_their_validation() {
    let mut state = uchat::page::register::PageState::new();
    state.note_username(String::new());
    assert_eq!(state.form_errors.messages(), vec!["User name cannot be empty".to_string()]);
    state.note_username("bob".to_string());
    state.note_password("12345678".to_string());
    assert!(state.can_submit());
}
