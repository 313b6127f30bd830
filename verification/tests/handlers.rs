//! The handlers' decision logic on concrete requests.

use uchat::domain::ids::{ImageId, PollChoiceId, PostId, UserId};
use uchat::domain::post::{Message, PollChoiceDescription, PollHeadline};
use uchat::domain::user::Username;
use uchat::endpoint::app_url::domain_and;
use uchat::endpoint::post::{Content, Image, ImageKind, LikeStatus, Poll, PollChoice};
use uchat::endpoint::user::{FollowAction, UpdateProfile};
use uchat::endpoint::Update;
use uchat::error::{ApiErr, ServerErr};
use uchat::handler::parse_img_data_url;
use uchat::handler::post::{leading_choice_ids, store_image_content};
use uchat::handler::post::{
    fill_poll_results, image_kind_to_public, like_status_of, like_status_to_i16, new_reaction,
    react_ok, to_public,
};
use uchat::handler::user::{
    build_create_user_ok, build_login_ok, mark_following, new_session, process_follow,
    process_login, process_registration, profile_id_to_url, to_public as user_to_public,
    update_profile_params,
};
use uchat::query::post::{aggregate_reactions, AggregatePostInfo, Boost, Post, Reaction};
use uchat::query::user::{update_profile_changes, UpdateProfileParams, User};
use uchat::session::SESSION_DURATION_SECONDS;

fn sample_user(id: u128) -> User {
    User {
        id: UserId::from_u128(id),
        email: Some("someone@example.com".to_string()),
        email_confirmed: None,
        password_hash: "hash".to_string(),
        display_name: Some("Some One".to_string()),
        handle: "someone".to_string(),
        created_at: 1_600_000_000,
        profile_image: Some("img-7".to_string()),
    }
}

#[test]
fn data_urls_are_cut_into_data_and_mime() {
    let parsed = parse_img_data_url("data:image/png;base64,AAAA").unwrap();
    assert_eq!(parsed, ("AAAA", "image/png"));
    // Data after the comma is returned whole, even with more commas.
    let parsed = parse_img_data_url("data:text/plain;base64,QU,JD").unwrap();
    assert_eq!(parsed, ("QU,JD", "text/plain"));
}

#[test]
fn malformed_data_urls_are_refused() {
    assert!(parse_img_data_url("no comma here").is_none());
    assert!(parse_img_data_url("image/png;base64,AAAA").is_none());
    assert!(parse_img_data_url("data:image/png,AAAA").is_none());
    assert!(parse_img_data_url("").is_none());
}

#[test]
fn like_status_maps_both_ways() {
    assert_eq!(like_status_to_i16(LikeStatus::Like), 1);
    assert_eq!(like_status_to_i16(LikeStatus::Dislike), -1);
    assert_eq!(like_status_to_i16(LikeStatus::NoReaction), 0);
    assert_eq!(like_status_of(Some(1)), LikeStatus::Like);
    assert_eq!(like_status_of(Some(-1)), LikeStatus::Dislike);
    assert_eq!(like_status_of(Some(0)), LikeStatus::NoReaction);
    assert_eq!(like_status_of(Some(7)), LikeStatus::NoReaction);
    assert_eq!(like_status_of(None), LikeStatus::NoReaction);
    for s in [LikeStatus::Like, LikeStatus::Dislike, LikeStatus::NoReaction] {
        assert_eq!(like_status_of(Some(like_status_to_i16(s))), s);
    }
}

#[test]
fn reactions_aggregate_per_post() {
    let pid = PostId::from_u128(1);
    let other = PostId::from_u128(2);
    let row = |post: PostId, status: i16, user: u128| Reaction {
        user_id: UserId::from_u128(user),
        post_id: post,
        created_at: 0,
        like_status: status,
        reaction: None,
    };
    let reactions = vec![
        row(pid, 1, 1),
        row(pid, 1, 2),
        row(pid, -1, 3),
        row(other, 1, 4),
        row(pid, 0, 5),
    ];
    let boosts = vec![
        Boost { user_id: UserId::from_u128(1), post_id: pid, boosted_at: 0 },
        Boost { user_id: UserId::from_u128(2), post_id: other, boosted_at: 0 },
    ];
    let totals = aggregate_reactions(&reactions, &boosts, pid);
    assert_eq!(totals.likes, 2);
    assert_eq!(totals.dislikes, 1);
    assert_eq!(totals.boosts, 1);
}

#[test]
fn stored_image_ids_become_serving_urls() {
    let id = ImageId::from_u128(3);
    let kind = image_kind_to_public(ImageKind::Id(id), "http://127.0.0.1:8070/");
    match kind {
        ImageKind::Url(u) => assert_eq!(
            u,
            format!("http://127.0.0.1:8070/usercontent/img/{}", id.to_string())
        ),
        _ => panic!("expected a URL"),
    }
    match image_kind_to_public(ImageKind::DataUrl("data:x".to_string()), "b/") {
        ImageKind::DataUrl(d) => assert_eq!(d, "data:x"),
        _ => panic!("data URLs pass through"),
    }
}

#[test]
fn poll_results_fill_the_matching_choices() {
    let c1 = PollChoiceId::from_u128(1);
    let c2 = PollChoiceId::from_u128(2);
    let poll = Poll {
        headline: PollHeadline::new("favourite".to_string()).unwrap(),
        choices: vec![
            PollChoice {
                id: c1,
                num_votes: 0,
                description: PollChoiceDescription::new("tea".to_string()).unwrap(),
            },
            PollChoice {
                id: c2,
                num_votes: 5,
                description: PollChoiceDescription::new("coffee".to_string()).unwrap(),
            },
        ],
        voted: None,
    };
    let filled = fill_poll_results(poll, &vec![(c1, 12), (c1, 13)], Some(c2));
    assert_eq!(filled.choices[0].num_votes, 13);
    assert_eq!(filled.choices[1].num_votes, 5);
    assert_eq!(filled.voted, Some(c2));
    assert_eq!(filled.choices[0].description.as_str(), "tea");
}

#[test]
fn posts_are_assembled_for_readers() {
    let pid = PostId::from_u128(10);
    let author = UserId::from_u128(20);
    let post = Post {
        id: pid,
        user_id: author,
        content: Content::Chat(uchat::endpoint::post::Chat {
            headline: None,
            message: Message::new("hello".to_string()).unwrap(),
        }),
        time_posted: 1_700_000_123,
        direct_message_to: None,
        reply_to: None,
        created_at: 1_700_000_123,
    };
    let profile = user_to_public(sample_user(20), "http://h/");
    let totals = AggregatePostInfo {
        post_id: pid,
        likes: 3,
        dislikes: 1,
        boosts: 2,
    };
    let reply = Some((
        Username::new("original".to_string()).unwrap(),
        UserId::from_u128(30),
        PostId::from_u128(31),
    ));
    let shown = to_public(
        post,
        profile,
        "http://h/",
        &vec![],
        None,
        reply,
        Some(1),
        true,
        false,
        &totals,
    );
    assert_eq!(shown.id, pid);
    assert_eq!(shown.time_posted, 1_700_000_123);
    assert_eq!(shown.like_status, LikeStatus::Like);
    assert!(shown.bookmarked);
    assert!(!shown.boosted);
    assert_eq!(shown.likes, 3);
    assert_eq!(shown.dislikes, 1);
    assert_eq!(shown.boosts, 2);
    assert_eq!(shown.by_user.handle, "someone");
    assert_eq!(shown.by_user.profile_image.as_deref(), Some("http://h/usercontent/img/img-7"));
    assert_eq!(shown.reply_to.as_ref().unwrap().1, UserId::from_u128(30));
    match shown.content {
        Content::Chat(c) => assert_eq!(c.message.as_str(), "hello"),
        _ => panic!("chat content passes through"),
    }
}

#[test]
fn image_posts_get_their_url_rewritten() {
    let pid = PostId::from_u128(11);
    let post = Post {
        id: pid,
        user_id: UserId::from_u128(20),
        content: Content::Image(Image {
            kind: ImageKind::Id(ImageId::from_u128(3)),
            caption: None,
        }),
        time_posted: 0,
        direct_message_to: None,
        reply_to: None,
        created_at: 0,
    };
    let profile = user_to_public(sample_user(20), "http://h/");
    let totals = AggregatePostInfo { post_id: pid, likes: 0, dislikes: 0, boosts: 0 };
    let shown = to_public(
        post,
        profile,
        "http://h/",
        &vec![],
        None,
        None,
        None,
        false,
        false,
        &totals,
    );
    match shown.content {
        Content::Image(img) => match img.kind {
            ImageKind::Url(u) => assert_eq!(
                u,
                format!("http://h/usercontent/img/{}", ImageId::from_u128(3).to_string())
            ),
            _ => panic!("stored ids become URLs"),
        },
        _ => panic!("image content stays image content"),
    }
}

#[test]
fn profiles_drop_invalid_display_names() {
    let mut user = sample_user(20);
    user.display_name = Some("x".repeat(31));
    let profile = user_to_public(user, "http://h/");
    assert!(profile.display_name.is_none());
    assert!(!profile.am_following);
    assert_eq!(profile.created_at, 1_600_000_000);
}

#[test]
fn url_building_appends_fragments() {
    assert_eq!(domain_and("http://h/", "img/x.png"), "http://h/img/x.png");
    assert_eq!(profile_id_to_url("http://h/", "abc"), "http://h/usercontent/img/abc");
}

#[test]
fn login_decision_orders_its_failures() {
    let user = sample_user(20);
    assert!(process_login(true, Some(sample_user(20))).is_ok());

    let wrong = process_login(false, Some(user)).unwrap_err();
    match wrong {
        ServerErr::Login((code, msg)) => {
            assert_eq!(code, 400);
            assert_eq!(msg, "Invalid password");
        }
        _ => panic!("a failed check is a login failure"),
    }

    let missing = process_login(true, None).unwrap_err();
    match missing {
        ServerErr::Login((code, msg)) => {
            assert_eq!(code, 404);
            assert_eq!(msg, "Missing login");
        }
        _ => panic!("a missing account is a login failure"),
    }
}

#[test]
fn registration_conflicts_are_answered_as_existing_accounts() {
    assert_eq!(process_registration(Some(UserId::from_u128(1))).unwrap(), UserId::from_u128(1));
    let err = process_registration(None).unwrap_err();
    let (code, msg) = err.response_parts();
    assert_eq!(code, 409);
    assert_eq!(msg, "Account already exists");
}

#[test]
fn server_error_constructors_carry_their_answers() {
    assert_eq!(ServerErr::missing_login().response_parts(), (404, "Missing login".to_string()));
    assert_eq!(ServerErr::wrong_password().response_parts(), (400, "Invalid password".to_string()));
    assert_eq!(
        ServerErr::account_exists().response_parts(),
        (409, "Account already exists".to_string())
    );
    let e = ApiErr::new(400, "cannot follow self");
    assert_eq!(e.code, Some(400));
    assert_eq!(e.msg, "cannot follow self");
    assert_eq!(ApiErr::from_msg("boom").code, Some(500));
    let reg = ServerErr::Registration((409, "taken".to_string()));
    assert_eq!(reg.response_parts(), (409, "taken".to_string()));
}

#[test]
fn sessions_issued_by_login_expire_three_weeks_later() {
    let sid = uchat::domain::ids::SessionId::from_u128(77);
    let uid = UserId::from_u128(88);
    let (session, signature) = new_session(sid, uid, 1_700_000_000, &[1, 2, 3]);
    assert_eq!(session.expires_at, 1_700_000_000 + SESSION_DURATION_SECONDS);
    assert_eq!(signature.0, "AQID");

    let ok = build_login_ok(sample_user(88), &session, signature, "http://h/");
    assert_eq!(ok.session_id, sid);
    assert_eq!(ok.session_expires, session.expires_at);
    assert_eq!(ok.session_signature, "AQID");
    assert_eq!(ok.user_id, UserId::from_u128(88));
    assert_eq!(ok.profile_image.as_deref(), Some("http://h/usercontent/img/img-7"));
}

#[test]
fn follow_refuses_the_user_themselves() {
    let me = UserId::from_u128(1);
    let other = UserId::from_u128(2);
    assert!(process_follow(me, other, FollowAction::Follow).unwrap().is_following);
    assert!(!process_follow(me, other, FollowAction::Unfollow).unwrap().is_following);
    let err = process_follow(me, me, FollowAction::Follow).unwrap_err();
    assert_eq!(err.code, Some(400));
    assert_eq!(err.msg, "cannot follow self");
}

#[test]
fn profile_updates_map_to_column_changes() {
    let request = UpdateProfile {
        display_name: Update::Change("New Name".to_string()),
        email: Update::SetNull,
        profile_image: Update::Change("data:image/png;base64,AAAA".to_string()),
        password: Update::Change(
            uchat::domain::user::Password::new("12345678".to_string()).unwrap(),
        ),
    };
    let image_id = ImageId::from_u128(42);
    let params = update_profile_params(
        request,
        UserId::from_u128(9),
        Some("hashed".to_string()),
        Some(image_id),
    );
    assert_eq!(params.id, UserId::from_u128(9));
    match &params.profile_image {
        Update::Change(name) => assert_eq!(name, &image_id.to_string()),
        _ => panic!("a sent image is stored under its new id"),
    }
    match &params.password_hash {
        Update::Change(h) => assert_eq!(h, "hashed"),
        _ => panic!("a changed password is stored hashed"),
    }

    let changes = update_profile_changes(params);
    assert_eq!(changes.display_name, Some(Some("New Name".to_string())));
    assert_eq!(changes.email, Some(None));
    assert_eq!(changes.password_hash, Some("hashed".to_string()));
}

#[test]
fn cleared_passwords_are_left_alone() {
    let request = UpdateProfile {
        display_name: Update::NoChange,
        email: Update::NoChange,
        profile_image: Update::SetNull,
        password: Update::SetNull,
    };
    let params = update_profile_params(request, UserId::from_u128(9), None, None);
    assert!(matches!(params.password_hash, Update::NoChange));
    assert!(matches!(params.profile_image, Update::SetNull));
    let changes = update_profile_changes(params);
    assert_eq!(changes.password_hash, None);
    assert_eq!(changes.profile_image, Some(None));
    assert_eq!(changes.display_name, None);
}

#[test]
fn react_requests_build_their_row_and_answer() {
    let row = new_reaction(UserId::from_u128(1), PostId::from_u128(2), LikeStatus::Dislike, 5);
    assert_eq!(row.like_status, -1);
    assert_eq!(row.created_at, 5);
    assert!(row.reaction.is_none());
    let totals = AggregatePostInfo {
        post_id: PostId::from_u128(2),
        likes: 4,
        dislikes: 6,
        boosts: 0,
    };
    let ok = react_ok(LikeStatus::Dislike, &totals);
    assert_eq!(ok.like_status, LikeStatus::Dislike);
    assert_eq!(ok.likes, 4);
    assert_eq!(ok.dislikes, 6);
}

#[test]
fn update_profile_params_struct_is_plain_data() {
    let p = UpdateProfileParams {
        id: UserId::from_u128(1),
        display_name: Update::NoChange,
        email: Update::NoChange,
        password_hash: Update::NoChange,
        profile_image: Update::NoChange,
    };
    let c = update_profile_changes(p);
    assert_eq!(c.email, None);
}

#[test]
fn new_image_posts_store_their_data_under_an_id() {
    let sent = Content::Image(Image {
        kind: ImageKind::DataUrl("data:image/png;base64,AAAA".to_string()),
        caption: None,
    });
    let id = ImageId::from_u128(9);
    match store_image_content(sent, Some(id)) {
        Content::Image(img) => assert!(matches!(img.kind, ImageKind::Id(i) if i == id)),
        _ => panic!("image content stays image content"),
    }

    let chat = Content::Chat(uchat::endpoint::post::Chat {
        headline: None,
        message: Message::new("hi".to_string()).unwrap(),
    });
    match store_image_content(chat, None) {
        Content::Chat(c) => assert_eq!(c.message.as_str(), "hi"),
        _ => panic!("chat content passes through"),
    }
}

#[test]
fn poll_leaders_are_the_choices_with_most_votes() {
    let choice = |id: u128, votes: i64| PollChoice {
        id: PollChoiceId::from_u128(id),
        num_votes: votes,
        description: PollChoiceDescription::new(format!("choice {id}")).unwrap(),
    };
    let choices = vec![choice(1, 5), choice(2, 9), choice(3, 9), choice(4, 0)];
    let leaders = leading_choice_ids(&choices);
    assert_eq!(leaders, vec![PollChoiceId::from_u128(2), PollChoiceId::from_u128(3)]);
    assert_eq!(leading_choice_ids(&vec![]), Vec::<PollChoiceId>::new());
    assert_eq!(leading_choice_ids(&vec![choice(7, -3)]), vec![PollChoiceId::from_u128(7)]);
}

#[test]
fn viewed_profiles_carry_the_follow_relation() {
    let profile = user_to_public(sample_user(20), "http://h/");
    let marked = mark_following(profile, true);
    assert!(marked.am_following);
    assert_eq!(marked.handle, "someone");
}

#[test]
fn registration_answers_carry_the_first_session() {
    let sid = uchat::domain::ids::SessionId::from_u128(3);
    let uid = UserId::from_u128(4);
    let (session, signature) = new_session(sid, uid, 1_000, &[1]);
    let ok = build_create_user_ok(
        uid,
        Username::new("carol".to_string()).unwrap(),
        &session,
        signature,
    );
    assert_eq!(ok.user_id, uid);
    assert_eq!(ok.session_id, sid);
    assert_eq!(ok.session_expires, session.expires_at);
    assert_eq!(ok.username.as_str(), "carol");
}
