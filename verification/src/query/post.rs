//! Post, reaction, boost and bookmark rows, and the reaction totals.

use crate::domain::ids::{PostId, UserId};
use crate::endpoint::post::{Content, NewPostOptions};
use vstd::prelude::*;

verus! {

/// A stored post. Times are seconds since the Unix epoch.
#[derive(Clone, Debug)]
pub struct Post {
    pub id: PostId,
    pub user_id: UserId,
    pub content: Content,
    pub time_posted: i64,
    pub direct_message_to: Option<UserId>,
    pub reply_to: Option<PostId>,
    pub created_at: i64,
}

impl Post {
    /// The row for a new post by `posted_by`, under a fresh identifier and
    /// stamped with the current time.
    pub fn new(posted_by: UserId, content: Content, options: NewPostOptions) -> (r: Post)
        ensures
            r.user_id == posted_by,
            r.content == content,
            r.time_posted == options.time_posted,
            r.direct_message_to == options.direct_message_to,
            r.reply_to == options.reply_to,
    {
        Post {
            id: PostId::new(),
            user_id: posted_by,
            content,
            time_posted: options.time_posted,
            direct_message_to: options.direct_message_to,
            reply_to: options.reply_to,
            created_at: crate::clock::now_utc_seconds(),
        }
    }
}

/// A stored reaction: one row per user per post. A like is `1`, a dislike
/// `-1`, a withdrawn reaction `0`; `reaction` carries an optional free
/// payload.
#[derive(Clone, Debug)]
pub struct Reaction {
    pub user_id: UserId,
    pub post_id: PostId,
    pub created_at: i64,
    pub like_status: i16,
    pub reaction: Option<String>,
}

/// A stored boost: one row per user per post.
#[derive(Clone, Copy, Debug, PartialEq, Eq, Structural)]
pub struct Boost {
    pub user_id: UserId,
    pub post_id: PostId,
    pub boosted_at: i64,
}

/// A stored bookmark: one row per user per post.
#[derive(Clone, Copy, Debug, PartialEq, Eq, Structural)]
pub struct Bookmark {
    pub user_id: UserId,
    pub post_id: PostId,
}

/// How many of `rs` react to post `pid` with exactly `status`.
pub open spec fn count_reactions_with(rs: Seq<Reaction>, pid: u128, status: i16) -> int
    decreases rs.len(),
{
    if rs.len() == 0 {
        0
    } else {
        count_reactions_with(rs.drop_last(), pid, status) + (if rs.last().post_id@ == pid
            && rs.last().like_status == status {
            1int
        } else {
            0int
        })
    }
}

/// How many of `bs` boost post `pid`.
pub open spec fn count_boosts(bs: Seq<Boost>, pid: u128) -> int
    decreases bs.len(),
{
    if bs.len() == 0 {
        0
    } else {
        count_boosts(bs.drop_last(), pid) + (if bs.last().post_id@ == pid {
            1int
        } else {
            0int
        })
    }
}

/// The engagement totals of one post.
#[derive(Clone, Copy, Debug)]
pub struct AggregatePostInfo {
    pub post_id: PostId,
    pub likes: i64,
    pub dislikes: i64,
    pub boosts: i64,
}

/// Count the likes, dislikes and boosts of `post_id` over the stored
/// reaction and boost rows.
pub fn aggregate_reactions(reactions: &Vec<Reaction>, boosts: &Vec<Boost>, post_id: PostId) -> (r:
    AggregatePostInfo)
    requires
        reactions@.len() <= i64::MAX,
        boosts@.len() <= i64::MAX,
    ensures
        r.post_id == post_id,
        r.likes == count_reactions_with(reactions@, post_id@, 1i16),
        r.dislikes == count_reactions_with(reactions@, post_id@, -1i16),
        r.boosts == count_boosts(boosts@, post_id@),
{
    let mut likes: i64 = 0;
    let mut dislikes: i64 = 0;
    let mut i: usize = 0;
    while i < reactions.len()
        invariant
            reactions@.len() <= i64::MAX,
            i <= reactions@.len(),
            likes == count_reactions_with(reactions@.subrange(0, i as int), post_id@, 1i16),
            dislikes == count_reactions_with(reactions@.subrange(0, i as int), post_id@, -1i16),
            0 <= likes <= i,
            0 <= dislikes <= i,
        decreases reactions@.len() - i,
    {
        let row = &reactions[i];
        proof {
            assert(reactions@.subrange(0, i as int + 1).drop_last() =~= reactions@.subrange(
                0,
                i as int,
            ));
            assert(reactions@.subrange(0, i as int + 1).last() == reactions@[i as int]);
        }
        if row.post_id.as_u128() == post_id.as_u128() {
            if row.like_status == 1 {
                likes += 1;
            } else if row.like_status == -1 {
                dislikes += 1;
            }
        }
        i += 1;
    }
    proof {
        assert(reactions@.subrange(0, reactions@.len() as int) =~= reactions@);
    }

    let mut boost_count: i64 = 0;
    let mut j: usize = 0;
    while j < boosts.len()
        invariant
            boosts@.len() <= i64::MAX,
            j <= boosts@.len(),
            boost_count == count_boosts(boosts@.subrange(0, j as int), post_id@),
            0 <= boost_count <= j,
        decreases boosts@.len() - j,
    {
        proof {
            assert(boosts@.subrange(0, j as int + 1).drop_last() =~= boosts@.subrange(0, j as int));
            assert(boosts@.subrange(0, j as int + 1).last() == boosts@[j as int]);
        }
        if boosts[j].post_id.as_u128() == post_id.as_u128() {
            boost_count += 1;
        }
        j += 1;
    }
    proof {
        assert(boosts@.subrange(0, boosts@.len() as int) =~= boosts@);
    }

    AggregatePostInfo { post_id, likes, dislikes, boosts: boost_count }
}

} // verus!
