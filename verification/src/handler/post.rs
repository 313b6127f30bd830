//! Decisions and answers of the post handlers.

use crate::domain::ids::{uuid_hyphenated, ImageId, PollChoiceId, PostId, UserId};
use crate::domain::user::Username;
use crate::endpoint::post::{Content, Image, ImageKind, LikeStatus, Poll, PollChoice, PublicPost,
    ReactOk};
use crate::endpoint::user::PublicUserProfile;
use crate::query::post::{AggregatePostInfo, Post, Reaction};
use vstd::prelude::*;

verus! {

/// The stored form of a reaction: a like is `1`, a dislike `-1`, a
/// withdrawn reaction `0`.
pub open spec fn i16_of_like_status(status: LikeStatus) -> i16 {
    match status {
        LikeStatus::Like => 1i16,
        LikeStatus::Dislike => -1i16,
        LikeStatus::NoReaction => 0i16,
    }
}

/// The reaction shown for a stored value: `1` is a like, `-1` a dislike,
/// anything else (or no row) no reaction.
pub open spec fn spec_like_status(stored: Option<i16>) -> LikeStatus {
    match stored {
        Some(v) => if v == -1 {
            LikeStatus::Dislike
        } else if v == 1 {
            LikeStatus::Like
        } else {
            LikeStatus::NoReaction
        },
        None => LikeStatus::NoReaction,
    }
}

/// Storing a reaction and reading it back gives the reaction again.
pub proof fn lemma_like_status_round_trip(status: LikeStatus)
    ensures
        spec_like_status(Some(i16_of_like_status(status))) == status,
{
}

/// The reaction shown for the reading user's stored reaction row, if any.
pub fn like_status_of(stored: Option<i16>) -> (r: LikeStatus)
    ensures
        r == spec_like_status(stored),
{
    match stored {
        Some(v) => {
            if v == -1 {
                LikeStatus::Dislike
            } else if v == 1 {
                LikeStatus::Like
            } else {
                LikeStatus::NoReaction
            }
        },
        None => LikeStatus::NoReaction,
    }
}

/// The stored value of a requested reaction.
pub fn like_status_to_i16(status: LikeStatus) -> (r: i16)
    ensures
        r == i16_of_like_status(status),
{
    match status {
        LikeStatus::Like => 1,
        LikeStatus::Dislike => -1,
        LikeStatus::NoReaction => 0,
    }
}

/// The reaction row a react request stores, without a free payload.
pub fn new_reaction(user_id: UserId, post_id: PostId, like_status: LikeStatus, now: i64) -> (r:
    Reaction)
    ensures
        r.user_id == user_id,
        r.post_id == post_id,
        r.created_at == now,
        r.like_status == i16_of_like_status(like_status),
        r.reaction is None,
{
    Reaction {
        user_id,
        post_id,
        created_at: now,
        like_status: like_status_to_i16(like_status),
        reaction: None,
    }
}

/// The answer to a react request: the stored reaction and the new totals.
pub fn react_ok(like_status: LikeStatus, aggregate: &AggregatePostInfo) -> (r: ReactOk)
    ensures
        r.like_status == like_status,
        r.likes == aggregate.likes,
        r.dislikes == aggregate.dislikes,
{
    ReactOk { like_status, likes: aggregate.likes, dislikes: aggregate.dislikes }
}

/// Whether `out` is `kind` made public: a stored image identifier becomes
/// the URL it is served under; anything else passes through.
pub open spec fn image_kind_public(kind: ImageKind, out: ImageKind, base: Seq<char>) -> bool {
    match kind {
        ImageKind::Id(id) => out matches ImageKind::Url(u) && u@ == base + "usercontent/"@
            + "img/"@ + uuid_hyphenated(id@),
        _ => out == kind,
    }
}

/// Turn a stored image reference into the URL it is served under from the
/// server address `base_url`, which ends in a slash.
pub fn image_kind_to_public(kind: ImageKind, base_url: &str) -> (r: ImageKind)
    ensures
        image_kind_public(kind, r, base_url@),
{
    match kind {
        ImageKind::Id(id) => {
            let mut u = base_url.to_owned();
            u.append("usercontent/");
            u.append("img/");
            let id_text = id.to_string();
            u.append(id_text.as_str());
            ImageKind::Url(u)
        },
        other => other,
    }
}

/// The content a new post stores. Image data sent in as a data URL was
/// written out by the caller and is referenced by the identifier it was
/// stored under; everything else is stored as it came in.
pub fn store_image_content(content: Content, stored: Option<ImageId>) -> (r: Content)
    requires
        ((content matches Content::Image(img) && img.kind is DataUrl) <==> stored is Some),
    ensures
        (match content {
            Content::Image(img) => r matches Content::Image(img2) && img2.caption == img.caption
                && (match img.kind {
                ImageKind::DataUrl(_) => stored matches Some(id) && img2.kind == ImageKind::Id(id),
                _ => img2.kind == img.kind,
            }),
            _ => r == content,
        }),
{
    match content {
        Content::Image(img) => {
            match img.kind {
                ImageKind::DataUrl(_) => {
                    let id = match stored {
                        Some(id) => id,
                        None => {
                            proof {
                                assert(false);
                            }
                            ImageId::from_u128(0)
                        },
                    };
                    Content::Image(Image { kind: ImageKind::Id(id), caption: img.caption })
                },
                kind => Content::Image(Image { kind, caption: img.caption }),
            }
        },
        other => other,
    }
}

/// The greatest vote count among `choices` (the least value when there
/// are none, so that nothing leads an empty poll).
pub open spec fn max_votes(s: Seq<PollChoice>) -> int
    decreases s.len(),
{
    if s.len() == 0 {
        i64::MIN as int
    } else {
        let m = max_votes(s.drop_last());
        if s.last().num_votes >= m {
            s.last().num_votes as int
        } else {
            m
        }
    }
}

/// The identifiers of the choices with exactly `v` votes, in order.
pub open spec fn choices_with_votes(s: Seq<PollChoice>, v: int) -> Seq<PollChoiceId> {
    s.filter(|c: PollChoice| c.num_votes == v).map_values(|c: PollChoice| c.id)
}

/// The identifiers of the choices leading the poll: those whose vote
/// count no other choice beats.
pub open spec fn leaders_of(s: Seq<PollChoice>) -> Seq<PollChoiceId> {
    choices_with_votes(s, max_votes(s))
}

/// The choices leading the poll, in order: the page highlights them.
pub fn leading_choice_ids(choices: &Vec<PollChoice>) -> (r: Vec<PollChoiceId>)
    ensures
        r@ == leaders_of(choices@),
{
    let mut m: i64 = i64::MIN;
    let mut i: usize = 0;
    while i < choices.len()
        invariant
            i <= choices@.len(),
            m as int == max_votes(choices@.subrange(0, i as int)),
        decreases choices@.len() - i,
    {
        proof {
            assert(choices@.subrange(0, i as int + 1).drop_last() =~= choices@.subrange(
                0,
                i as int,
            ));
            assert(choices@.subrange(0, i as int + 1).last() == choices@[i as int]);
        }
        if choices[i].num_votes >= m {
            m = choices[i].num_votes;
        }
        i += 1;
    }
    proof {
        assert(choices@.subrange(0, choices@.len() as int) =~= choices@);
    }

    let mut out: Vec<PollChoiceId> = Vec::new();
    let mut j: usize = 0;
    while j < choices.len()
        invariant
            j <= choices@.len(),
            m as int == max_votes(choices@),
            out@ == choices_with_votes(choices@.subrange(0, j as int), m as int),
        decreases choices@.len() - j,
    {
        let ghost seen = choices@.subrange(0, j as int);
        let ghost seen_next = choices@.subrange(0, j as int + 1);
        proof {
            reveal(Seq::filter);
            assert(seen_next.drop_last() =~= seen);
            assert(seen_next.last() == choices@[j as int]);
        }
        if choices[j].num_votes == m {
            out.push(choices[j].id);
        }
        proof {
            assert(out@ =~= choices_with_votes(seen_next, m as int));
        }
        j += 1;
    }
    proof {
        assert(choices@.subrange(0, choices@.len() as int) =~= choices@);
    }
    out
}

/// The vote count `results` reports for choice `id`, the last report
/// winning.
pub open spec fn votes_for(results: Seq<(PollChoiceId, i64)>, id: PollChoiceId) -> Option<i64>
    decreases results.len(),
{
    if results.len() == 0 {
        None
    } else if results.last().0 == id {
        Some(results.last().1)
    } else {
        votes_for(results.drop_last(), id)
    }
}

/// Whether `q` is `p` with the reported vote counts filled in and the
/// reading user's vote set: same headline, same choices in order, each
/// choice's count taken from the last report for it.
pub open spec fn poll_filled(
    p: Poll,
    q: Poll,
    results: Seq<(PollChoiceId, i64)>,
    voted: Option<PollChoiceId>,
) -> bool {
    &&& q.headline == p.headline
    &&& q.voted == voted
    &&& q.choices@.len() == p.choices@.len()
    &&& forall|j: int|
        0 <= j < p.choices@.len() ==> {
            &&& (#[trigger] q.choices@[j]).id == p.choices@[j].id
            &&& q.choices@[j].description == p.choices@[j].description
            &&& q.choices@[j].num_votes == (match votes_for(results, p.choices@[j].id) {
                Some(v) => v,
                None => p.choices@[j].num_votes,
            })
        }
}

/// Fill the reported vote counts into a poll's choices and set the reading
/// user's vote.
pub fn fill_poll_results(poll: Poll, results: &Vec<(PollChoiceId, i64)>, voted: Option<
    PollChoiceId,
>) -> (r: Poll)
    ensures
        poll_filled(poll, r, results@, voted),
{
    let mut choices: Vec<PollChoice> = Vec::new();
    let mut j: usize = 0;
    while j < poll.choices.len()
        invariant
            j <= poll.choices@.len(),
            choices@.len() == j,
            forall|m: int|
                0 <= m < j ==> {
                    &&& (#[trigger] choices@[m]).id == poll.choices@[m].id
                    &&& choices@[m].description == poll.choices@[m].description
                    &&& choices@[m].num_votes == (match votes_for(results@, poll.choices@[m].id) {
                        Some(v) => v,
                        None => poll.choices@[m].num_votes,
                    })
                },
        decreases poll.choices@.len() - j,
    {
        let choice = &poll.choices[j];
        let mut votes: i64 = choice.num_votes;
        let mut k: usize = 0;
        while k < results.len()
            invariant
                k <= results@.len(),
                votes == (match votes_for(results@.subrange(0, k as int), choice.id) {
                    Some(v) => v,
                    None => choice.num_votes,
                }),
            decreases results@.len() - k,
        {
            proof {
                assert(results@.subrange(0, k as int + 1).drop_last() =~= results@.subrange(
                    0,
                    k as int,
                ));
                assert(results@.subrange(0, k as int + 1).last() == results@[k as int]);
            }
            if results[k].0 == choice.id {
                votes = results[k].1;
            }
            k += 1;
        }
        proof {
            assert(results@.subrange(0, results@.len() as int) =~= results@);
        }
        choices.push(
            PollChoice { id: choice.id, num_votes: votes, description: choice.description.clone() },
        );
        j += 1;
    }
    Poll { headline: poll.headline, choices, voted }
}

/// A stored post as shown to a reader. The caller has looked up the
/// author's profile, the reply target, the reading user's own rows and the
/// totals, and read the poll results; everything is assembled here.
pub fn to_public(
    post: Post,
    by_user: PublicUserProfile,
    base_url: &str,
    poll_results: &Vec<(PollChoiceId, i64)>,
    voted: Option<PollChoiceId>,
    reply_to: Option<(Username, UserId, PostId)>,
    reaction: Option<i16>,
    bookmarked: bool,
    boosted: bool,
    aggregate: &AggregatePostInfo,
) -> (r: PublicPost)
    ensures
        r.id == post.id,
        r.by_user == by_user,
        r.time_posted == post.time_posted,
        r.reply_to == reply_to,
        r.like_status == spec_like_status(reaction),
        r.bookmarked == bookmarked,
        r.boosted == boosted,
        r.likes == aggregate.likes,
        r.dislikes == aggregate.dislikes,
        r.boosts == aggregate.boosts,
        (match post.content {
            Content::Chat(c) => r.content matches Content::Chat(c2) && c2 == c,
            Content::Image(img) => r.content matches Content::Image(img2) && img2.caption
                == img.caption && image_kind_public(img.kind, img2.kind, base_url@),
            Content::Poll(p) => r.content matches Content::Poll(q) && poll_filled(
                p,
                q,
                poll_results@,
                voted,
            ),
        }),
{
    let content = match post.content {
        Content::Chat(c) => Content::Chat(c),
        Content::Image(img) => Content::Image(
            Image { kind: image_kind_to_public(img.kind, base_url), caption: img.caption },
        ),
        Content::Poll(p) => Content::Poll(fill_poll_results(p, poll_results, voted)),
    };
    PublicPost {
        id: post.id,
        by_user,
        content,
        time_posted: post.time_posted,
        reply_to,
        like_status: like_status_of(reaction),
        bookmarked,
        boosted,
        likes: aggregate.likes,
        dislikes: aggregate.dislikes,
        boosts: aggregate.boosts,
    }
}

} // verus!
