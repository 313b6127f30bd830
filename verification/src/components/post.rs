//! The posts a page shows, keyed by identifier in insertion order.

use crate::domain::ids::PostId;
use crate::endpoint::post::{BookmarkAction, BoostAction, LikeStatus, PublicPost};
use vstd::prelude::*;

verus! {

/// The reaction a click asks for: clicking the reaction already held
/// withdraws it, anything else switches to the clicked one.
pub fn toggle_like_status(current: LikeStatus, clicked: LikeStatus) -> (r: LikeStatus)
    ensures
        r == (if current == clicked {
            LikeStatus::NoReaction
        } else {
            clicked
        }),
{
    if current == clicked {
        LikeStatus::NoReaction
    } else {
        clicked
    }
}

/// The bookmark action a click asks for: a bookmarked post is
/// unbookmarked, any other is bookmarked.
pub fn bookmark_action_for(bookmarked: bool) -> (r: BookmarkAction)
    ensures
        r == (if bookmarked {
            BookmarkAction::Remove
        } else {
            BookmarkAction::Add
        }),
{
    if bookmarked {
        BookmarkAction::Remove
    } else {
        BookmarkAction::Add
    }
}

/// The boost action a click asks for: a boosted post is unboosted, any
/// other is boosted.
pub fn boost_action_for(boosted: bool) -> (r: BoostAction)
    ensures
        r == (if boosted {
            BoostAction::Remove
        } else {
            BoostAction::Add
        }),
{
    if boosted {
        BoostAction::Remove
    } else {
        BoostAction::Add
    }
}

/// No two entries share an identifier.
pub open spec fn unique_ids(s: Seq<(PostId, PublicPost)>) -> bool {
    forall|i: int, j: int| 0 <= i < j < s.len() ==> (#[trigger] s[i]).0 != (#[trigger] s[j]).0
}

/// `s` with `p` stored under its identifier: an entry with that identifier
/// is replaced in place, otherwise `p` is appended.
pub open spec fn upsert(s: Seq<(PostId, PublicPost)>, p: PublicPost) -> Seq<(PostId, PublicPost)> {
    if exists|i: int| 0 <= i < s.len() && (#[trigger] s[i]).0 == p.id {
        let i = choose|i: int| 0 <= i < s.len() && (#[trigger] s[i]).0 == p.id;
        s.update(i, (p.id, p))
    } else {
        s.push((p.id, p))
    }
}

/// The entries after storing each of `posts` in turn into an empty store.
pub open spec fn populated(posts: Seq<PublicPost>) -> Seq<(PostId, PublicPost)>
    decreases posts.len(),
{
    if posts.len() == 0 {
        Seq::empty()
    } else {
        upsert(populated(posts.drop_last()), posts.last())
    }
}

/// The posts a page shows: each stored once, under its identifier, in the
/// order they arrived.
pub struct PostManager {
    posts: Vec<(PostId, PublicPost)>,
}

impl View for PostManager {
    type V = Seq<(PostId, PublicPost)>;

    closed spec fn view(&self) -> Seq<(PostId, PublicPost)> {
        self.posts@
    }
}

impl PostManager {
    /// Each post stands under one identifier.
    pub open spec fn wf(&self) -> bool {
        unique_ids(self@)
    }

    /// An empty store.
    pub fn new() -> (r: Self)
        ensures
            r@ =~= Seq::<(PostId, PublicPost)>::empty(),
            r.wf(),
    {
        PostManager { posts: Vec::new() }
    }

    /// How many posts are stored.
    pub fn len(&self) -> (r: usize)
        ensures
            r == self@.len(),
    {
        self.posts.len()
    }

    /// Replace the post stored under `id`, keeping its place; nothing is
    /// stored when the identifier is absent. Says whether it was present.
    pub fn update(&mut self, id: PostId, post: PublicPost) -> (r: bool)
        requires
            old(self).wf(),
            post.id == id,
        ensures
            final(self).wf(),
            r == exists|i: int| 0 <= i < old(self)@.len() && (#[trigger] old(self)@[i]).0 == id,
            final(self)@.len() == old(self)@.len(),
            forall|i: int|
                0 <= i < old(self)@.len() && (#[trigger] old(self)@[i]).0 != id ==> final(self)@[i]
                    == old(self)@[i],
            forall|i: int|
                0 <= i < old(self)@.len() && (#[trigger] old(self)@[i]).0 == id ==> final(self)@[i]
                    == (id, post),
    {
        let mut i: usize = 0;
        while i < self.posts.len()
            invariant
                self == old(self),
                old(self).wf(),
                post.id == id,
                i <= self.posts@.len(),
                forall|m: int| 0 <= m < i ==> (#[trigger] old(self)@[m]).0 != id,
            decreases self.posts@.len() - i,
        {
            if self.posts[i].0 == id {
                self.posts[i] = (id, post);
                return true;
            }
            i += 1;
        }
        false
    }

    /// Store `post` under its identifier: replace in place when present,
    /// append when absent.
    pub fn insert_post(&mut self, post: PublicPost)
        requires
            old(self).wf(),
        ensures
            final(self)@ == upsert(old(self)@, post),
            final(self).wf(),
    {
        let ghost p = post;
        let id = post.id;
        let mut i: usize = 0;
        while i < self.posts.len()
            invariant
                self == old(self),
                old(self).wf(),
                post == p,
                id == p.id,
                i <= self.posts@.len(),
                forall|m: int| 0 <= m < i ==> (#[trigger] old(self)@[m]).0 != id,
            decreases self.posts@.len() - i,
        {
            if self.posts[i].0 == id {
                let ghost iw = i as int;
                self.posts[i] = (id, post);
                proof {
                    let w = choose|w: int|
                        0 <= w < old(self)@.len() && (#[trigger] old(self)@[w]).0 == p.id;
                    assert(old(self)@[iw].0 == p.id);
                    assert(w == iw);
                    assert(self@ =~= upsert(old(self)@, p));
                }
                return ;
            }
            i += 1;
        }
        self.posts.push((id, post));
        proof {
            assert(forall|w: int|
                0 <= w < old(self)@.len() ==> (#[trigger] old(self)@[w]).0 != p.id);
            assert(self@ =~= upsert(old(self)@, p));
        }
    }

    /// Store each of `posts` in turn, replacing whatever was stored.
    pub fn populate(&mut self, posts: Vec<PublicPost>)
        ensures
            final(self)@ == populated(posts@),
            final(self).wf(),
    {
        let ghost orig = posts@;
        let total = posts.len();
        let mut rest = posts;
        self.posts.clear();
        let mut k: usize = 0;
        while k < total
            invariant
                total == orig.len(),
                k <= orig.len(),
                rest@ =~= orig.subrange(k as int, orig.len() as int),
                self@ == populated(orig.subrange(0, k as int)),
                self.wf(),
            decreases total - k,
        {
            proof {
                assert(rest@.len() == orig.len() - k);
            }
            let ghost prefix = orig.subrange(0, k as int);
            let ghost prefix_next = orig.subrange(0, k as int + 1);
            proof {
                assert(prefix_next.drop_last() =~= prefix);
                assert(prefix_next.last() == orig[k as int]);
            }
            let post = rest.remove(0);
            self.insert_post(post);
            proof {
                assert(rest@ =~= orig.subrange(k as int + 1, orig.len() as int));
            }
            k += 1;
        }
        proof {
            assert(orig.subrange(0, orig.len() as int) =~= orig);
        }
    }

    /// Drop every stored post.
    pub fn clear(&mut self)
        ensures
            final(self)@ =~= Seq::<(PostId, PublicPost)>::empty(),
            final(self).wf(),
    {
        self.posts.clear();
    }

    /// The post stored under `post_id`, if any.
    pub fn get(&self, post_id: &PostId) -> (r: Option<&PublicPost>)
        ensures
            match r {
                Some(p) => exists|i: int|
                    0 <= i < self@.len() && #[trigger] self@[i] == (*post_id, *p),
                None => forall|i: int| 0 <= i < self@.len() ==> (#[trigger] self@[i]).0 != *post_id,
            },
    {
        let mut i: usize = 0;
        while i < self.posts.len()
            invariant
                i <= self.posts@.len(),
                forall|m: int| 0 <= m < i ==> (#[trigger] self@[m]).0 != *post_id,
            decreases self.posts@.len() - i,
        {
            if self.posts[i].0 == *post_id {
                let p = &self.posts[i].1;
                proof {
                    assert(self@[i as int] == (*post_id, *p));
                }
                return Some(p);
            }
            i += 1;
        }
        None
    }

    /// Drop the post stored under `post_id`, if any.
    pub fn remove(&mut self, post_id: &PostId)
        requires
            old(self).wf(),
        ensures
            final(self).wf(),
            (forall|i: int| 0 <= i < old(self)@.len() ==> (#[trigger] old(self)@[i]).0 != *post_id)
                ==> final(self)@ == old(self)@,
            forall|i: int|
                (0 <= i < old(self)@.len() && (#[trigger] old(self)@[i]).0 == *post_id)
                    ==> final(self)@ == old(self)@.remove(i),
    {
        let mut i: usize = 0;
        while i < self.posts.len()
            invariant
                self == old(self),
                old(self).wf(),
                i <= self.posts@.len(),
                forall|m: int| 0 <= m < i ==> (#[trigger] old(self)@[m]).0 != *post_id,
            decreases self.posts@.len() - i,
        {
            if self.posts[i].0 == *post_id {
                self.posts.remove(i);
                proof {
                    assert forall|a: int, b: int|
                        0 <= a < b < self@.len() implies (#[trigger] self@[a]).0 != (
                    #[trigger] self@[b]).0 by {
                        assert(self@[a] == if a < i as int {
                            old(self)@[a]
                        } else {
                            old(self)@[a + 1]
                        });
                        assert(self@[b] == if b < i as int {
                            old(self)@[b]
                        } else {
                            old(self)@[b + 1]
                        });
                    }
                }
                return ;
            }
            i += 1;
        }
    }

    /// The stored identifiers, in order.
    pub fn ids(&self) -> (r: Vec<PostId>)
        ensures
            r@.len() == self@.len(),
            forall|i: int| 0 <= i < r@.len() ==> #[trigger] r@[i] == self@[i].0,
    {
        let mut out: Vec<PostId> = Vec::new();
        let mut i: usize = 0;
        while i < self.posts.len()
            invariant
                i <= self.posts@.len(),
                out@.len() == i,
                forall|m: int| 0 <= m < i ==> #[trigger] out@[m] == self@[m].0,
            decreases self.posts@.len() - i,
        {
            out.push(self.posts[i].0);
            i += 1;
        }
        out
    }
}

} // verus!
