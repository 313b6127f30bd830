//! State of the poll post composer.
//!
//! The choices are kept sorted by their keys, and every key stays below
//! the next key to be handed out, so pushing a fresh choice never clashes.

use crate::domain::post::{
    poll_choice_description_valid, poll_headline_valid, PollChoiceDescription, PollHeadline,
};
use crate::domain::ids::PollChoiceId;
use crate::endpoint::post::{Poll, PollChoice};
use vstd::prelude::*;

verus! {

/// Keys strictly increase, and all stay below `next_id`.
pub open spec fn choices_wf(s: Seq<(usize, String)>, next_id: usize) -> bool {
    &&& forall|i: int, j: int| 0 <= i < j < s.len() ==> (#[trigger] s[i]).0 < (#[trigger] s[j]).0
    &&& forall|i: int| 0 <= i < s.len() ==> (#[trigger] s[i]).0 < next_id
}

/// The first index whose key is at least `key` (the length when none is).
pub open spec fn first_key_at_least(s: Seq<(usize, String)>, key: usize) -> int
    decreases s.len(),
{
    if s.len() == 0 {
        0
    } else if s[0].0 >= key {
        0
    } else {
        1 + first_key_at_least(s.subrange(1, s.len() as int), key)
    }
}

proof fn lemma_first_key_at_least_scan(s: Seq<(usize, String)>, key: usize, e: int)
    requires
        0 <= e <= s.len(),
        forall|m: int| 0 <= m < e ==> (#[trigger] s[m]).0 < key,
        e < s.len() ==> s[e].0 >= key,
    ensures
        first_key_at_least(s, key) == e,
    decreases e,
{
    if s.len() > 0 && s[0].0 < key {
        lemma_first_key_at_least_scan(s.subrange(1, s.len() as int), key, e - 1);
    }
}

/// What the poll composer holds: the headline and the choices, keyed in
/// ascending order.
#[derive(Clone, Debug)]
pub struct PageState {
    pub headline: String,
    pub poll_choices: Vec<(usize, String)>,
    pub next_id: usize,
}

impl PageState {
    /// The keys are sorted and below the next one to hand out.
    pub open spec fn wf(&self) -> bool {
        choices_wf(self.poll_choices@, self.next_id)
    }

    /// A fresh composer offering two empty choices.
    pub fn new() -> (r: Self)
        ensures
            r.headline@.len() == 0,
            r.poll_choices@.len() == 2,
            r.poll_choices@[0].0 == 0 && r.poll_choices@[0].1@.len() == 0,
            r.poll_choices@[1].0 == 1 && r.poll_choices@[1].1@.len() == 0,
            r.next_id == 2,
            r.wf(),
    {
        let mut poll_choices: Vec<(usize, String)> = Vec::new();
        poll_choices.push((0, String::new()));
        poll_choices.push((1, String::new()));
        PageState { headline: String::new(), poll_choices, next_id: 2 }
    }

    /// The poll may be submitted when the headline validates, at least two
    /// choices are offered and every choice validates.
    pub fn can_submit(&self) -> (r: bool)
        ensures
            r == (poll_headline_valid(self.headline@) && self.poll_choices@.len() >= 2 && (forall|
                i: int,
            |
                0 <= i < self.poll_choices@.len() ==> poll_choice_description_valid(
                    (#[trigger] self.poll_choices@[i]).1@,
                ))),
    {
        if PollHeadline::new(self.headline.clone()).is_err() {
            return false;
        }
        if self.poll_choices.len() < 2 {
            return false;
        }
        let mut i: usize = 0;
        while i < self.poll_choices.len()
            invariant
                i <= self.poll_choices@.len(),
                forall|m: int|
                    0 <= m < i ==> poll_choice_description_valid(
                        (#[trigger] self.poll_choices@[m]).1@,
                    ),
            decreases self.poll_choices@.len() - i,
        {
            if PollChoiceDescription::new(self.poll_choices[i].1.clone()).is_err() {
                return false;
            }
            i += 1;
        }
        true
    }

    /// The poll content a filled-in composer submits: the headline over
    /// the choices in key order, each under a fresh identifier with no
    /// votes yet, and no vote cast.
    pub fn build_poll(&self) -> (r: Poll)
        requires
            poll_headline_valid(self.headline@),
            forall|i: int|
                0 <= i < self.poll_choices@.len() ==> poll_choice_description_valid(
                    (#[trigger] self.poll_choices@[i]).1@,
                ),
        ensures
            r.headline@ == self.headline@,
            r.voted is None,
            r.choices@.len() == self.poll_choices@.len(),
            forall|j: int|
                0 <= j < r.choices@.len() ==> (#[trigger] r.choices@[j]).num_votes == 0
                    && r.choices@[j].description@ == self.poll_choices@[j].1@,
    {
        let headline = match PollHeadline::new(self.headline.clone()) {
            Ok(h) => h,
            Err(_) => unreached(),
        };
        let mut choices: Vec<PollChoice> = Vec::new();
        let mut j: usize = 0;
        while j < self.poll_choices.len()
            invariant
                j <= self.poll_choices@.len(),
                forall|i: int|
                    0 <= i < self.poll_choices@.len() ==> poll_choice_description_valid(
                        (#[trigger] self.poll_choices@[i]).1@,
                    ),
                choices@.len() == j,
                forall|m: int|
                    0 <= m < j ==> (#[trigger] choices@[m]).num_votes == 0
                        && choices@[m].description@ == self.poll_choices@[m].1@,
            decreases self.poll_choices@.len() - j,
        {
            let description = match PollChoiceDescription::new(self.poll_choices[j].1.clone()) {
                Ok(d) => d,
                Err(_) => unreached(),
            };
            choices.push(PollChoice { id: PollChoiceId::new(), num_votes: 0, description });
            j += 1;
        }
        Poll { headline, choices, voted: None }
    }

    /// Add `choice` at the end, under the next key.
    pub fn push_choice(&mut self, choice: String)
        requires
            old(self).wf(),
            old(self).next_id < usize::MAX,
        ensures
            final(self).wf(),
            final(self).headline == old(self).headline,
            final(self).poll_choices@ == old(self).poll_choices@.push(
                (old(self).next_id, choice),
            ),
            final(self).next_id == old(self).next_id + 1,
    {
        let key = self.next_id;
        self.poll_choices.push((key, choice));
        self.next_id = key + 1;
    }

    /// Store `choice` under `key`: replace the choice with that key, or
    /// slot a new one in at the key's place in the order.
    pub fn replace_choice(&mut self, key: usize, choice: String)
        requires
            old(self).wf(),
            key < old(self).next_id,
        ensures
            final(self).wf(),
            final(self).headline == old(self).headline,
            final(self).next_id == old(self).next_id,
            ({
                let s = old(self).poll_choices@;
                let i = first_key_at_least(s, key);
                if i < s.len() && s[i].0 == key {
                    final(self).poll_choices@ == s.update(i, (key, choice))
                } else {
                    final(self).poll_choices@ == s.insert(i, (key, choice))
                }
            }),
    {
        let ghost s = self.poll_choices@;
        let mut i: usize = 0;
        while i < self.poll_choices.len() && self.poll_choices[i].0 < key
            invariant
                self == old(self),
                i <= self.poll_choices@.len(),
                forall|m: int| 0 <= m < i ==> (#[trigger] self.poll_choices@[m]).0 < key,
            decreases self.poll_choices@.len() - i,
        {
            i += 1;
        }
        proof {
            lemma_first_key_at_least_scan(s, key, i as int);
        }
        if i < self.poll_choices.len() && self.poll_choices[i].0 == key {
            self.poll_choices[i] = (key, choice);
            proof {
                assert forall|a: int, b: int|
                    0 <= a < b < self.poll_choices@.len() implies (
                #[trigger] self.poll_choices@[a]).0 < (#[trigger] self.poll_choices@[b]).0 by {
                    assert(s[a].0 < s[b].0);
                }
            }
        } else {
            self.poll_choices.insert(i, (key, choice));
            proof {
                let t = self.poll_choices@;
                assert forall|a: int, b: int| 0 <= a < b < t.len() implies (#[trigger] t[a]).0 < (
                #[trigger] t[b]).0 by {
                    assert(t[a] == (if a < i as int {
                        s[a]
                    } else if a == i as int {
                        (key, choice)
                    } else {
                        s[a - 1]
                    }));
                    assert(t[b] == (if b < i as int {
                        s[b]
                    } else if b == i as int {
                        (key, choice)
                    } else {
                        s[b - 1]
                    }));
                }
                assert forall|a: int| 0 <= a < t.len() implies (#[trigger] t[a]).0
                    < self.next_id by {
                    assert(t[a] == (if a < i as int {
                        s[a]
                    } else if a == i as int {
                        (key, choice)
                    } else {
                        s[a - 1]
                    }));
                }
            }
        }
    }

    /// Drop the choice stored under `key`, if any.
    pub fn remove_choice(&mut self, key: usize)
        requires
            old(self).wf(),
        ensures
            final(self).wf(),
            final(self).headline == old(self).headline,
            final(self).next_id == old(self).next_id,
            (forall|i: int|
                0 <= i < old(self).poll_choices@.len() ==> (#[trigger] old(
                    self,
                ).poll_choices@[i]).0 != key) ==> final(self).poll_choices@ == old(
                self,
            ).poll_choices@,
            forall|i: int|
                (0 <= i < old(self).poll_choices@.len() && (#[trigger] old(
                    self,
                ).poll_choices@[i]).0 == key) ==> final(self).poll_choices@ == old(
                    self,
                ).poll_choices@.remove(i),
    {
        let ghost s = self.poll_choices@;
        let mut i: usize = 0;
        while i < self.poll_choices.len()
            invariant
                self == old(self),
                old(self).wf(),
                s == self.poll_choices@,
                i <= self.poll_choices@.len(),
                forall|m: int| 0 <= m < i ==> (#[trigger] self.poll_choices@[m]).0 != key,
            decreases self.poll_choices@.len() - i,
        {
            if self.poll_choices[i].0 == key {
                self.poll_choices.remove(i);
                proof {
                    let t = self.poll_choices@;
                    assert forall|a: int, b: int|
                        0 <= a < b < t.len() implies (#[trigger] t[a]).0 < (
                    #[trigger] t[b]).0 by {
                        assert(t[a] == (if a < i as int {
                            s[a]
                        } else {
                            s[a + 1]
                        }));
                        assert(t[b] == (if b < i as int {
                            s[b]
                        } else {
                            s[b + 1]
                        }));
                    }
                    assert forall|a: int| 0 <= a < t.len() implies (#[trigger] t[a]).0
                        < self.next_id by {
                        assert(t[a] == (if a < i as int {
                            s[a]
                        } else {
                            s[a + 1]
                        }));
                    }
                }
                return ;
            }
            i += 1;
        }
    }
}

impl Default for PageState {
    /// A fresh composer offering two empty choices.
    fn default() -> (r: Self)
        ensures
            r.headline@.len() == 0,
            r.poll_choices@.len() == 2,
            r.next_id == 2,
            r.wf(),
    {
        PageState::new()
    }
}

} // verus!
