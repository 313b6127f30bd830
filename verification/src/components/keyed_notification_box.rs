//! The notifications a form shows, each stored under a key.
//!
//! A notification is set and cleared under its key (say, one key per input
//! field); the box lists the messages of all notifications currently set.

use vstd::prelude::*;

verus! {

/// The entries of `s` whose key is not `k`, in order.
pub open spec fn without_key(s: Seq<(Seq<char>, Seq<char>)>, k: Seq<char>) -> Seq<
    (Seq<char>, Seq<char>),
> {
    s.filter(|p: (Seq<char>, Seq<char>)| p.0 != k)
}

/// Form notifications keyed by strings. Setting a key replaces its
/// message; the view is the sequence of key-message pairs in the order the
/// keys were last set.
#[derive(Debug)]
pub struct KeyedNotifications {
    entries: Vec<(String, String)>,
}

impl View for KeyedNotifications {
    type V = Seq<(Seq<char>, Seq<char>)>;

    closed spec fn view(&self) -> Seq<(Seq<char>, Seq<char>)> {
        Seq::new(self.entries@.len(), |i: int| (self.entries@[i].0@, self.entries@[i].1@))
    }
}

impl KeyedNotifications {
    /// An empty box.
    pub fn new() -> (r: Self)
        ensures
            r@ =~= Seq::<(Seq<char>, Seq<char>)>::empty(),
    {
        KeyedNotifications { entries: Vec::new() }
    }

    /// Set the notification under `k` to `v`, replacing any notification
    /// the key had and moving it behind the others.
    pub fn set(&mut self, k: &str, v: &str)
        ensures
            final(self)@ == without_key(old(self)@, k@).push((k@, v@)),
    {
        self.remove(k);
        self.entries.push((k.to_owned(), v.to_owned()));
        proof {
            assert(self@ =~= without_key(old(self)@, k@).push((k@, v@)));
        }
    }

    /// Clear the notification under `k`, if one is set.
    pub fn remove(&mut self, k: &str)
        ensures
            final(self)@ == without_key(old(self)@, k@),
    {
        let k_owned: String = k.to_owned();
        let mut kept: Vec<(String, String)> = Vec::new();
        let mut i: usize = 0;
        while i < self.entries.len()
            invariant
                i <= self.entries@.len(),
                self == old(self),
                k_owned@ == k@,
                Seq::new(kept@.len(), |m: int| (kept@[m].0@, kept@[m].1@)) == without_key(
                    old(self)@.subrange(0, i as int),
                    k@,
                ),
            decreases self.entries@.len() - i,
        {
            let ghost seen = old(self)@.subrange(0, i as int);
            let ghost seen_next = old(self)@.subrange(0, i as int + 1);
            proof {
                reveal(Seq::filter);
                assert(seen_next.drop_last() =~= seen);
                assert(seen_next.last() == old(self)@[i as int]);
            }
            let entry = &self.entries[i];
            if !(entry.0 == k_owned) {
                kept.push((entry.0.clone(), entry.1.clone()));
            }
            proof {
                assert(Seq::new(kept@.len(), |m: int| (kept@[m].0@, kept@[m].1@)) =~= without_key(
                    seen_next,
                    k@,
                ));
            }
            i += 1;
        }
        proof {
            assert(old(self)@.subrange(0, self.entries@.len() as int) =~= old(self)@);
        }
        self.entries = kept;
        proof {
            assert(self@ =~= Seq::new(
                self.entries@.len(),
                |m: int| (self.entries@[m].0@, self.entries@[m].1@),
            ));
        }
    }

    /// The messages of the notifications now set, in order.
    pub fn messages(&self) -> (r: Vec<String>)
        ensures
            r@.len() == self@.len(),
            forall|i: int| 0 <= i < r@.len() ==> (#[trigger] r@[i])@ == self@[i].1,
    {
        let mut out: Vec<String> = Vec::new();
        let mut i: usize = 0;
        while i < self.entries.len()
            invariant
                i <= self.entries@.len(),
                out@.len() == i,
                forall|m: int| 0 <= m < i ==> (#[trigger] out@[m])@ == self@[m].1,
            decreases self.entries@.len() - i,
        {
            out.push(self.entries[i].1.clone());
            i += 1;
        }
        out
    }

    /// Whether any notification is set.
    pub fn has_messages(&self) -> (r: bool)
        ensures
            r == (self@.len() != 0),
    {
        self.entries.len() > 0
    }
}

impl Clone for KeyedNotifications {
    fn clone(&self) -> (r: Self)
        ensures
            r@ == self@,
    {
        let mut entries: Vec<(String, String)> = Vec::new();
        let mut i: usize = 0;
        while i < self.entries.len()
            invariant
                i <= self.entries@.len(),
                entries@.len() == i,
                forall|m: int| 0 <= m < i ==> #[trigger] entries@[m] == self.entries@[m],
            decreases self.entries@.len() - i,
        {
            entries.push((self.entries[i].0.clone(), self.entries[i].1.clone()));
            i += 1;
        }
        let r = KeyedNotifications { entries };
        proof {
            assert(r@ =~= self@);
        }
        r
    }
}

impl Default for KeyedNotifications {
    /// An empty box.
    fn default() -> (r: Self)
        ensures
            r@ =~= Seq::<(Seq<char>, Seq<char>)>::empty(),
    {
        KeyedNotifications::new()
    }
}

} // verus!
