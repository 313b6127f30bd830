//! The request handlers' decision logic.
//!
//! The handlers themselves run in the server: they read rows, hash
//! passwords, verify signatures and write files. Everything they decide or
//! assemble from those results is here, with contracts.

use vstd::prelude::*;

pub mod post;
pub mod user;

verus! {

/// The message answered when an image record is not a well-formed data URL.
pub const PARSE_ERR: &'static str =
    "Failed to parse image data url, it must be in a 'data:text/plain;base64' format";

/// Whether `pat` occurs in `s` starting at `i`.
pub open spec fn occurs_at(s: Seq<char>, pat: Seq<char>, i: int) -> bool {
    0 <= i && i + pat.len() <= s.len() && s.subrange(i, i + pat.len() as int) == pat
}

/// The first position where `pat` occurs in `s`, or minus one.
pub open spec fn find_sub(s: Seq<char>, pat: Seq<char>) -> int
    decreases s.len(),
    via find_sub_decreases
{
    if pat.len() > s.len() {
        -1
    } else if s.subrange(0, pat.len() as int) == pat {
        0
    } else {
        let rest = find_sub(s.subrange(1, s.len() as int), pat);
        if rest == -1 {
            -1
        } else {
            1 + rest
        }
    }
}

#[via_fn]
proof fn find_sub_decreases(s: Seq<char>, pat: Seq<char>) {
    if pat.len() <= s.len() && s.len() == 0 {
        assert(s.subrange(0, pat.len() as int) =~= pat);
    }
}

proof fn lemma_find_sub_found(s: Seq<char>, pat: Seq<char>, e: int)
    requires
        occurs_at(s, pat, e),
        forall|m: int| 0 <= m < e ==> !occurs_at(s, pat, m),
    ensures
        find_sub(s, pat) == e,
    decreases e,
{
    if e == 0 {
        assert(s.subrange(0, pat.len() as int) == pat);
    } else {
        let t = s.subrange(1, s.len() as int);
        assert(occurs_at(t, pat, e - 1)) by {
            assert(t.subrange(e - 1, e - 1 + pat.len() as int) =~= s.subrange(
                e,
                e + pat.len() as int,
            ));
        }
        assert forall|m: int| 0 <= m < e - 1 implies !occurs_at(t, pat, m) by {
            if occurs_at(t, pat, m) {
                assert(s.subrange(m + 1, m + 1 + pat.len() as int) =~= t.subrange(
                    m,
                    m + pat.len() as int,
                ));
                assert(occurs_at(s, pat, m + 1));
            }
        }
        lemma_find_sub_found(t, pat, e - 1);
        assert(!occurs_at(s, pat, 0));
        assert(s.subrange(0, pat.len() as int) != pat);
    }
}

proof fn lemma_find_sub_none(s: Seq<char>, pat: Seq<char>)
    requires
        forall|m: int| 0 <= m ==> !occurs_at(s, pat, m),
    ensures
        find_sub(s, pat) == -1,
    decreases s.len(),
{
    if pat.len() <= s.len() {
        assert(!occurs_at(s, pat, 0));
        assert(s.subrange(0, pat.len() as int) != pat);
        if s.len() == 0 {
            assert(s.subrange(0, pat.len() as int) =~= pat);
        } else {
            let t = s.subrange(1, s.len() as int);
            assert forall|m: int| 0 <= m implies !occurs_at(t, pat, m) by {
                if occurs_at(t, pat, m) {
                    assert(s.subrange(m + 1, m + 1 + pat.len() as int) =~= t.subrange(
                        m,
                        m + pat.len() as int,
                    ));
                    assert(occurs_at(s, pat, m + 1));
                }
            }
            lemma_find_sub_none(t, pat);
        }
    }
}

/// Whether `s[at..]` starts with `pat`.
fn matches_at(s: &str, n: usize, at: usize, pat: &str) -> (r: bool)
    requires
        n == s@.len(),
        at <= n,
    ensures
        r == occurs_at(s@, pat@, at as int),
{
    let pn = pat.unicode_len();
    if pn > n - at {
        return false;
    }
    let mut i: usize = 0;
    while i < pn
        invariant
            n == s@.len(),
            at + pn <= n,
            pn == pat@.len(),
            i <= pn,
            forall|m: int| 0 <= m < i ==> s@[at + m] == pat@[m],
        decreases pn - i,
    {
        if s.get_char(at + i) != pat.get_char(i) {
            assert(s@.subrange(at as int, at + pn as int)[i as int] != pat@[i as int]);
            return false;
        }
        i += 1;
    }
    assert(s@.subrange(at as int, at + pn as int) =~= pat@);
    true
}

/// The first position at or after `lo` where `pat` occurs in `s[..hi]`,
/// searching the range `lo..hi` only.
fn find_sub_in_range(s: &str, n: usize, lo: usize, hi: usize, pat: &str) -> (r: Option<usize>)
    requires
        n == s@.len(),
        lo <= hi <= n,
        pat@.len() >= 1,
    ensures
        match r {
            Some(d) => lo <= d && d as int + pat@.len() <= hi && find_sub(
                s@.subrange(lo as int, hi as int),
                pat@,
            ) == d - lo,
            None => find_sub(s@.subrange(lo as int, hi as int), pat@) == -1,
        },
{
    let ghost range = s@.subrange(lo as int, hi as int);
    let pn = pat.unicode_len();
    if pn > hi - lo {
        proof {
            lemma_find_sub_none(range, pat@);
        }
        return None;
    }
    let mut d = lo;
    while hi - d >= pn
        invariant
            n == s@.len(),
            lo <= hi <= n,
            pn == pat@.len(),
            1 <= pn,
            lo <= d <= hi,
            range == s@.subrange(lo as int, hi as int),
            forall|m: int| 0 <= m < d - lo ==> !occurs_at(range, pat@, m),
        decreases hi - d,
    {
        if matches_at(s, n, d, pat) {
            proof {
                assert(range.subrange(d - lo, d - lo + pn as int) =~= s@.subrange(
                    d as int,
                    d + pn as int,
                ));
                assert(occurs_at(range, pat@, d - lo));
                lemma_find_sub_found(range, pat@, d - lo);
            }
            return Some(d);
        }
        proof {
            assert(range.subrange(d - lo, d - lo + pn as int) =~= s@.subrange(
                d as int,
                d + pn as int,
            ));
            assert(!occurs_at(range, pat@, d - lo));
        }
        d += 1;
    }
    proof {
        assert forall|m: int| 0 <= m implies !occurs_at(range, pat@, m) by {
            if occurs_at(range, pat@, m) {
                assert(m < d - lo);
            }
        }
        lemma_find_sub_none(range, pat@);
    }
    None
}

/// What a stored image record parses to: the text is cut at its first
/// comma; the part before must carry `data:` and then `;base64`, and what
/// stands between them is the MIME type. The part after the comma is the
/// image data.
pub open spec fn data_url_parts(raw: Seq<char>) -> Option<(Seq<char>, Seq<char>)> {
    let k = crate::cookie::char_prefix_len(raw, ',');
    if k >= raw.len() {
        None
    } else {
        let header = raw.subrange(0, k);
        let d = find_sub(header, "data:"@);
        if d == -1 {
            None
        } else {
            let after = header.subrange(d + 5, header.len() as int);
            let b = find_sub(after, ";base64"@);
            if b == -1 {
                None
            } else {
                Some((raw.subrange(k + 1, raw.len() as int), after.subrange(0, b)))
            }
        }
    }
}

/// Cut a stored image record into its image data and its MIME type.
pub fn parse_img_data_url(raw: &str) -> (r: Option<(&str, &str)>)
    ensures
        match r {
            Some((image_data, mime_type)) => data_url_parts(raw@) == Some(
                (image_data@, mime_type@),
            ),
            None => data_url_parts(raw@) is None,
        },
{
    proof {
        reveal_strlit("data:");
        reveal_strlit(";base64");
    }
    let n = raw.unicode_len();
    let k = crate::cookie::find_char_from(raw, n, 0, ',');
    proof {
        crate::cookie::lemma_char_prefix_len_scan(raw@, ',', k as int);
    }
    if k == n {
        return None;
    }
    let ghost header = raw@.subrange(0, k as int);
    let d = match find_sub_in_range(raw, n, 0, k, "data:") {
        Some(d) => {
            proof {
                assert(header == raw@.subrange(0, k as int));
            }
            d
        },
        None => {
            return None;
        },
    };
    let ghost after = header.subrange(d + 5, header.len() as int);
    proof {
        assert(after =~= raw@.subrange(d + 5, k as int));
    }
    let b = match find_sub_in_range(raw, n, d + 5, k, ";base64") {
        Some(b) => b,
        None => {
            return None;
        },
    };
    let image_data = raw.substring_char(k + 1, n);
    let mime_type = raw.substring_char(d + 5, b);
    proof {
        assert(image_data@ =~= raw@.subrange(k as int + 1, raw@.len() as int));
        assert(after.subrange(0, b - (d + 5)) =~= mime_type@);
    }
    Some((image_data, mime_type))
}

} // verus!
