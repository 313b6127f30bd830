//! Reading values out of an HTTP `Cookie` header.
//!
//! A header is a list of `name=value` pairs separated by semicolons, with
//! optional spaces around each pair. The lookup returns the value of the
//! first pair whose name matches exactly.

use vstd::prelude::*;

verus! {

/// The cookie carrying the session identifier.
pub const SESSION_ID: &'static str = "session_id";

/// The cookie carrying the session signature.
pub const SESSION_SIGNATURE: &'static str = "session_signature";

/// The length of the prefix of `s` before the first `c` (all of `s` when
/// `c` does not occur).
pub open spec fn char_prefix_len(s: Seq<char>, c: char) -> int
    decreases s.len(),
{
    if s.len() == 0 {
        0
    } else if s[0] == c {
        0
    } else {
        1 + char_prefix_len(s.subrange(1, s.len() as int), c)
    }
}

pub proof fn lemma_char_prefix_len_bounds(s: Seq<char>, c: char)
    ensures
        0 <= char_prefix_len(s, c) <= s.len(),
    decreases s.len(),
{
    if s.len() > 0 && s[0] != c {
        lemma_char_prefix_len_bounds(s.subrange(1, s.len() as int), c);
    }
}

/// A scan that stopped at `e` found the first `c`.
pub proof fn lemma_char_prefix_len_scan(s: Seq<char>, c: char, e: int)
    requires
        0 <= e <= s.len(),
        forall|m: int| 0 <= m < e ==> s[m] != c,
        e < s.len() ==> s[e] == c,
    ensures
        char_prefix_len(s, c) == e,
    decreases e,
{
    if s.len() > 0 && s[0] != c {
        lemma_char_prefix_len_scan(s.subrange(1, s.len() as int), c, e - 1);
    }
}

/// `s` without its leading spaces.
pub open spec fn drop_leading_spaces(s: Seq<char>) -> Seq<char>
    decreases s.len(),
{
    if s.len() > 0 && s[0] == ' ' {
        drop_leading_spaces(s.subrange(1, s.len() as int))
    } else {
        s
    }
}

proof fn lemma_drop_leading_spaces_scan(s: Seq<char>, a: int)
    requires
        0 <= a <= s.len(),
        forall|m: int| 0 <= m < a ==> s[m] == ' ',
        a < s.len() ==> s[a] != ' ',
    ensures
        drop_leading_spaces(s) == s.subrange(a, s.len() as int),
    decreases a,
{
    if a == 0 {
        assert(s.subrange(0, s.len() as int) =~= s);
    } else {
        lemma_drop_leading_spaces_scan(s.subrange(1, s.len() as int), a - 1);
        assert(s.subrange(1, s.len() as int).subrange(a - 1, s.len() - 1) =~= s.subrange(
            a,
            s.len() as int,
        ));
    }
}

/// `s` without its trailing spaces.
pub open spec fn drop_trailing_spaces(s: Seq<char>) -> Seq<char>
    decreases s.len(),
{
    if s.len() > 0 && s.last() == ' ' {
        drop_trailing_spaces(s.drop_last())
    } else {
        s
    }
}

proof fn lemma_drop_trailing_spaces_scan(s: Seq<char>, b: int)
    requires
        0 <= b <= s.len(),
        forall|m: int| b <= m < s.len() ==> s[m] == ' ',
        b > 0 ==> s[b - 1] != ' ',
    ensures
        drop_trailing_spaces(s) == s.subrange(0, b),
    decreases s.len() - b,
{
    if b == s.len() {
        if s.len() > 0 && s.last() == ' ' {
        } else {
            assert(s.subrange(0, s.len() as int) =~= s);
        }
    } else {
        lemma_drop_trailing_spaces_scan(s.drop_last(), b);
        assert(s.drop_last().subrange(0, b) =~= s.subrange(0, b));
    }
}

/// `s` without leading and trailing spaces.
pub open spec fn trim_spaces(s: Seq<char>) -> Seq<char> {
    drop_trailing_spaces(drop_leading_spaces(s))
}

/// The value of the pair `seg`, when its name is `name`: `seg` is trimmed,
/// cut at its first `=`, and the part before the cut must equal `name`.
/// A pair without `=` has no value.
pub open spec fn pair_value(seg: Seq<char>, name: Seq<char>) -> Option<Seq<char>> {
    let t = trim_spaces(seg);
    let q = char_prefix_len(t, '=');
    if q == t.len() {
        None
    } else if t.subrange(0, q) == name {
        Some(t.subrange(q + 1, t.len() as int))
    } else {
        None
    }
}

/// The value of the first pair of `header` named `name`, searching the
/// semicolon-separated pairs from the left.
pub open spec fn cookie_value(header: Seq<char>, name: Seq<char>) -> Option<Seq<char>>
    decreases header.len(),
    via cookie_value_decreases
{
    let k = char_prefix_len(header, ';');
    let found = pair_value(header.subrange(0, k), name);
    if found is Some {
        found
    } else if k >= header.len() {
        None
    } else {
        cookie_value(header.subrange(k + 1, header.len() as int), name)
    }
}

#[via_fn]
proof fn cookie_value_decreases(header: Seq<char>, name: Seq<char>) {
    lemma_char_prefix_len_bounds(header, ';');
}

/// A header carrying exactly two pairs, written the way the service writes
/// its cookies: `n1=v1; n2=v2`.
pub open spec fn two_pair_header(
    n1: Seq<char>,
    v1: Seq<char>,
    n2: Seq<char>,
    v2: Seq<char>,
) -> Seq<char> {
    n1 + seq!['='] + v1 + seq![';', ' '] + n2 + seq!['='] + v2
}

/// A cookie name may not carry the separators of the header syntax.
pub open spec fn plain_cookie_name(n: Seq<char>) -> bool {
    &&& n.len() > 0
    &&& forall|i: int| 0 <= i < n.len() ==> n[i] != ';' && n[i] != '=' && n[i] != ' '
}

/// A written cookie value may not carry a semicolon or a space; it may
/// carry `=`.
pub open spec fn plain_cookie_value(v: Seq<char>) -> bool {
    forall|i: int| 0 <= i < v.len() ==> v[i] != ';' && v[i] != ' '
}

/// Writing two cookies and looking each up reads back exactly what was
/// written, for any names and values free of the separator characters.
pub proof fn lemma_two_pair_header_lookup(
    n1: Seq<char>,
    v1: Seq<char>,
    n2: Seq<char>,
    v2: Seq<char>,
)
    requires
        plain_cookie_name(n1),
        plain_cookie_name(n2),
        plain_cookie_value(v1),
        plain_cookie_value(v2),
        n1 != n2,
    ensures
        cookie_value(two_pair_header(n1, v1, n2, v2), n1) == Some(v1),
        cookie_value(two_pair_header(n1, v1, n2, v2), n2) == Some(v2),
{
    let h = two_pair_header(n1, v1, n2, v2);
    let a = n1.len() + 1 + v1.len() as int;

    // The first pair runs to the semicolon after `v1`.
    assert(h[a] == ';');
    assert forall|m: int| 0 <= m < a implies h[m] != ';' by {
        if m < n1.len() {
            assert(h[m] == n1[m]);
        } else if m == n1.len() {
            assert(h[m] == '=');
        } else {
            assert(h[m] == v1[m - n1.len() - 1]);
        }
    }
    lemma_char_prefix_len_scan(h, ';', a);

    let seg = h.subrange(0, a);
    assert(seg =~= n1 + seq!['='] + v1);

    // The first pair needs no trimming: it neither starts nor ends with a
    // space.
    assert(seg[0] == n1[0]);
    lemma_drop_leading_spaces_scan(seg, 0);
    assert(seg[a - 1] != ' ') by {
        if v1.len() == 0 {
            assert(seg[a - 1] == '=');
        } else {
            assert(seg[a - 1] == v1[v1.len() - 1]);
        }
    }
    lemma_drop_trailing_spaces_scan(seg, a);
    assert(trim_spaces(seg) == seg);

    // The pair cuts at the `=` after `n1`.
    assert(seg[n1.len() as int] == '=');
    assert forall|m: int| 0 <= m < n1.len() implies seg[m] != '=' by {
        assert(seg[m] == n1[m]);
    }
    lemma_char_prefix_len_scan(seg, '=', n1.len() as int);
    assert(seg.subrange(0, n1.len() as int) =~= n1);
    assert(seg.subrange(n1.len() as int + 1, seg.len() as int) =~= v1);
    assert(pair_value(seg, n1) == Some(v1));
    assert(cookie_value(h, n1) == Some(v1));

    // Looking up `n2` passes over the first pair and lands on the second.
    assert(seg.subrange(0, n1.len() as int) != n2);
    assert(pair_value(seg, n2) is None);
    let rest = h.subrange(a + 1, h.len() as int);
    assert(cookie_value(h, n2) == cookie_value(rest, n2));
    assert(rest =~= seq![' '] + n2 + seq!['='] + v2);

    let b = rest.len() as int;
    assert forall|m: int| 0 <= m < b implies rest[m] != ';' by {
        if m == 0 {
            assert(rest[m] == ' ');
        } else if m <= n2.len() {
            assert(rest[m] == n2[m - 1]);
        } else if m == n2.len() + 1 {
            assert(rest[m] == '=');
        } else {
            assert(rest[m] == v2[m - n2.len() - 2]);
        }
    }
    lemma_char_prefix_len_scan(rest, ';', b);
    let seg2 = rest.subrange(0, b);
    assert(seg2 =~= rest);

    // The second pair is trimmed of the one leading space.
    assert(seg2[0] == ' ' && seg2[1] == n2[0]);
    lemma_drop_leading_spaces_scan(seg2, 1);
    let led = seg2.subrange(1, b);
    assert(led =~= n2 + seq!['='] + v2);
    assert(led[led.len() - 1] != ' ') by {
        if v2.len() == 0 {
            assert(led[led.len() - 1] == '=');
        } else {
            assert(led[led.len() - 1] == v2[v2.len() - 1]);
        }
    }
    lemma_drop_trailing_spaces_scan(led, led.len() as int);
    assert(led.subrange(0, led.len() as int) =~= led);
    assert(trim_spaces(seg2) == led);

    assert(led[n2.len() as int] == '=');
    assert forall|m: int| 0 <= m < n2.len() implies led[m] != '=' by {
        assert(led[m] == n2[m]);
    }
    lemma_char_prefix_len_scan(led, '=', n2.len() as int);
    assert(led.subrange(0, n2.len() as int) =~= n2);
    assert(led.subrange(n2.len() as int + 1, led.len() as int) =~= v2);
    assert(pair_value(seg2, n2) == Some(v2));
    assert(cookie_value(rest, n2) == Some(v2));
}

/// The position of the first `c` in `s` at or after `from` (the length of
/// `s` when there is none).
pub fn find_char_from(s: &str, n: usize, from: usize, c: char) -> (r: usize)
    requires
        n == s@.len(),
        from <= n,
    ensures
        from <= r <= n,
        forall|m: int| from <= m < r ==> s@[m] != c,
        r < n ==> s@[r as int] == c,
{
    let mut i = from;
    while i < n && s.get_char(i) != c
        invariant
            n == s@.len(),
            from <= i <= n,
            forall|m: int| from <= m < i ==> s@[m] != c,
        decreases n - i,
    {
        i += 1;
    }
    i
}

/// Whether `s[a..b]` spells exactly `t`.
fn str_range_eq(s: &str, a: usize, b: usize, t: &str) -> (r: bool)
    requires
        a <= b <= s@.len(),
    ensures
        r == (s@.subrange(a as int, b as int) == t@),
{
    let tn = t.unicode_len();
    if b - a != tn {
        return false;
    }
    let mut i: usize = 0;
    while i < tn
        invariant
            a <= b <= s@.len(),
            b - a == tn == t@.len(),
            i <= tn,
            forall|m: int| 0 <= m < i ==> s@[a + m] == t@[m],
        decreases tn - i,
    {
        if s.get_char(a + i) != t.get_char(i) {
            assert(s@.subrange(a as int, b as int)[i as int] != t@[i as int]);
            return false;
        }
        i += 1;
    }
    assert(s@.subrange(a as int, b as int) =~= t@);
    true
}

/// Look up the cookie called `name` in the `Cookie` header `cookies`.
pub fn get_from_str<'a>(cookies: &'a str, name: &str) -> (r: Option<&'a str>)
    ensures
        match r {
            Some(v) => cookie_value(cookies@, name@) == Some(v@),
            None => cookie_value(cookies@, name@) is None,
        },
{
    let n = cookies.unicode_len();
    proof {
        assert(cookies@.subrange(0, n as int) =~= cookies@);
    }
    let mut st: usize = 0;
    loop
        invariant
            n == cookies@.len(),
            st <= n,
            cookie_value(cookies@, name@) == cookie_value(
                cookies@.subrange(st as int, n as int),
                name@,
            ),
        decreases n - st,
    {
        let ghost rest = cookies@.subrange(st as int, n as int);

        // The current pair runs to the next semicolon.
        let e = find_char_from(cookies, n, st, ';');
        proof {
            assert forall|m: int| 0 <= m < e - st implies rest[m] != ';' by {
                assert(rest[m] == cookies@[st + m]);
            }
            lemma_char_prefix_len_scan(rest, ';', e - st);
        }
        let ghost seg = rest.subrange(0, e - st);
        proof {
            assert(seg =~= cookies@.subrange(st as int, e as int));
        }

        // Trim the pair: `a` is its first non-space, `b` follows its last.
        let mut a = st;
        while a < e && cookies.get_char(a) == ' '
            invariant
                n == cookies@.len(),
                st <= a <= e <= n,
                forall|m: int| st <= m < a ==> cookies@[m] == ' ',
            decreases e - a,
        {
            a += 1;
        }
        let mut b = e;
        while b > a && cookies.get_char(b - 1) == ' '
            invariant
                n == cookies@.len(),
                a <= b <= e <= n,
                forall|m: int| b <= m < e ==> cookies@[m] == ' ',
            decreases b,
        {
            b -= 1;
        }
        let ghost trimmed = cookies@.subrange(a as int, b as int);
        proof {
            assert forall|m: int| 0 <= m < a - st implies seg[m] == ' ' by {
                assert(seg[m] == cookies@[st + m]);
            }
            lemma_drop_leading_spaces_scan(seg, a - st);
            let led = seg.subrange(a - st, seg.len() as int);
            assert(led =~= cookies@.subrange(a as int, e as int));
            assert forall|m: int| b - a <= m < led.len() implies led[m] == ' ' by {
                assert(led[m] == cookies@[a + m]);
            }
            lemma_drop_trailing_spaces_scan(led, b - a);
            assert(led.subrange(0, b - a) =~= trimmed);
            assert(trim_spaces(seg) == trimmed);
        }

        // Cut the trimmed pair at its first `=` and compare the name.
        let q = find_char_from(cookies, n, a, '=');
        if q < b {
            proof {
                assert forall|m: int| 0 <= m < q - a implies trimmed[m] != '=' by {
                    assert(trimmed[m] == cookies@[a + m]);
                }
                lemma_char_prefix_len_scan(trimmed, '=', q - a);
            }
            if str_range_eq(cookies, a, q, name) {
                proof {
                    assert(trimmed.subrange(0, q - a) =~= cookies@.subrange(a as int, q as int));
                    assert(pair_value(seg, name@) == Some(
                        trimmed.subrange(q - a + 1, trimmed.len() as int),
                    ));
                }
                let v = cookies.substring_char(q + 1, b);
                proof {
                    assert(trimmed.subrange(q - a + 1, trimmed.len() as int) =~= v@);
                }
                return Some(v);
            }
            proof {
                assert(trimmed.subrange(0, q - a) =~= cookies@.subrange(a as int, q as int));
                assert(pair_value(seg, name@) is None);
            }
        } else {
            proof {
                assert forall|m: int| 0 <= m < trimmed.len() implies trimmed[m] != '=' by {
                    assert(trimmed[m] == cookies@[a + m]);
                }
                lemma_char_prefix_len_scan(trimmed, '=', b - a);
                assert(pair_value(seg, name@) is None);
            }
        }

        // No match in this pair; move past the semicolon, or give up at the
        // end of the header.
        if e == n {
            return None;
        }
        proof {
            assert(rest.subrange(e - st + 1, rest.len() as int) =~= cookies@.subrange(
                e + 1,
                n as int,
            ));
        }
        st = e + 1;
    }
}

} // verus!
