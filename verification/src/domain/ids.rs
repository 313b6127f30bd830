//! Identifier types backed by 128-bit UUID values.
//!
//! An identifier is a 128-bit value, written and read in the usual UUID
//! text forms: the hyphenated form (`8-4-4-4-12` hexadecimal digits) and
//! the simple form (32 digits). Fresh identifiers are drawn from the
//! `uuid` crate's version-4 generator.

use vstd::arithmetic::div_mod::{
    lemma_basic_div, lemma_div_denominator, lemma_fundamental_div_mod,
};
use vstd::prelude::*;

verus! {

/// Sixteen to the power `k` (one for a non-positive `k`).
pub open spec fn pow16(k: int) -> int
    decreases k,
{
    if k <= 0 {
        1
    } else {
        16 * pow16(k - 1)
    }
}

pub proof fn lemma_pow16_pos(k: int)
    ensures
        pow16(k) >= 1,
    decreases k,
{
    if k > 0 {
        lemma_pow16_pos(k - 1);
    }
}

pub proof fn lemma_pow16_increases(a: int, b: int)
    requires
        a <= b,
    ensures
        pow16(a) <= pow16(b),
    decreases b - a,
{
    if a < b {
        lemma_pow16_increases(a, b - 1);
        lemma_pow16_pos(b - 1);
    }
}

/// The whole 128-bit range is exactly thirty-two hexadecimal digits.
pub proof fn lemma_pow16_32()
    ensures
        pow16(32) == 0x100000000000000000000000000000000,
{
    reveal_with_fuel(pow16, 33);
}

/// Digit `i` of `v`, counting from the most significant of thirty-two.
pub open spec fn uuid_nibble(v: u128, i: int) -> int {
    (v as int / pow16(31 - i)) % 16
}

/// The lower-case hexadecimal digit with value `n`.
pub open spec fn hex_char(n: int) -> char {
    if n == 0 {
        '0'
    } else if n == 1 {
        '1'
    } else if n == 2 {
        '2'
    } else if n == 3 {
        '3'
    } else if n == 4 {
        '4'
    } else if n == 5 {
        '5'
    } else if n == 6 {
        '6'
    } else if n == 7 {
        '7'
    } else if n == 8 {
        '8'
    } else if n == 9 {
        '9'
    } else if n == 10 {
        'a'
    } else if n == 11 {
        'b'
    } else if n == 12 {
        'c'
    } else if n == 13 {
        'd'
    } else if n == 14 {
        'e'
    } else {
        'f'
    }
}

/// The value of a hexadecimal digit, upper or lower case, or minus one.
pub open spec fn hex_val(c: char) -> int {
    if 0x30 <= c as int <= 0x39 {
        c as int - 0x30
    } else if 0x61 <= c as int <= 0x66 {
        c as int - 0x57
    } else if 0x41 <= c as int <= 0x46 {
        c as int - 0x37
    } else {
        -1
    }
}

pub open spec fn is_hex_char(c: char) -> bool {
    hex_val(c) != -1
}

/// The hyphen positions of the hyphenated UUID form.
pub open spec fn uuid_hyphen_pos(i: int) -> bool {
    i == 8 || i == 13 || i == 18 || i == 23
}

/// For a character position of the hyphenated form, which of the
/// thirty-two digits stands there.
pub open spec fn uuid_digit_index(i: int) -> int {
    if i < 8 {
        i
    } else if i < 13 {
        i - 1
    } else if i < 18 {
        i - 2
    } else if i < 23 {
        i - 3
    } else {
        i - 4
    }
}

/// For one of the thirty-two digits, its character position in the
/// hyphenated form.
pub open spec fn uuid_char_index(j: int) -> int {
    if j < 8 {
        j
    } else if j < 12 {
        j + 1
    } else if j < 16 {
        j + 2
    } else if j < 20 {
        j + 3
    } else {
        j + 4
    }
}

/// The canonical hyphenated lower-case text of `v`.
pub open spec fn uuid_hyphenated(v: u128) -> Seq<char> {
    Seq::new(
        36,
        |i: int|
            if uuid_hyphen_pos(i) {
                '-'
            } else {
                hex_char(uuid_nibble(v, uuid_digit_index(i)))
            },
    )
}

/// Whether `s` is the simple UUID form: thirty-two hexadecimal digits.
pub open spec fn uuid_simple_form(s: Seq<char>) -> bool {
    s.len() == 32 && forall|i: int| 0 <= i < 32 ==> is_hex_char(#[trigger] s[i])
}

/// Whether `s` is the hyphenated UUID form.
pub open spec fn uuid_hyphenated_form(s: Seq<char>) -> bool {
    &&& s.len() == 36
    &&& forall|i: int|
        0 <= i < 36 ==> (if uuid_hyphen_pos(i) {
            s[i] == '-'
        } else {
            is_hex_char(#[trigger] s[i])
        })
}

/// The thirty-two digits of a hyphenated form, hyphens removed.
pub open spec fn uuid_strip_hyphens(s: Seq<char>) -> Seq<char> {
    Seq::new(32, |j: int| s[uuid_char_index(j)])
}

/// The value of a sequence of hexadecimal digits, most significant first.
pub open spec fn hex_value(digits: Seq<char>) -> int
    decreases digits.len(),
{
    if digits.len() == 0 {
        0
    } else {
        16 * hex_value(digits.drop_last()) + hex_val(digits.last())
    }
}

/// The value read from either accepted UUID text form.
pub open spec fn uuid_parsed_value(s: Seq<char>) -> int {
    if s.len() == 36 {
        hex_value(uuid_strip_hyphens(s))
    } else {
        hex_value(s)
    }
}

/// The lower-case digit with value `n`, as a one-character string.
fn hex_digit_str(n: u8) -> (r: &'static str)
    requires
        n < 16,
    ensures
        r@ == seq![hex_char(n as int)],
{
    proof {
        reveal_strlit("0");
        reveal_strlit("1");
        reveal_strlit("2");
        reveal_strlit("3");
        reveal_strlit("4");
        reveal_strlit("5");
        reveal_strlit("6");
        reveal_strlit("7");
        reveal_strlit("8");
        reveal_strlit("9");
        reveal_strlit("a");
        reveal_strlit("b");
        reveal_strlit("c");
        reveal_strlit("d");
        reveal_strlit("e");
        reveal_strlit("f");
        assert("0"@ =~= seq![hex_char(0)]);
        assert("1"@ =~= seq![hex_char(1)]);
        assert("2"@ =~= seq![hex_char(2)]);
        assert("3"@ =~= seq![hex_char(3)]);
        assert("4"@ =~= seq![hex_char(4)]);
        assert("5"@ =~= seq![hex_char(5)]);
        assert("6"@ =~= seq![hex_char(6)]);
        assert("7"@ =~= seq![hex_char(7)]);
        assert("8"@ =~= seq![hex_char(8)]);
        assert("9"@ =~= seq![hex_char(9)]);
        assert("a"@ =~= seq![hex_char(10)]);
        assert("b"@ =~= seq![hex_char(11)]);
        assert("c"@ =~= seq![hex_char(12)]);
        assert("d"@ =~= seq![hex_char(13)]);
        assert("e"@ =~= seq![hex_char(14)]);
        assert("f"@ =~= seq![hex_char(15)]);
    }
    match n {
        0 => "0",
        1 => "1",
        2 => "2",
        3 => "3",
        4 => "4",
        5 => "5",
        6 => "6",
        7 => "7",
        8 => "8",
        9 => "9",
        10 => "a",
        11 => "b",
        12 => "c",
        13 => "d",
        14 => "e",
        _ => "f",
    }
}

/// The value of a hexadecimal digit character, upper or lower case.
fn hex_digit_val(c: char) -> (r: Option<u8>)
    ensures
        match r {
            Some(d) => is_hex_char(c) && d as int == hex_val(c),
            None => !is_hex_char(c),
        },
{
    let u = c as u32;
    if 0x30 <= u && u <= 0x39 {
        Some((u - 0x30) as u8)
    } else if 0x61 <= u && u <= 0x66 {
        Some((u - 0x57) as u8)
    } else if 0x41 <= u && u <= 0x46 {
        Some((u - 0x37) as u8)
    } else {
        None
    }
}

/// Write `v` in the canonical hyphenated lower-case form.
pub fn uuid_to_string(v: u128) -> (r: String)
    ensures
        r@ == uuid_hyphenated(v),
{
    // The digit of weight `16^k`, for each `k`, found by repeated division.
    let mut low_digits: Vec<u8> = Vec::new();
    let mut rem: u128 = v;
    let mut k: usize = 0;
    while k < 32
        invariant
            k <= 32,
            low_digits@.len() == k,
            rem as int == v as int / pow16(k as int),
            forall|m: int|
                0 <= m < k ==> #[trigger] low_digits@[m] as int == uuid_nibble(v, 31 - m),
        decreases 32 - k,
    {
        let d = (rem % 16) as u8;
        low_digits.push(d);
        proof {
            lemma_pow16_pos(k as int);
            lemma_div_denominator(v as int, pow16(k as int), 16);
        }
        rem = rem / 16;
        k += 1;
    }

    let mut s = String::new();
    let mut i: usize = 0;
    while i < 36
        invariant
            i <= 36,
            low_digits@.len() == 32,
            forall|m: int|
                0 <= m < 32 ==> #[trigger] low_digits@[m] as int == uuid_nibble(v, 31 - m),
            s@ =~= uuid_hyphenated(v).subrange(0, i as int),
        decreases 36 - i,
    {
        if i == 8 || i == 13 || i == 18 || i == 23 {
            s.append("-");
            proof {
                reveal_strlit("-");
            }
        } else {
            let di = if i < 8 {
                i
            } else if i < 13 {
                i - 1
            } else if i < 18 {
                i - 2
            } else if i < 23 {
                i - 3
            } else {
                i - 4
            };
            let nib = low_digits[31 - di];
            assert(nib as int == uuid_nibble(v, di as int));
            s.append(hex_digit_str(nib));
        }
        i += 1;
        assert(s@ =~= uuid_hyphenated(v).subrange(0, i as int));
    }
    assert(s@ =~= uuid_hyphenated(v));
    s
}

/// Read a UUID value from its hyphenated or simple text form.
pub fn parse_uuid(s: &str) -> (r: Option<u128>)
    ensures
        match r {
            Some(v) => (uuid_simple_form(s@) || uuid_hyphenated_form(s@)) && v as int
                == uuid_parsed_value(s@),
            None => !uuid_simple_form(s@) && !uuid_hyphenated_form(s@),
        },
{
    let n = s.unicode_len();
    if n == 32 {
        let mut v: u128 = 0;
        let mut j: usize = 0;
        while j < 32
            invariant
                n == s@.len() == 32,
                j <= 32,
                forall|m: int| 0 <= m < j ==> is_hex_char(#[trigger] s@[m]),
                v as int == hex_value(s@.subrange(0, j as int)),
                (v as int) < pow16(j as int),
            decreases 32 - j,
        {
            let c = s.get_char(j);
            match hex_digit_val(c) {
                Some(d) => {
                    proof {
                        lemma_pow16_increases(j as int + 1, 32);
                        lemma_pow16_32();
                        assert(s@.subrange(0, j as int + 1).drop_last() =~= s@.subrange(
                            0,
                            j as int,
                        ));
                    }
                    v = v * 16 + (d as u128);
                },
                None => {
                    return None;
                },
            }
            j += 1;
        }
        assert(s@.subrange(0, 32) =~= s@);
        Some(v)
    } else if n == 36 {
        if !(s.get_char(8) == '-' && s.get_char(13) == '-' && s.get_char(18) == '-' && s.get_char(
            23,
        ) == '-') {
            return None;
        }
        let mut v: u128 = 0;
        let mut j: usize = 0;
        while j < 32
            invariant
                n == s@.len() == 36,
                s@[8] == '-' && s@[13] == '-' && s@[18] == '-' && s@[23] == '-',
                j <= 32,
                forall|m: int|
                    0 <= m < j ==> is_hex_char(#[trigger] s@[uuid_char_index(m)]),
                v as int == hex_value(uuid_strip_hyphens(s@).subrange(0, j as int)),
                (v as int) < pow16(j as int),
            decreases 32 - j,
        {
            let pos = if j < 8 {
                j
            } else if j < 12 {
                j + 1
            } else if j < 16 {
                j + 2
            } else if j < 20 {
                j + 3
            } else {
                j + 4
            };
            let c = s.get_char(pos);
            match hex_digit_val(c) {
                Some(d) => {
                    proof {
                        lemma_pow16_increases(j as int + 1, 32);
                        lemma_pow16_32();
                        assert(uuid_strip_hyphens(s@).subrange(0, j as int + 1).drop_last()
                            =~= uuid_strip_hyphens(s@).subrange(0, j as int));
                        assert(uuid_strip_hyphens(s@)[j as int] == s@[uuid_char_index(j as int)]);
                    }
                    v = v * 16 + (d as u128);
                },
                None => {
                    assert(!uuid_hyphenated_form(s@)) by {
                        assert(!is_hex_char(s@[uuid_char_index(j as int)]));
                        assert(!uuid_hyphen_pos(uuid_char_index(j as int)));
                    };
                    return None;
                },
            }
            j += 1;
        }
        assert(uuid_strip_hyphens(s@).subrange(0, 32) =~= uuid_strip_hyphens(s@));
        assert(uuid_hyphenated_form(s@)) by {
            assert(forall|i: int|
                0 <= i < 36 && !uuid_hyphen_pos(i) ==> is_hex_char(#[trigger] s@[i])) by {
                assert(forall|i: int|
                    0 <= i < 36 && !uuid_hyphen_pos(i) ==> uuid_char_index(uuid_digit_index(i))
                        == i && 0 <= uuid_digit_index(i) < 32);
            };
        };
        Some(v)
    } else {
        None
    }
}

/// The first `j` digits of `v` read back the top `j` nibbles of `v`.
proof fn lemma_hex_value_of_nibbles(v: u128, j: int)
    requires
        0 <= j <= 32,
    ensures
        hex_value(Seq::new(j as nat, |m: int| hex_char(uuid_nibble(v, m)))) == v as int / pow16(
            32 - j,
        ),
    decreases j,
{
    if j == 0 {
        lemma_pow16_32();
        lemma_basic_div(v as int, pow16(32));
    } else {
        let s = Seq::new(j as nat, |m: int| hex_char(uuid_nibble(v, m)));
        lemma_hex_value_of_nibbles(v, j - 1);
        assert(s.drop_last() =~= Seq::new((j - 1) as nat, |m: int| hex_char(uuid_nibble(v, m))));
        let nb = uuid_nibble(v, j - 1);
        lemma_pow16_pos(32 - j);
        assert(0 <= nb < 16);
        assert(hex_val(hex_char(nb)) == nb);
        let a = v as int / pow16(32 - j);
        lemma_div_denominator(v as int, pow16(32 - j), 16);
        assert(a / 16 == v as int / pow16(33 - j));
        lemma_fundamental_div_mod(a, 16);
    }
}

/// Writing a value and reading the text back gives the value again: the
/// hyphenated text of `v` is well formed and parses to `v`.
pub proof fn lemma_uuid_round_trip(v: u128)
    ensures
        uuid_hyphenated_form(uuid_hyphenated(v)),
        uuid_parsed_value(uuid_hyphenated(v)) == v as int,
{
    let h = uuid_hyphenated(v);
    assert forall|i: int| 0 <= i < 36 && !uuid_hyphen_pos(i) implies is_hex_char(
        #[trigger] h[i],
    ) by {
        let nb = uuid_nibble(v, uuid_digit_index(i));
        lemma_pow16_pos(31 - uuid_digit_index(i));
        assert(0 <= nb < 16);
        assert(hex_val(hex_char(nb)) == nb);
    };
    assert(uuid_strip_hyphens(h) =~= Seq::new(32, |m: int| hex_char(uuid_nibble(v, m))));
    lemma_hex_value_of_nibbles(v, 32);
    assert(v as int / pow16(0) == v as int);
}

/// Relies on `uuid::Uuid::new_v4`: a fresh random UUID whose version
/// digit (the thirteenth of thirty-two) is four. Nothing else is assumed
/// of the result; two calls may return anything.
#[verifier::external_body]
fn random_uuid_v4() -> (r: u128)
    ensures
        uuid_nibble(r, 12) == 4,
{
    uuid::Uuid::new_v4().as_u128()
}

/// Why an identifier could not be read from text.
#[derive(Clone, Copy, Debug, PartialEq, Eq, Structural)]
pub enum IdErr {
    Parse,
}

impl IdErr {
    /// The message shown for this error.
    pub fn message(&self) -> (r: &'static str)
        ensures
            r@ == "failed to parse ID"@,
    {
        "failed to parse ID"
    }
}

/// The identity of a user.
#[derive(Clone, Copy, Debug, Hash, PartialEq, Eq, Structural)]
pub struct UserId {
    value: u128,
}

impl View for UserId {
    type V = u128;

    closed spec fn view(&self) -> u128 {
        self.value
    }
}

impl UserId {
    /// A fresh random identifier.
    pub fn new() -> (r: Self)
        ensures
            uuid_nibble(r@, 12) == 4,
    {
        UserId { value: random_uuid_v4() }
    }

    /// The identifier holding exactly `value`.
    pub fn from_u128(value: u128) -> (r: Self)
        ensures
            r@ == value,
    {
        UserId { value }
    }

    /// The identifier's value.
    pub fn as_u128(&self) -> (r: u128)
        ensures
            r == self@,
    {
        self.value
    }

    /// Give the value back up.
    pub fn into_inner(self) -> (r: u128)
        ensures
            r == self@,
    {
        self.value
    }

    /// The canonical hyphenated text of the identifier.
    pub fn to_string(&self) -> (r: String)
        ensures
            r@ == uuid_hyphenated(self@),
    {
        uuid_to_string(self.value)
    }

    /// Read an identifier from its hyphenated or simple text form.
    pub fn from_str(s: &str) -> (r: Result<Self, IdErr>)
        ensures
            match r {
                Ok(id) => (uuid_simple_form(s@) || uuid_hyphenated_form(s@)) && id@ as int
                    == uuid_parsed_value(s@),
                Err(e) => !uuid_simple_form(s@) && !uuid_hyphenated_form(s@) && e == IdErr::Parse,
            },
    {
        match parse_uuid(s) {
            Some(v) => Ok(UserId { value: v }),
            None => Err(IdErr::Parse),
        }
    }
}

/// The identity of a login session.
#[derive(Clone, Copy, Debug, Hash, PartialEq, Eq, Structural)]
pub struct SessionId {
    value: u128,
}

impl View for SessionId {
    type V = u128;

    closed spec fn view(&self) -> u128 {
        self.value
    }
}

impl SessionId {
    /// A fresh random identifier.
    pub fn new() -> (r: Self)
        ensures
            uuid_nibble(r@, 12) == 4,
    {
        SessionId { value: random_uuid_v4() }
    }

    /// The identifier holding exactly `value`.
    pub fn from_u128(value: u128) -> (r: Self)
        ensures
            r@ == value,
    {
        SessionId { value }
    }

    /// The identifier's value.
    pub fn as_u128(&self) -> (r: u128)
        ensures
            r == self@,
    {
        self.value
    }

    /// Give the value back up.
    pub fn into_inner(self) -> (r: u128)
        ensures
            r == self@,
    {
        self.value
    }

    /// The canonical hyphenated text of the identifier.
    pub fn to_string(&self) -> (r: String)
        ensures
            r@ == uuid_hyphenated(self@),
    {
        uuid_to_string(self.value)
    }

    /// Read an identifier from its hyphenated or simple text form.
    pub fn from_str(s: &str) -> (r: Result<Self, IdErr>)
        ensures
            match r {
                Ok(id) => (uuid_simple_form(s@) || uuid_hyphenated_form(s@)) && id@ as int
                    == uuid_parsed_value(s@),
                Err(e) => !uuid_simple_form(s@) && !uuid_hyphenated_form(s@) && e == IdErr::Parse,
            },
    {
        match parse_uuid(s) {
            Some(v) => Ok(SessionId { value: v }),
            None => Err(IdErr::Parse),
        }
    }
}

/// The identity of a post.
#[derive(Clone, Copy, Debug, Hash, PartialEq, Eq, Structural)]
pub struct PostId {
    value: u128,
}

impl View for PostId {
    type V = u128;

    closed spec fn view(&self) -> u128 {
        self.value
    }
}

impl PostId {
    /// A fresh random identifier.
    pub fn new() -> (r: Self)
        ensures
            uuid_nibble(r@, 12) == 4,
    {
        PostId { value: random_uuid_v4() }
    }

    /// The identifier holding exactly `value`.
    pub fn from_u128(value: u128) -> (r: Self)
        ensures
            r@ == value,
    {
        PostId { value }
    }

    /// The identifier's value.
    pub fn as_u128(&self) -> (r: u128)
        ensures
            r == self@,
    {
        self.value
    }

    /// Give the value back up.
    pub fn into_inner(self) -> (r: u128)
        ensures
            r == self@,
    {
        self.value
    }

    /// The canonical hyphenated text of the identifier.
    pub fn to_string(&self) -> (r: String)
        ensures
            r@ == uuid_hyphenated(self@),
    {
        uuid_to_string(self.value)
    }

    /// Read an identifier from its hyphenated or simple text form.
    pub fn from_str(s: &str) -> (r: Result<Self, IdErr>)
        ensures
            match r {
                Ok(id) => (uuid_simple_form(s@) || uuid_hyphenated_form(s@)) && id@ as int
                    == uuid_parsed_value(s@),
                Err(e) => !uuid_simple_form(s@) && !uuid_hyphenated_form(s@) && e == IdErr::Parse,
            },
    {
        match parse_uuid(s) {
            Some(v) => Ok(PostId { value: v }),
            None => Err(IdErr::Parse),
        }
    }
}

/// The identity of a stored image.
#[derive(Clone, Copy, Debug, Hash, PartialEq, Eq, Structural)]
pub struct ImageId {
    value: u128,
}

impl View for ImageId {
    type V = u128;

    closed spec fn view(&self) -> u128 {
        self.value
    }
}

impl ImageId {
    /// A fresh random identifier.
    pub fn new() -> (r: Self)
        ensures
            uuid_nibble(r@, 12) == 4,
    {
        ImageId { value: random_uuid_v4() }
    }

    /// The identifier holding exactly `value`.
    pub fn from_u128(value: u128) -> (r: Self)
        ensures
            r@ == value,
    {
        ImageId { value }
    }

    /// The identifier's value.
    pub fn as_u128(&self) -> (r: u128)
        ensures
            r == self@,
    {
        self.value
    }

    /// Give the value back up.
    pub fn into_inner(self) -> (r: u128)
        ensures
            r == self@,
    {
        self.value
    }

    /// The canonical hyphenated text of the identifier.
    pub fn to_string(&self) -> (r: String)
        ensures
            r@ == uuid_hyphenated(self@),
    {
        uuid_to_string(self.value)
    }

    /// Read an identifier from its hyphenated or simple text form.
    pub fn from_str(s: &str) -> (r: Result<Self, IdErr>)
        ensures
            match r {
                Ok(id) => (uuid_simple_form(s@) || uuid_hyphenated_form(s@)) && id@ as int
                    == uuid_parsed_value(s@),
                Err(e) => !uuid_simple_form(s@) && !uuid_hyphenated_form(s@) && e == IdErr::Parse,
            },
    {
        match parse_uuid(s) {
            Some(v) => Ok(ImageId { value: v }),
            None => Err(IdErr::Parse),
        }
    }
}

/// The identity of one answer offered by a poll.
#[derive(Clone, Copy, Debug, Hash, PartialEq, Eq, Structural)]
pub struct PollChoiceId {
    value: u128,
}

impl View for PollChoiceId {
    type V = u128;

    closed spec fn view(&self) -> u128 {
        self.value
    }
}

impl PollChoiceId {
    /// A fresh random identifier.
    pub fn new() -> (r: Self)
        ensures
            uuid_nibble(r@, 12) == 4,
    {
        PollChoiceId { value: random_uuid_v4() }
    }

    /// The identifier holding exactly `value`.
    pub fn from_u128(value: u128) -> (r: Self)
        ensures
            r@ == value,
    {
        PollChoiceId { value }
    }

    /// The identifier's value.
    pub fn as_u128(&self) -> (r: u128)
        ensures
            r == self@,
    {
        self.value
    }

    /// Give the value back up.
    pub fn into_inner(self) -> (r: u128)
        ensures
            r == self@,
    {
        self.value
    }

    /// The canonical hyphenated text of the identifier.
    pub fn to_string(&self) -> (r: String)
        ensures
            r@ == uuid_hyphenated(self@),
    {
        uuid_to_string(self.value)
    }

    /// Read an identifier from its hyphenated or simple text form.
    pub fn from_str(s: &str) -> (r: Result<Self, IdErr>)
        ensures
            match r {
                Ok(id) => (uuid_simple_form(s@) || uuid_hyphenated_form(s@)) && id@ as int
                    == uuid_parsed_value(s@),
                Err(e) => !uuid_simple_form(s@) && !uuid_hyphenated_form(s@) && e == IdErr::Parse,
            },
    {
        match parse_uuid(s) {
            Some(v) => Ok(PollChoiceId { value: v }),
            None => Err(IdErr::Parse),
        }
    }
}

} // verus!
