//! Binary-to-text primitives used for session signatures.
//!
//! Signatures travel inside cookies as base64 text. The encoding itself is
//! done by the `base64` crate with its standard padded alphabet; the
//! wrappers here state what that engine guarantees.

use vstd::prelude::*;

verus! {

/// The standard padded base64 text of `bytes`. Spelling the encoding out
/// would take the whole alphabet table; the wrappers below state the facts
/// callers rely on.
pub uninterp spec fn base64_of(bytes: Seq<u8>) -> Seq<char>;

/// What the strict base64 decoder reads from `text`: the bytes whose
/// canonical encoding `text` is, if it is one.
pub uninterp spec fn base64_decoded(text: Seq<char>) -> Option<Seq<u8>>;

/// The characters base64 text is made of: letters, digits, `+`, `/` and
/// the `=` padding.
pub open spec fn is_base64_char(c: char) -> bool {
    ||| 0x41 <= c as int <= 0x5A
    ||| 0x61 <= c as int <= 0x7A
    ||| 0x30 <= c as int <= 0x39
    ||| c == '+'
    ||| c == '/'
    ||| c == '='
}

/// Relies on the `base64` crate's `Engine::encode` with the standard
/// padded alphabet: four alphabet characters for every started group of
/// three bytes, and the same text for the same bytes everywhere.
#[verifier::external_body]
pub fn encode_base64(bytes: &[u8]) -> (r: String)
    ensures
        r@ == base64_of(bytes@),
        r@.len() == 4 * ((bytes@.len() + 2) / 3),
        forall|i: int| 0 <= i < r@.len() ==> is_base64_char(#[trigger] r@[i]),
        base64_decoded(r@) == Some(bytes@),
{
    base64::Engine::encode(&base64::engine::general_purpose::STANDARD, bytes)
}

/// Relies on the `base64` crate's `Engine::decode` with the standard
/// padded alphabet, which requires canonical padding and rejects stray
/// trailing bits: it succeeds exactly on the texts `encode` produces, and
/// inverts them.
#[verifier::external_body]
pub fn decode_base64(text: &str) -> (r: Option<Vec<u8>>)
    ensures
        match r {
            Some(v) => base64_decoded(text@) == Some(v@) && text@ == base64_of(v@) && (forall|
                bs: Seq<u8>,
            |
                text@ == #[trigger] base64_of(bs) ==> bs == v@),
            None => base64_decoded(text@) is None && (forall|bs: Seq<u8>|
                text@ != #[trigger] base64_of(bs)),
        },
{
    base64::Engine::decode(&base64::engine::general_purpose::STANDARD, text).ok()
}

} // verus!
