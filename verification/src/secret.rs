//! The shared secret that guards the listing: how it is generated and how a
//! caller's credential is held against it.

use crate::ascii::{all_alphanumeric, is_alphanumeric};
use vstd::prelude::*;

verus! {

/// `Rng::sample` of `rand::distr::Alphanumeric`, on the generator that
/// `rand::rng` hands out.
///
/// Trusted: whatever is drawn, it is the ASCII code of a letter or a digit.
#[verifier::external_body]
fn sample_alphanumeric() -> (code: u8)
    ensures
        is_alphanumeric(code as char),
{
    rand::Rng::sample(&mut rand::rng(), rand::distr::Alphanumeric)
}

/// `String::push`.
///
/// Trusted: the character is added at the end of the text.
pub assume_specification[ String::push ](text: &mut String, c: char)
    ensures
        final(text)@ == old(text)@.push(c),
;

/// The text that a sequence of ASCII codes spells.
pub open spec fn spec_spelled(codes: Seq<u8>) -> Seq<char> {
    codes.map_values(|code: u8| code as char)
}

/// The secret that the drawn codes spell: one character for each code, in
/// the order in which they were drawn.
pub fn secret_from_codes(codes: &Vec<u8>) -> (secret: String)
    ensures
        secret@ == spec_spelled(codes@),
{
    let mut secret = String::new();
    let mut i: usize = 0;
    while i < codes.len()
        invariant
            i <= codes@.len(),
            secret@ == spec_spelled(codes@.take(i as int)),
        decreases codes@.len() - i,
    {
        secret.push(codes[i] as char);
        assert(codes@.take(i + 1) =~= codes@.take(i as int).push(codes@[i as int]));
        assert(spec_spelled(codes@.take(i + 1)) =~= spec_spelled(codes@.take(i as int)).push(
            codes@[i as int] as char,
        ));
        i = i + 1;
    }
    assert(codes@.take(i as int) =~= codes@);
    secret
}

/// A fresh random secret of `len` characters, all of them ASCII letters or
/// digits: `len` codes are drawn, and the secret is what they spell.
pub fn generate_secret(len: usize) -> (secret: String)
    ensures
        secret@.len() == len,
        all_alphanumeric(secret@),
{
    let mut codes: Vec<u8> = Vec::new();
    let mut i: usize = 0;
    while i < len
        invariant
            i <= len,
            codes@.len() == i,
            forall|j: int| 0 <= j < i ==> is_alphanumeric(#[trigger] codes@[j] as char),
        decreases len - i,
    {
        codes.push(sample_alphanumeric());
        i = i + 1;
    }
    secret_from_codes(&codes)
}

/// Whether a credential is the secret: the two are equal, character for
/// character.
pub fn secret_matches(expected: &String, provided: &String) -> (same: bool)
    ensures
        same == (expected@ == provided@),
{
    *expected == *provided
}

} // verus!
