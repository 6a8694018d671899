//! Confirmation tokens: unguessable, URL-safe texts that prove possession of
//! the link sent to a subscriber.

use crate::text::push_char;
use vstd::prelude::*;

verus! {

/// Number of characters in every token this library issues. With 62
/// possible characters each, that is more than 2^148 tokens.
pub const TOKEN_LENGTH: usize = 25;

/// The ASCII codes of `0-9`, `A-Z` and `a-z`.
pub open spec fn is_alphanumeric_byte(b: u8) -> bool {
    ||| 0x30 <= b <= 0x39
    ||| 0x41 <= b <= 0x5A
    ||| 0x61 <= b <= 0x7A
}

pub open spec fn is_token_char(c: char) -> bool {
    let n = c as u32;
    ||| 0x30 <= n <= 0x39
    ||| 0x41 <= n <= 0x5A
    ||| 0x61 <= n <= 0x7A
}

pub open spec fn all_token_chars(s: Seq<char>) -> bool {
    forall|i: int| 0 <= i < s.len() ==> is_token_char(#[trigger] s[i])
}

/// A text can stand for a token in a request when it is not empty and made
/// of token characters only.
pub open spec fn is_well_formed_token(s: Seq<char>) -> bool {
    s.len() > 0 && all_token_chars(s)
}

/// The shape of the tokens that [`generate_subscription_token`] issues.
pub open spec fn is_issued_token(s: Seq<char>) -> bool {
    s.len() == TOKEN_LENGTH && all_token_chars(s)
}

pub open spec fn all_alphanumeric_bytes(samples: Seq<u8>) -> bool {
    forall|i: int| 0 <= i < samples.len() ==> is_alphanumeric_byte(#[trigger] samples[i])
}

/// The text whose characters have the given ASCII codes.
pub open spec fn text_of_bytes(samples: Seq<u8>) -> Seq<char> {
    Seq::new(samples.len(), |i: int| samples[i] as char)
}

#[verifier::external_type_specification]
#[verifier::external_body]
pub struct ExThreadRng(rand::rngs::ThreadRng);

/// `rand::thread_rng` hands out the thread's generator, seeded by the
/// operating system. Nothing is claimed of it.
pub assume_specification[ rand::thread_rng ]() -> (rng: rand::rngs::ThreadRng);

/// Calls `Rng::sample` with the `Alphanumeric` distribution.
///
/// Trusted: whatever is drawn is the ASCII code of a letter or a digit.
#[verifier::external_body]
fn sample_alphanumeric(rng: &mut rand::rngs::ThreadRng) -> (sample: u8)
    ensures
        is_alphanumeric_byte(sample),
{
    rand::Rng::sample(rng, rand::distributions::Alphanumeric)
}

/// Builds a token from the ASCII codes drawn for it. There is a token
/// exactly when [`TOKEN_LENGTH`] codes were drawn and each is a letter or a
/// digit; its characters are then those codes, in order.
pub fn token_from_samples(samples: &Vec<u8>) -> (token: Option<String>)
    ensures
        token is Some <==> samples@.len() == TOKEN_LENGTH && all_alphanumeric_bytes(samples@),
        token matches Some(text) ==> text@ == text_of_bytes(samples@) && is_issued_token(text@),
{
    if samples.len() != TOKEN_LENGTH {
        return None;
    }
    let mut text = String::new();
    let mut i: usize = 0;
    while i < samples.len()
        invariant
            i <= samples@.len(),
            text@.len() == i,
            forall|j: int| 0 <= j < i ==> is_alphanumeric_byte(#[trigger] samples@[j]),
            forall|j: int| 0 <= j < i ==> #[trigger] text@[j] == samples@[j] as char,
        decreases samples@.len() - i,
    {
        let sample = samples[i];
        let is_letter_or_digit = (0x30 <= sample && sample <= 0x39) || (0x41 <= sample && sample
            <= 0x5A) || (0x61 <= sample && sample <= 0x7A);
        if !is_letter_or_digit {
            return None;
        }
        push_char(&mut text, sample as char);
        i = i + 1;
    }
    proof {
        assert(text@ =~= text_of_bytes(samples@));
        assert forall|j: int| 0 <= j < text@.len() implies is_token_char(#[trigger] text@[j]) by {
            assert(is_alphanumeric_byte(samples@[j]));
            assert(text@[j] == samples@[j] as char);
        }
    }
    Some(text)
}

/// Issues a fresh token: [`TOKEN_LENGTH`] characters, each drawn at random
/// from the letters and digits. Nothing else goes into it.
pub fn generate_subscription_token() -> (token: String)
    ensures
        is_issued_token(token@),
        is_well_formed_token(token@),
{
    let mut rng = rand::thread_rng();
    let mut samples: Vec<u8> = Vec::new();
    while samples.len() < TOKEN_LENGTH
        invariant
            samples@.len() <= TOKEN_LENGTH,
            all_alphanumeric_bytes(samples@),
        decreases TOKEN_LENGTH - samples@.len(),
    {
        let sample = sample_alphanumeric(&mut rng);
        samples.push(sample);
    }
    token_from_samples(&samples).unwrap()
}

pub fn is_token_character(c: char) -> (b: bool)
    ensures
        b == is_token_char(c),
{
    let n: u32 = c as u32;
    (0x30 <= n && n <= 0x39) || (0x41 <= n && n <= 0x5A) || (0x61 <= n && n <= 0x7A)
}

/// Whether `token` can stand for a token in a request.
pub fn is_well_formed(token: &str) -> (b: bool)
    ensures
        b == is_well_formed_token(token@),
{
    let mut all = true;
    let mut any = false;
    for c in it: token.chars()
        invariant
            it.seq() == token@,
            any == (it.index() > 0),
            all == (forall|i: int| 0 <= i < it.index() ==> is_token_char(#[trigger] token@[i])),
    {
        any = true;
        if !is_token_character(c) {
            all = false;
        }
    }
    any && all
}

} // verus!
