//! Issuance of confirmation tokens.
//!
//! A subscription token is a random string of 25 ASCII letters and
//! digits. It is a low-stakes anti-guessing value, not a security
//! credential; the store does not enforce uniqueness, collisions are
//! merely improbable.

use crate::text::push_char;
use vstd::prelude::*;

verus! {

/// The exact length of a subscription token.
pub const TOKEN_LENGTH: usize = 25;

/// Whether a character may appear in a subscription token: an ASCII
/// letter or digit.
pub open spec fn is_token_char(c: char) -> bool {
    ||| 'A' as u32 <= c as u32 <= 'Z' as u32
    ||| 'a' as u32 <= c as u32 <= 'z' as u32
    ||| '0' as u32 <= c as u32 <= '9' as u32
}

/// Whether a string is a well-formed subscription token: exactly 25
/// ASCII letters and digits.
pub open spec fn valid_token(t: Seq<char>) -> bool {
    &&& t.len() == TOKEN_LENGTH
    &&& forall|i: int| 0 <= i < t.len() ==> is_token_char(#[trigger] t[i])
}

/// An ASCII letter or digit, as a byte.
pub open spec fn is_alphanumeric_byte(b: u8) -> bool {
    ||| 'A' as u8 <= b <= 'Z' as u8
    ||| 'a' as u8 <= b <= 'z' as u8
    ||| '0' as u8 <= b <= '9' as u8
}

#[verifier::external_type_specification]
#[verifier::external_body]
pub struct ExThreadRng(rand::rngs::ThreadRng);

/// Relies on `rand::rng`: a handle to the thread-local random number
/// generator. The generator's state is opaque; nothing is promised.
#[verifier::external_body]
fn fresh_rng() -> rand::rngs::ThreadRng {
    rand::rng()
}

/// Relies on `rand::Rng::sample` with `rand::distr::Alphanumeric`, whose
/// source draws one byte uniformly from the ASCII uppercase letters,
/// lowercase letters and digits. The draw is random, so only membership
/// in that set is promised.
#[verifier::external_body]
fn sample_alphanumeric(rng: &mut rand::rngs::ThreadRng) -> (b: u8)
    ensures
        is_alphanumeric_byte(b),
{
    rand::Rng::sample(rng, rand::distr::Alphanumeric)
}

/// Generates a fresh subscription token: 25 characters drawn uniformly
/// at random from the ASCII letters and digits. Distinctness across
/// calls is probabilistic, never promised.
pub fn generate_subscription_token() -> (t: String)
    ensures
        valid_token(t@),
{
    let mut rng = fresh_rng();
    let mut t = String::new();
    let mut i: usize = 0;
    while i < TOKEN_LENGTH
        invariant
            i <= TOKEN_LENGTH,
            t@.len() == i,
            forall|k: int| 0 <= k < i ==> is_token_char(#[trigger] t@[k]),
        decreases TOKEN_LENGTH - i,
    {
        let b = sample_alphanumeric(&mut rng);
        let c = b as char;
        assert(is_token_char(c));
        push_char(&mut t, c);
        i = i + 1;
    }
    t
}

} // verus!
