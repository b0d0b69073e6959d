//! Confirmation-token generation: 25 characters drawn from `[A-Za-z0-9]`.

use vstd::prelude::*;
use rand::Rng;

verus! {

/// A character a confirmation token may be made of: ASCII alphanumeric.
pub open spec fn token_char(c: char) -> bool {
    let u = c as u32;
    ||| (0x41 <= u && u <= 0x5A)
    ||| (0x61 <= u && u <= 0x7A)
    ||| (0x30 <= u && u <= 0x39)
}

/// The shape every confirmation token has: 25 alphanumeric characters.
pub open spec fn valid_token(s: Seq<char>) -> bool {
    &&& s.len() == 25
    &&& forall|i: int| 0 <= i < s.len() ==> token_char(s[i])
}

/// Relies on `rand::thread_rng` and the `Alphanumeric` distribution, whose
/// `sample` returns one byte drawn uniformly from `[A-Za-z0-9]`; nothing
/// more can be said of a random draw.
#[verifier::external_body]
fn sample_alphanumeric() -> (c: char)
    ensures
        token_char(c),
{
    char::from(rand::thread_rng().sample(rand::distributions::Alphanumeric))
}

/// Relies on `String::push`: appends exactly the one character.
#[verifier::external_body]
fn push_char(s: &mut String, c: char)
    ensures
        final(s)@ == old(s)@.push(c),
{
    s.push(c);
}

/// Draws a fresh confirmation token: 25 characters, each alphanumeric.
/// Uniqueness is not checked here; the store's key constraint is the
/// backstop if a collision ever occurs.
pub fn generate_subscription_token() -> (t: String)
    ensures
        valid_token(t@),
{
    let mut t = String::new();
    let mut i: usize = 0;
    while i < 25
        invariant
            i <= 25,
            t@.len() == i,
            forall|j: int| 0 <= j < t@.len() ==> token_char(t@[j]),
        decreases 25 - i,
    {
        let c = sample_alphanumeric();
        push_char(&mut t, c);
        i += 1;
    }
    t
}

} // verus!
