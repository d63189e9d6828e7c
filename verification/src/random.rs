//! Random captcha answers.
use vstd::prelude::*;
use crate::text::{is_ascii_alphanumeric, push_char};
use rand::Rng;

verus! {

/// One random byte drawn by `rand`'s `Alphanumeric` distribution from the
/// thread-local generator (`rand::rng().sample(Alphanumeric)`).
/// Claimed, as `Alphanumeric`'s documentation says: the byte is an ASCII
/// letter or digit. Which one it is depends on chance and is not stated.
#[verifier::external_body]
fn random_alphanumeric_byte() -> (b: u8)
    ensures
        is_ascii_alphanumeric(b as char),
{
    rand::rng().sample(rand::distr::Alphanumeric)
}

/// A string of `len` random ASCII letters and digits.
pub fn random_string(len: usize) -> (s: String)
    ensures
        s@.len() == len,
        forall|i: int| 0 <= i < len ==> #[trigger] is_ascii_alphanumeric(s@[i]),
{
    let mut s = String::new();
    let mut n: usize = 0;
    while n < len
        invariant
            n <= len,
            s@.len() == n,
            forall|i: int| 0 <= i < n ==> #[trigger] is_ascii_alphanumeric(s@[i]),
        decreases len - n,
    {
        let b = random_alphanumeric_byte();
        push_char(&mut s, b as char);
        n = n + 1;
    }
    s
}

} // verus!
