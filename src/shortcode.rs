use vstd::prelude::*;
use crate::text::push_char;

verus! {

/// Number of characters in a short code.
pub const SHORT_CODE_LEN: usize = 6;

/// The 62 symbols a short code is drawn from: ASCII letters and digits.
pub open spec fn is_alphanumeric(c: char) -> bool {
    ('A' <= c && c <= 'Z') || ('a' <= c && c <= 'z') || ('0' <= c && c <= '9')
}

/// A well-formed short code: six ASCII letters or digits.
pub open spec fn is_short_code(s: Seq<char>) -> bool {
    &&& s.len() == SHORT_CODE_LEN
    &&& forall|i: int| 0 <= i < s.len() ==> is_alphanumeric(#[trigger] s[i])
}

/// Relies on rand's `Alphanumeric` distribution sampled from the thread-local
/// generator: each draw is one byte of `A-Z`, `a-z` or `0-9`.
#[verifier::external_body]
fn random_alphanumeric() -> (c: char)
    ensures
        is_alphanumeric(c),
{
    let mut rng = rand::thread_rng();
    char::from(rand::Rng::sample(&mut rng, rand::distributions::Alphanumeric))
}

/// Draws a fresh short code. Codes are not checked for uniqueness here: the
/// store decides whether a code is still free.
pub fn generate_short_url() -> (code: String)
    ensures
        is_short_code(code@),
{
    let mut code = String::new();
    let mut n: usize = 0;
    while n < SHORT_CODE_LEN
        invariant
            n <= SHORT_CODE_LEN,
            code@.len() == n,
            forall|i: int| 0 <= i < code@.len() ==> is_alphanumeric(#[trigger] code@[i]),
        decreases SHORT_CODE_LEN - n,
    {
        let c = random_alphanumeric();
        push_char(&mut code, c);
        n = n + 1;
    }
    code
}

} // verus!
