use vstd::prelude::*;
use rand::Rng;
use crate::text::push_char;

verus! {

/// Whether `c` is an ASCII letter or digit.
pub open spec fn is_alphanumeric(c: char) -> bool {
    ('0' <= c && c <= '9') || ('A' <= c && c <= 'Z') || ('a' <= c && c <= 'z')
}

/// Whether the byte `b` is the code of an ASCII letter or digit.
pub open spec fn is_alphanumeric_byte(b: u8) -> bool {
    (48 <= b && b <= 57) || (65 <= b && b <= 90) || (97 <= b && b <= 122)
}

/// A random ASCII letter or digit, drawn from `rand::distributions::Alphanumeric`
/// with the thread's generator. Which one comes out is left open.
#[verifier::external_body]
fn random_alphanumeric_byte() -> (b: u8)
    ensures
        is_alphanumeric_byte(b),
{
    rand::thread_rng().sample(rand::distributions::Alphanumeric)
}

/// A random number in `low..high`, from `Rng::gen_range` with the thread's
/// generator (which panics on an empty range, hence the `requires`).
#[verifier::external_body]
pub(crate) fn random_in_range(low: usize, high: usize) -> (n: usize)
    requires
        low < high,
    ensures
        low <= n < high,
{
    rand::thread_rng().gen_range(low..high)
}

/// A random string of `len` ASCII letters and digits.
pub fn generate_random_string(len: usize) -> (s: String)
    ensures
        s@.len() == len,
        forall|i: int| 0 <= i < len ==> is_alphanumeric(#[trigger] s@[i]),
{
    let mut s = String::new();
    let mut i: usize = 0;
    while i < len
        invariant
            0 <= i <= len,
            s@.len() == i,
            forall|j: int| 0 <= j < i ==> is_alphanumeric(#[trigger] s@[j]),
        decreases len - i,
    {
        let b = random_alphanumeric_byte();
        push_char(&mut s, b as char);
        i = i + 1;
    }
    s
}

} // verus!
