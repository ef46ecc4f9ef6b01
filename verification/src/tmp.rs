//! Names for temporary files.

use rand::Rng;
use vstd::prelude::*;

verus! {

/// The number of characters in the name of a temporary file.
pub const NAME_LEN: usize = 7;

/// True for the ASCII letters of either case and the ASCII digits.
pub open spec fn is_alphanumeric(c: char) -> bool {
    ||| 'a' <= c <= 'z'
    ||| 'A' <= c <= 'Z'
    ||| '0' <= c <= '9'
}

/// Draws one byte from `rand::distributions::Alphanumeric` with the thread's
/// generator, `rand::thread_rng()`.
///
/// Trusted: every byte that the distribution gives is an ASCII letter or
/// digit. Which one is left open; two calls need not agree.
#[verifier::external_body]
fn sample_alphanumeric() -> (byte: u8)
    ensures
        is_alphanumeric(byte as char),
{
    rand::thread_rng().sample(rand::distributions::Alphanumeric)
}

/// Appends `c` to `text` with `String::push`.
///
/// Trusted: the text afterwards is the text before, then `c`.
#[verifier::external_body]
fn push_char(text: &mut String, c: char)
    ensures
        final(text)@ == old(text)@.push(c),
{
    text.push(c)
}

/// A random name for a temporary file: [`NAME_LEN`] characters, each an ASCII
/// letter or digit.
pub fn random_file_name() -> (name: String)
    ensures
        name@.len() == NAME_LEN,
        forall|i: int| 0 <= i < name@.len() ==> is_alphanumeric(#[trigger] name@[i]),
{
    let mut name = String::new();
    let mut drawn: usize = 0;
    while drawn < NAME_LEN
        invariant
            drawn <= NAME_LEN,
            name@.len() == drawn,
            forall|i: int| 0 <= i < name@.len() ==> is_alphanumeric(#[trigger] name@[i]),
        decreases NAME_LEN - drawn,
    {
        let byte = sample_alphanumeric();
        push_char(&mut name, byte as char);
        drawn = drawn + 1;
    }
    name
}

} // verus!
