//! Identifiers under which calls and their results are matched.

use rand::Rng;
use vstd::prelude::*;

verus! {

/// The length of every identifier that the server makes.
pub const ID_LENGTH: usize = 16;

/// `c` is an ASCII letter or digit.
pub open spec fn is_alphanumeric(c: char) -> bool {
    ('A' <= c && c <= 'Z') || ('a' <= c && c <= 'z') || ('0' <= c && c <= '9')
}

/// `s` has the form of an identifier made by [`generate_id`]: sixteen
/// characters, each an ASCII letter or digit.
pub open spec fn is_identifier(s: Seq<char>) -> bool {
    s.len() == ID_LENGTH && forall|i: int| 0 <= i < s.len() ==> is_alphanumeric(#[trigger] s[i])
}

/// `String::push`: the character is appended.
pub assume_specification[ String::push ](s: &mut String, c: char)
    ensures
        final(s)@ == old(s)@.push(c),
;

/// One sample of `rand`'s `Alphanumeric` distribution from the thread's
/// generator. Trusted: whatever is drawn is the code of an ASCII letter or
/// digit.
#[verifier::external_body]
fn sample_alphanumeric() -> (b: u8)
    ensures
        is_alphanumeric(b as char),
{
    rand::thread_rng().sample(rand::distributions::Alphanumeric)
}

/// Makes a fresh random identifier.
pub fn generate_id() -> (id: String)
    ensures
        is_identifier(id@),
{
    let mut id = String::new();
    let mut i: usize = 0;
    while i < ID_LENGTH
        invariant
            i <= ID_LENGTH,
            id@.len() == i,
            forall|k: int| 0 <= k < id@.len() ==> is_alphanumeric(#[trigger] id@[k]),
        decreases ID_LENGTH - i,
    {
        let b = sample_alphanumeric();
        id.push(b as char);
        i += 1;
    }
    id
}

} // verus!
