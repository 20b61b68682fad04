//! Random identifier generation.
//!
//! A paste's public identifier is a fixed-length string drawn from the
//! alphanumeric alphabet (uppercase letters, lowercase letters, digits).

use vstd::prelude::*;

verus! {

/// Length of every identifier handed out on upload.
pub const ID_LENGTH: usize = 20;

/// The alphabet identifiers are drawn from: 26 uppercase letters,
/// 26 lowercase letters, 10 digits.
pub open spec fn id_alphabet() -> Seq<char> {
    "ABCDEFGHIJKLMNOPQRSTUVWXYZabcdefghijklmnopqrstuvwxyz0123456789"@
}

/// A character that may appear in an identifier.
pub open spec fn is_id_char(c: char) -> bool {
    id_alphabet().contains(c)
}

/// A well-formed identifier of the given length: exactly `len` characters,
/// all from the alphanumeric alphabet.
pub open spec fn is_id_string(s: Seq<char>, len: int) -> bool {
    &&& s.len() == len
    &&& forall|i: int| 0 <= i < s.len() ==> is_id_char(#[trigger] s[i])
}

/// Relies on `rand::Rng::gen_range`: returns a value drawn uniformly from the
/// half-open range, so the result is below the bound. `gen_range` panics on an
/// empty range, which the precondition rules out. The result depends on a
/// process-wide random source, so nothing more is stated of it.
#[verifier::external_body]
fn random_below(bound: usize) -> (r: usize)
    requires
        bound >= 1,
    ensures
        r < bound,
{
    rand::Rng::gen_range(&mut rand::thread_rng(), 0..bound)
}

/// Generate a random identifier of exactly `len` alphanumeric characters.
pub fn generate_id(len: usize) -> (r: String)
    ensures
        is_id_string(r@, len as int),
{
    let alphabet: &str = "ABCDEFGHIJKLMNOPQRSTUVWXYZabcdefghijklmnopqrstuvwxyz0123456789";
    proof {
        reveal_strlit("ABCDEFGHIJKLMNOPQRSTUVWXYZabcdefghijklmnopqrstuvwxyz0123456789");
    }
    let mut out = String::new();
    let mut i: usize = 0;
    while i < len
        invariant
            i <= len,
            out@.len() == i,
            alphabet@ == id_alphabet(),
            alphabet@.len() == 62,
            forall|j: int| 0 <= j < out@.len() ==> is_id_char(#[trigger] out@[j]),
        decreases len - i,
    {
        let k = random_below(62);
        let c = alphabet.substring_char(k, k + 1);
        out.append(c);
        proof {
            assert(out@[i as int] == id_alphabet()[k as int]);
        }
        i = i + 1;
    }
    out
}

} // verus!
