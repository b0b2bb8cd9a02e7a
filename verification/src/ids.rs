//! Random identifiers.
use vstd::prelude::*;

verus! {

/// The URL-safe alphabet identifiers are drawn from: `_`, `-`, digits and ASCII letters.
pub open spec fn is_id_char(c: char) -> bool {
    c == '_' || c == '-' || ('0' <= c && c <= '9') || ('a' <= c && c <= 'z') || ('A' <= c && c <= 'Z')
}

/// A generated identifier: `size` characters of the URL-safe alphabet.
pub open spec fn is_generated_id(s: Seq<char>, size: nat) -> bool {
    s.len() == size && forall|i: int| 0 <= i < s.len() ==> is_id_char(#[trigger] s[i])
}

/// Calls `nanoid::format` with nanoid's default random source and its `SAFE` alphabet, as
/// the `nanoid!` macro does. Claimed: the result has `size` characters, each from that
/// alphabet (`format` pushes alphabet characters until the string holds `size` bytes, and
/// every character of `SAFE` is one byte). Which identifier comes out is left unsaid: it is
/// random. `format` never returns for a size of 0 and computes `8 * size`.
#[verifier::external_body]
pub(crate) fn new_id(size: usize) -> (id: String)
    requires
        0 < size <= usize::MAX / 8,
    ensures
        is_generated_id(id@, size as nat),
{
    nanoid::format(nanoid::rngs::default, &nanoid::alphabet::SAFE, size)
}

} // verus!
