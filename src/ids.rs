//! Random identifiers.
use vstd::prelude::*;

verus! {

/// The characters of nanoid's URL-safe alphabet.
pub open spec fn is_url_safe(c: char) -> bool {
    c == '_' || c == '-' || ('0' <= c && c <= '9') || ('a' <= c && c <= 'z') || ('A' <= c && c
        <= 'Z')
}

/// Relies on `nanoid::format` with nanoid's default random source and URL-safe
/// alphabet: `size` characters, each from that alphabet. It never returns
/// for `size == 0`.
#[verifier::external_body]
pub fn random_id(size: usize) -> (r: String)
    requires
        size > 0,
    ensures
        r@.len() == size,
        forall|i: int| 0 <= i < r@.len() ==> is_url_safe(#[trigger] r@[i]),
{
    nanoid::format(nanoid::rngs::default, &nanoid::alphabet::SAFE, size)
}

} // verus!
