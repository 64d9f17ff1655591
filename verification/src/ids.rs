//! Identifiers made of a kind prefix and a random UUID.
use vstd::prelude::*;

use crate::text::concat2;

verus! {

/// The identifier `prefix` followed by `uuid`, a fresh random UUID drawn by
/// the caller (`format!("{prefix}{uuid}")`).
pub fn new_id(prefix: &str, uuid: &str) -> (r: String)
    ensures
        r@ == prefix@ + uuid@,
{
    concat2(prefix, uuid)
}

} // verus!
