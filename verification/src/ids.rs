//! Fresh identifiers for plans, positions and trade records.

use vstd::prelude::*;

verus! {

/// Relies on `uuid::Uuid::new_v4` and its `Display` impl: a random
/// version-4 UUID rendered in the hyphenated form, which is always 36
/// characters long. The value itself is random, so nothing further is
/// assumed about it.
#[verifier::external_body]
pub(crate) fn fresh_id() -> (r: String)
    ensures
        r@.len() == 36,
{
    uuid::Uuid::new_v4().to_string()
}

} // verus!
