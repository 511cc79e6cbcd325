//! Fresh identifiers for monitors and their correlation tags.

use vstd::prelude::*;

verus! {

/// Relies on uuid's `Uuid::new_v4` and its `simple` formatting: 32
/// lowercase hexadecimal digits. The value is random, so nothing is
/// promised about which.
#[verifier::external_body]
pub fn fresh_monitor_id() -> (r: String)
    ensures
        r@.len() == 32,
{
    uuid::Uuid::new_v4().simple().to_string()
}

} // verus!
