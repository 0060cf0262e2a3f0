//! Writing to the output buffer.

use crate::model::pushed;
use vstd::prelude::*;

verus! {

/// Writes `val` to `out`, after a single space when `out` already holds
/// something. An empty `val` leaves `out` as it is.
pub fn push_with_space_if_needed(out: &mut String, val: &str)
    ensures
        final(out)@ == pushed(old(out)@, val@),
{
    if !val.is_empty() {
        if !out.as_str().is_empty() {
            proof {
                reveal_strlit(" ");
            }
            out.append(" ");
            assert(" "@ =~= seq![' ']);
        }
        out.append(val);
    }
}

} // verus!
