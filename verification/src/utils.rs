//! Small shared helpers.

use vstd::prelude::*;

verus! {

/// Whether the library itself plans diagnostics: it does not.  The shell
/// decides the live value from its build configuration and passes it in
/// the host snapshot's `validation_enabled` field; the library's own
/// default is diagnostics off.
pub fn debug_mode() -> (r: bool)
    ensures
        r == false,
{
    false
}

} // verus!
