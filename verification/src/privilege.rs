//! The privileged/unprivileged execution boundary: the decision rule of the
//! privilege guard. Reading the processor's actual privilege state is a
//! hardware operation and lives in the layer around the library; the rule
//! that gates an operation on that reading is verified here.

use vstd::prelude::*;

use crate::errors::KernelError;

verus! {

/// The privilege guard's decision: an operation that requires privileged
/// mode proceeds exactly when the current context is privileged; otherwise
/// it is refused with `AccessDenied`, and the caller may retry via the
/// supervisor-call path.
pub fn check_privileged(privileged: bool) -> (r: Result<(), KernelError>)
    ensures
        r is Ok <==> privileged,
        r matches Err(e) ==> e == KernelError::AccessDenied,
{
    if privileged {
        Ok(())
    } else {
        Err(KernelError::AccessDenied)
    }
}

} // verus!
