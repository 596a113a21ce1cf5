//! Error values returned by the kernel's fallible operations.

use vstd::prelude::*;

verus! {

/// Every error the scheduler core can report. All failures are returned to
/// the immediate caller as explicit result values; none are silently
/// swallowed, and there is no unwinding at this level.
#[derive(Clone, Copy, Debug, PartialEq, Eq, Structural)]
pub enum KernelError {
    /// A stack region was below the minimum usable frame size. Fatal to that
    /// task creation; the caller may retry with a larger region.
    StackTooSmall,
    /// A priority index was outside the valid table range.
    DoesNotExist,
    /// An operation requiring privileged mode was attempted from an
    /// unprivileged context; the caller may retry via the supervisor call.
    AccessDenied,
}

} // verus!
