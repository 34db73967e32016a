use vstd::prelude::*;

verus! {

/// Everything that can go wrong on the caller's side of the worker boundary.
#[derive(Debug, Clone, Copy, PartialEq, Eq, Structural)]
pub enum WaymoError {
    /// The worker could not be allocated: no handle came back, so there is
    /// nothing to release.
    AllocationFailure,
    /// A handle came back but the worker did not report itself ready. The
    /// handle has been destroyed before this is reported.
    InitializationFailure,
    /// A keyboard layout or a text to type holds a terminator character and so
    /// has no terminator-delimited native form.
    InvalidConfigurationText,
    /// The descriptor on which a synchronous command is awaited could not be
    /// created. The command was not submitted.
    NotificationUnavailable,
}

} // verus!
