use vstd::prelude::*;

verus! {

/// The HID subsystem itself could not be initialized (missing permissions,
/// no platform HID support). Fatal to one enumeration call; the UI shows it
/// and the user decides whether to try again.
#[derive(Clone, Copy, Debug, PartialEq, Eq, Structural)]
pub enum EnumerationError {
    SubsystemInit,
}

/// Why one attempt to open a selected device failed. Fatal to that attempt:
/// the user must re-select to try again.
#[derive(Clone, Copy, Debug, PartialEq, Eq, Structural)]
pub enum OpenError {
    /// The device disappeared between enumeration and open; the caller
    /// should re-enumerate rather than retry the stale descriptor.
    NotFound,
    /// The OS denied access to the endpoint.
    PermissionDenied,
    /// Another process holds the device exclusively.
    AlreadyInUse,
}

/// Why a report write failed. Transient failures are eligible for a small
/// bounded retry; terminal ones force the session into a fault.
#[derive(Clone, Copy, Debug, PartialEq, Eq, Structural)]
pub enum IoError {
    /// Would-block, timeout: the same report may be retried.
    Transient,
    /// Device unplugged or handle dead: the session must be torn down.
    Terminal,
}

/// A lighting intent that cannot be encoded. This marks a caller
/// programming or configuration error, never a hardware fault.
#[derive(Clone, Copy, Debug, PartialEq, Eq, Structural)]
pub enum EncodeError {
    UnknownMode,
}

/// The reason recorded in a faulted session, spanning both failed opens
/// and failed writes.
#[derive(Clone, Copy, Debug, PartialEq, Eq, Structural)]
pub enum ErrorKind {
    NotFound,
    PermissionDenied,
    AlreadyInUse,
    /// A transient write failure persisted through every allowed retry.
    TransientExhausted,
    /// A terminal write failure.
    Terminal,
}

/// The fault reason that one open failure leaves behind.
pub open spec fn open_fault_kind(e: OpenError) -> ErrorKind {
    match e {
        OpenError::NotFound => ErrorKind::NotFound,
        OpenError::PermissionDenied => ErrorKind::PermissionDenied,
        OpenError::AlreadyInUse => ErrorKind::AlreadyInUse,
    }
}

} // verus!
