//! The error taxonomy of the provisioning engine.
//!
//! Two kinds of failure exist: namespace/process failures and netlink
//! (network-configuration) failures.  Each variant records the precise cause
//! as plain data, so contracts can say exactly which error a function returns
//! on which input.

use vstd::prelude::*;

verus! {

/// Why a namespace or process operation failed.
#[derive(Clone, Copy, Debug, PartialEq, Eq, Structural)]
pub enum NsCause {
    /// A namespace with the requested name already exists.
    AlreadyExists,
    /// No namespace with the requested name exists.
    NotFound,
    /// The caller lacks the capability for the operation.
    PermissionDenied,
    /// The namespace handle did not refer to a usable namespace object.
    InvalidHandle,
    /// Unsharing the mount namespace failed.
    UnshareFailed,
    /// Creating a directory for the namespace mount failed.
    DirectoryFailed,
    /// Bind-mounting the namespace directory failed.
    BindMountFailed,
    /// Writing the UID map of the calling process failed.
    UidMapFailed,
    /// Writing the GID map of the calling process failed.
    GidMapFailed,
    /// The fork of the configuration child failed.
    ForkFailed,
    /// Waiting for the configuration child failed.
    WaitFailed,
    /// The configuration child exited with the recorded nonzero code.
    ChildExit(i32),
    /// The configuration child was killed by the recorded signal.
    ChildSignal(i32),
    /// The configuration child reported a wait status of no known shape.
    ChildUnknown,
    /// A delegated configuration command could not be run or reported failure.
    CommandFailed,
}

/// Why a netlink request failed.
#[derive(Clone, Copy, Debug, PartialEq, Eq, Structural)]
pub enum NetCause {
    /// A link lookup by name matched nothing.
    NotFound,
    /// A netlink request was answered with an error or the channel failed.
    RequestFailed,
}

/// The top-level error of the engine: every fallible operation returns one of
/// these two kinds, each carrying its cause.
#[derive(Clone, Copy, Debug, PartialEq, Eq, Structural)]
pub enum Errcode {
    /// Namespace lifecycle, mount, identity or child-process failure.
    NamespacesError(NsCause),
    /// Netlink request/response failure.
    NetworkError(NetCause),
}

} // verus!
