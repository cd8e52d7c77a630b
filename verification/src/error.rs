//! What can go wrong.

use vstd::prelude::*;

verus! {

/// The window system refused a window class.
#[derive(Debug, Clone, Copy, PartialEq, Eq, Structural)]
pub enum ClassRegistrationError {
    /// The class template was rejected.
    Rejected,
}

/// The creation of a native window failed.
#[derive(Debug, Clone, Copy, PartialEq, Eq, Structural)]
pub enum CreateWindowError {
    /// The window system made no window.
    FailedToCreateWindow,
    /// The window was made, but could not be given its size for the display
    /// it is on.
    UnableToEnableHiDpiSupport,
}

/// The construction of a native window failed.
#[derive(Debug, Clone, Copy, PartialEq, Eq, Structural)]
pub enum WindowHandlerError {
    /// The window class could not be registered.
    ClassRegistrationError(ClassRegistrationError),
    /// The window could not be created.
    CreateWindowError(CreateWindowError),
}

/// A window has no raw handle to give out.
#[derive(Debug, Clone, Copy, PartialEq, Eq, Structural)]
pub enum HandleError {
    /// The native handle is null or not positive.
    Unavailable,
}

pub type WindowHandlerResult<T> = Result<T, WindowHandlerError>;

} // verus!
