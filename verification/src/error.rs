//! Why an overlay stopped.

use vstd::prelude::*;

verus! {

/// The broad classes of failure.
#[derive(Clone, Copy, Debug, PartialEq, Eq, Structural)]
pub enum ErrorKind {
    /// No window answered to the class and title that were looked for.
    TargetNotFound,
    /// The window system refused to register the class or create the window.
    WindowSubsystem,
    /// The graphics context or the device could not be created.
    GraphicsInit,
    /// The target window stopped reporting a usable rectangle.
    StaleTarget,
}

/// A fatal condition. None of them is retried.
#[derive(Clone, Copy, Debug, PartialEq, Eq, Structural)]
pub enum OverlayError {
    /// The target handle is null: the locator found no window.
    TargetNotFound,
    /// The window class could not be registered.
    ClassRegistration,
    /// The overlay window could not be created.
    WindowCreation,
    /// The graphics context could not be created.
    ContextCreation,
    /// The rendering device could not be created.
    DeviceCreation,
    /// The target window is gone or reports a rectangle no window can have.
    StaleTarget,
}

impl OverlayError {
    /// The class a failure belongs to.
    pub open spec fn spec_kind(self) -> ErrorKind {
        match self {
            OverlayError::TargetNotFound => ErrorKind::TargetNotFound,
            OverlayError::ClassRegistration => ErrorKind::WindowSubsystem,
            OverlayError::WindowCreation => ErrorKind::WindowSubsystem,
            OverlayError::ContextCreation => ErrorKind::GraphicsInit,
            OverlayError::DeviceCreation => ErrorKind::GraphicsInit,
            OverlayError::StaleTarget => ErrorKind::StaleTarget,
        }
    }

    /// The line shown to the user for a failure.
    pub open spec fn spec_message(self) -> Seq<char> {
        match self {
            OverlayError::TargetNotFound => "Couldn't find window..."@,
            OverlayError::ClassRegistration => "Unable to register window class!"@,
            OverlayError::WindowCreation => "Unable to create window"@,
            OverlayError::ContextCreation => "Unable to create d3d9x object..."@,
            OverlayError::DeviceCreation => "Failed to create device"@,
            OverlayError::StaleTarget => "Target window is gone"@,
        }
    }

    /// Classifies the failure.
    pub fn kind(&self) -> (k: ErrorKind)
        ensures
            k == self.spec_kind(),
    {
        match self {
            OverlayError::TargetNotFound => ErrorKind::TargetNotFound,
            OverlayError::ClassRegistration => ErrorKind::WindowSubsystem,
            OverlayError::WindowCreation => ErrorKind::WindowSubsystem,
            OverlayError::ContextCreation => ErrorKind::GraphicsInit,
            OverlayError::DeviceCreation => ErrorKind::GraphicsInit,
            OverlayError::StaleTarget => ErrorKind::StaleTarget,
        }
    }

    /// The single line that reports the failure.
    pub fn message(&self) -> (text: &'static str)
        ensures
            text@ == self.spec_message(),
    {
        match self {
            OverlayError::TargetNotFound => "Couldn't find window...",
            OverlayError::ClassRegistration => "Unable to register window class!",
            OverlayError::WindowCreation => "Unable to create window",
            OverlayError::ContextCreation => "Unable to create d3d9x object...",
            OverlayError::DeviceCreation => "Failed to create device",
            OverlayError::StaleTarget => "Target window is gone",
        }
    }
}

} // verus!
