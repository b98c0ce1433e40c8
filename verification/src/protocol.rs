//! What the overlay asks of its host, and what the host reports back.
//!
//! The overlay never touches the window system or the graphics device. It
//! hands the host a batch of [`Action`]s, the host carries them out in order
//! and answers with the [`Reply`] to the last one. Numeric codes in the
//! actions are the ones the window system and the graphics interface use, so
//! the host passes them on unchanged.

use vstd::prelude::*;
use crate::geometry::Rect;

verus! {

/// Window style: a pop-up window, which has no border and no title bar.
pub const WS_POPUP: u32 = 0x8000_0000;

/// Window style: visible from the moment it is created.
pub const WS_VISIBLE: u32 = 0x1000_0000;

/// Extended window style: composited as a whole, with alpha.
pub const WS_EX_LAYERED: u32 = 0x0008_0000;

/// Extended window style: input passes through to the window beneath.
pub const WS_EX_TRANSPARENT: u32 = 0x0000_0020;

/// Z-order position: above all windows that are not topmost themselves.
pub const HWND_TOPMOST: isize = -1;

/// Whole-window opacity of a window that hides nothing of what is drawn.
pub const OPAQUE: u8 = 255;

/// The window message that announces that a window is being destroyed.
pub const WM_DESTROY: u32 = 0x0002;

/// The error code of a class registration that found the class in place.
pub const ERROR_CLASS_ALREADY_EXISTS: u32 = 1410;

/// The default display adapter.
pub const D3DADAPTER_DEFAULT: u32 = 0;

/// Device type: rasterization in hardware.
pub const D3DDEVTYPE_HAL: u32 = 1;

/// Device behavior: vertex processing in hardware.
pub const D3DCREATE_HARDWARE_VERTEXPROCESSING: u32 = 0x40;

/// Swap effect: the back buffer's contents are discarded once presented.
pub const D3DSWAPEFFECT_DISCARD: u32 = 1;

/// Pixel format: 32 bits per pixel, 8 each for alpha, red, green and blue.
pub const D3DFMT_A8R8G8B8: u32 = 21;

/// Presentation interval: at once, without waiting for the vertical retrace.
pub const D3DPRESENT_INTERVAL_IMMEDIATE: u32 = 0x8000_0000;

/// Position, size and styles of the overlay window to create.
#[derive(Clone, Copy, Debug, PartialEq, Eq, Structural)]
pub struct WindowSpec {
    pub x: i32,
    pub y: i32,
    pub width: i32,
    pub height: i32,
    pub style: u32,
    pub ex_style: u32,
}

/// How far the window frame extends into the client area on each side.
#[derive(Clone, Copy, Debug, PartialEq, Eq, Structural)]
pub struct Margins {
    pub left: i32,
    pub right: i32,
    pub top: i32,
    pub bottom: i32,
}

/// Where a window goes on the screen and in the z-order.
#[derive(Clone, Copy, Debug, PartialEq, Eq, Structural)]
pub struct Placement {
    pub insert_after: isize,
    pub x: i32,
    pub y: i32,
    pub width: i32,
    pub height: i32,
    pub flags: u32,
}

/// How the device presents its back buffer.
#[derive(Clone, Copy, Debug, PartialEq, Eq, Structural)]
pub struct PresentParameters {
    pub back_buffer_width: u32,
    pub back_buffer_height: u32,
    pub back_buffer_format: u32,
    pub back_buffer_count: u32,
    pub swap_effect: u32,
    pub windowed: bool,
    pub presentation_interval: u32,
}

/// One thing for the host to do.
#[derive(Clone, Copy, Debug, PartialEq, Eq, Structural)]
pub enum Action {
    /// Keep the window system from replacing the overlay with a ghost
    /// window while its thread is busy drawing.
    DisableGhosting,
    /// Register the overlay's window class. Answered by
    /// `Reply::ClassRegistered`.
    RegisterClass,
    /// Read the screen rectangle of `target`. Answered by
    /// `Reply::TargetRect`.
    QueryTargetRect { target: usize },
    /// Create the overlay window. Answered by `Reply::WindowCreated`.
    CreateWindow { spec: WindowSpec },
    /// Extend the frame of `window` into its client area.
    ExtendFrame { window: usize, margins: Margins },
    /// Set the opacity of `window` as a whole.
    SetOpacity { window: usize, alpha: u8 },
    /// Show `window`.
    ShowWindow { window: usize },
    /// Create the graphics context. Answered by `Reply::ContextCreated`.
    CreateContext,
    /// Create a device on `context` that renders into `window`. Answered by
    /// `Reply::DeviceCreated`.
    CreateDevice {
        context: usize,
        window: usize,
        adapter: u32,
        device_type: u32,
        behavior: u32,
        parameters: PresentParameters,
    },
    /// Move and resize `window`.
    SetWindowPos { window: usize, placement: Placement },
    /// Set every pixel of the render target inside `region` to `color`,
    /// without blending; the whole target when `region` is `None`.
    Clear { device: usize, region: Option<Rect>, color: u32 },
    /// Open a scene on `device`.
    BeginScene { device: usize },
    /// Run the drawing callback once.
    InvokeCallback,
    /// Close the scene on `device`.
    EndScene { device: usize },
    /// Show the whole back buffer of `device` on the screen.
    Present { device: usize },
    /// Release `device`.
    ReleaseDevice { device: usize },
    /// Release the graphics context `context`.
    ReleaseContext { context: usize },
    /// Destroy `window`.
    DestroyWindow { window: usize },
}

/// What the host learned from the last action of a batch.
#[derive(Clone, Copy, Debug, PartialEq, Eq, Structural)]
pub enum Reply {
    /// Nothing to report: the batch asked no question.
    Nothing,
    /// The class atom that registration returned, 0 on failure, and the
    /// error code set by a failed registration.
    ClassRegistered { atom: u16, last_error: u32 },
    /// Whether the rectangle of the target could be read, and the rectangle.
    TargetRect { found: bool, rect: Rect },
    /// The handle of the new window, 0 if none was created.
    WindowCreated { window: usize },
    /// The handle of the new graphics context, 0 if none was created.
    ContextCreated { context: usize },
    /// The status that device creation returned, negative on failure, and
    /// the handle of the new device.
    DeviceCreated { status: i32, device: usize },
}

impl Action {
    /// Whether carrying out the action frees a resource.
    pub open spec fn releases(self) -> bool {
        self is ReleaseDevice || self is ReleaseContext || self is DestroyWindow
    }

    /// The handle the action operates on; 0 for an action that needs none.
    pub open spec fn handle(self) -> usize {
        match self {
            Action::DisableGhosting => 0,
            Action::RegisterClass => 0,
            Action::QueryTargetRect { target } => target,
            Action::CreateWindow { .. } => 0,
            Action::ExtendFrame { window, .. } => window,
            Action::SetOpacity { window, .. } => window,
            Action::ShowWindow { window } => window,
            Action::CreateContext => 0,
            Action::CreateDevice { context, .. } => context,
            Action::SetWindowPos { window, .. } => window,
            Action::Clear { device, .. } => device,
            Action::BeginScene { device } => device,
            Action::InvokeCallback => 0,
            Action::EndScene { device } => device,
            Action::Present { device } => device,
            Action::ReleaseDevice { device } => device,
            Action::ReleaseContext { context } => context,
            Action::DestroyWindow { window } => window,
        }
    }
}

impl Reply {
    /// Whether a registration reply means that the class is in place: a
    /// class atom came back, or the class was registered before.
    pub open spec fn class_in_place(self) -> bool {
        self matches Reply::ClassRegistered { atom, last_error } && (atom != 0 || last_error
            == ERROR_CLASS_ALREADY_EXISTS)
    }

    /// The rectangle a reply carries, if it carries one that a window can
    /// have.
    pub open spec fn usable_rect(self) -> Option<Rect> {
        match self {
            Reply::TargetRect { found, rect } => if found && rect.sound() {
                Some(rect)
            } else {
                None
            },
            _ => None,
        }
    }

    /// Tells whether a registration reply means that the class is in place.
    pub fn is_class_in_place(&self) -> (ok: bool)
        ensures
            ok == self.class_in_place(),
    {
        match self {
            Reply::ClassRegistered { atom, last_error } => *atom != 0 || *last_error
                == ERROR_CLASS_ALREADY_EXISTS,
            _ => false,
        }
    }

    /// Extracts the rectangle of a reply, if the reply carries one that a
    /// window can have.
    pub fn rect(&self) -> (rect: Option<Rect>)
        ensures
            rect == self.usable_rect(),
    {
        match self {
            Reply::TargetRect { found, rect } => if *found && rect.is_sound() {
                Some(*rect)
            } else {
                None
            },
            _ => None,
        }
    }
}

/// Decides what a message to the overlay window means for the overlay:
/// `true` for a destroy notification, which asks the overlay to stop, and
/// `false` for every other message.
///
/// In either case the host passes the message on to default processing.
pub fn wnd_proc(msg: u32) -> (stop: bool)
    ensures
        stop == (msg == WM_DESTROY),
{
    msg == WM_DESTROY
}

} // verus!
