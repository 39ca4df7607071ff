//! The messages that the services exchange, the names they are found by,
//! and the errors that may stop a service at startup.

use vstd::prelude::*;
use crate::color::Rgb;

verus! {

/// The address of a process. Zero is what a failed lookup yields.
pub type Pid = u64;

/// The identity of a window. Zero is reserved for "no window".
pub type WindowId = u32;

/// The address that stands for "no such service".
pub const INVALID_PID: Pid = 0;

/// The id that no window ever has.
pub const NO_WINDOW: WindowId = 0;

/// The base address that stands for "no surface".
pub const NULL_BASE: u64 = 0;

/// The name under which the compositor registers.
pub const WM_SERVICE: &'static str = "wm";

/// The name under which the rasterizer registers.
pub const RENDER_SERVICE: &'static str = "render";

/// The name under which the framebuffer service registers.
pub const GPU_SERVICE: &'static str = "gpu-driver";

/// The closed set of messages of the protocol.
///
/// A surface is named in a reply by its base address as a plain number;
/// zero means that there is none.
#[derive(Debug, Clone, Copy, PartialEq)]
pub enum IpcMessage {
    /// Rasterizer to framebuffer service: acquire the display.
    GpuInit { width: u16, height: u16 },
    /// Rasterizer to framebuffer service: ask for the handle again.
    GpuGetFb,
    /// Rasterizer to framebuffer service: make the written pixels visible.
    GpuFlush,
    /// Framebuffer service to rasterizer: the display handle.
    GpuFbReply { fb: u64, width: u16, height: u16 },
    /// Anyone to rasterizer: set one pixel.
    RenderDrawPixel { x: u16, y: u16, color: Rgb },
    /// Anyone to rasterizer: fill a rectangle.
    RenderDrawRect { x: u16, y: u16, w: u16, h: u16, color: Rgb },
    /// Client to compositor: open a window.
    WmCreateWindow { x: u16, y: u16, w: u16, h: u16, title: &'static str },
    /// Input source to compositor or shell: a click.
    MouseClick { x: u16, y: u16 },
    /// Compositor to the owning client: the window is open.
    WmWindowOpened { title: &'static str, window_id: WindowId },
    /// Anyone to compositor: give a window the focus.
    WmFocusWindow { window_id: WindowId },
    /// Input source to shell: the pointer moved.
    MouseMove { x: u16, y: u16 },
    /// Anyone to rasterizer: draw a line of text.
    RenderDrawText { x: u16, y: u16, text: &'static str, color: Rgb },
}

/// A message together with the process it is for.
#[derive(Debug, Clone, Copy, PartialEq)]
pub struct Envelope {
    pub to: Pid,
    pub message: IpcMessage,
}

/// What makes a service give up at startup. Errors met while drawing are
/// absorbed where they occur and never reach a caller.
#[derive(Debug, Clone, Copy, PartialEq, Eq, Structural)]
pub enum ServiceError {
    /// A service name resolved to no live process.
    NotFound,
    /// The framebuffer service has no usable surface to offer.
    InvalidHandle,
}

/// Whether `pid` is the address of a process, and not the lookup sentinel.
pub open spec fn is_live(pid: Pid) -> bool {
    pid != INVALID_PID
}

/// The reply that carries no surface: null base, zero width, zero height.
pub open spec fn no_surface_reply() -> IpcMessage {
    IpcMessage::GpuFbReply { fb: NULL_BASE, width: 0, height: 0 }
}

} // verus!
