//! A small windowing stack as a library: the message protocol shared by its
//! services, the framebuffer service that owns the display surface, the
//! rasterizer that draws into it, and the compositor that keeps windows,
//! focus and z-order.
//!
//! Every service is a state value with methods that take an incoming message
//! and return the messages to send. Nothing here performs I/O: the process
//! that embeds a service receives, calls, and sends.
//!
//! A service that needs another one is handed the address that the lookup
//! of its name gave. The lookup's sentinel means that the other service is
//! absent; this is never retried: the service reports `NotFound` and its
//! process is expected to go idle until a supervisor restarts it. Whatever
//! goes wrong while drawing is absorbed where it happens: a coordinate off
//! the surface is clamped or dropped, a character without a glyph ends its
//! text, a message that a service does not expect is ignored.

pub mod color;
pub mod desktop;
pub mod font;
pub mod gpu;
pub mod protocol;
pub mod render;
pub mod surface;
pub mod widget;
pub mod wm;

pub use color::{Pixel, Rgb};
pub use protocol::{Envelope, IpcMessage, Pid, ServiceError, WindowId};
pub use widget::{Button, Widget, Window};
