//! The client side: widgets that draw themselves through the rasterizer
//! and answer clicks with a command, and the handle of a window that a
//! client has asked the compositor for.

use vstd::prelude::*;
use crate::color::Rgb;
use crate::protocol::{is_live, Envelope, IpcMessage, Pid, ServiceError, WindowId, INVALID_PID};

verus! {

/// What a click on a widget asks for. The widget says what happened; the
/// process that owns it carries the command out.
#[derive(Debug, Clone, Copy, PartialEq)]
pub enum Command {
    /// Nothing.
    Nothing,
    /// Send a message.
    Send(Envelope),
    /// Start a program.
    Launch { program: &'static str },
}

/// The commands among `answers`, in their order: what a row of widgets asks
/// for when each has answered one click.
pub open spec fn fired(answers: Seq<Option<Command>>) -> Seq<Command>
    decreases answers.len(),
{
    if answers.len() == 0 {
        Seq::empty()
    } else {
        match answers.last() {
            Some(command) => fired(answers.drop_last()).push(command),
            None => fired(answers.drop_last()),
        }
    }
}

/// Whether `(px, py)` lies in the rectangle of `width` by `height` at
/// `(x, y)`.
pub open spec fn in_bounds(x: u16, y: u16, width: u16, height: u16, px: int, py: int) -> bool {
    x <= px < x + width && y <= py < y + height
}

/// Tests whether a point lies in a rectangle.
pub fn point_in_bounds(x: u16, y: u16, width: u16, height: u16, px: u16, py: u16) -> (inside: bool)
    ensures
        inside == in_bounds(x, y, width, height, px as int, py as int),
{
    px >= x && (px as u32) < x as u32 + width as u32 && py >= y && (py as u32) < y as u32
        + height as u32
}

/// What every widget can do.
pub trait Widget {
    /// Whether the point lies on the widget.
    spec fn covers(&self, x: int, y: int) -> bool;

    /// The request that draws the widget, addressed to the rasterizer.
    fn draw(&self, window_id: WindowId, render_pid: Pid) -> (request: Envelope)
        ensures
            request.to == render_pid,
    ;

    /// Takes a click at `(x, y)` and returns what it asks for. A click off
    /// the widget asks for nothing.
    fn on_click(&mut self, x: u16, y: u16) -> (command: Option<Command>)
        ensures
            !old(self).covers(x as int, y as int) ==> command is None,
    ;
}

/// A push button: a filled rectangle with a command.
#[derive(Debug, Clone, Copy, PartialEq)]
pub struct Button {
    pub x: u16,
    pub y: u16,
    pub width: u16,
    pub height: u16,
    pub text: &'static str,
    pub color: Rgb,
    pub command: Command,
}

impl Button {
    /// The request that draws the button.
    pub open spec fn draw_request(self, render_pid: Pid) -> Envelope {
        Envelope {
            to: render_pid,
            message: IpcMessage::RenderDrawRect {
                x: self.x,
                y: self.y,
                w: self.width,
                h: self.height,
                color: self.color,
            },
        }
    }

    /// What a click at `(x, y)` asks of the button: its command where the
    /// point lies on it, nothing where it does not.
    pub open spec fn clicked(self, x: int, y: int) -> Option<Command> {
        if in_bounds(self.x, self.y, self.width, self.height, x, y) {
            Some(self.command)
        } else {
            None
        }
    }

    /// A button at `(x, y)` of `width` by `height` that asks for `command`
    /// when clicked.
    pub fn new(
        x: u16,
        y: u16,
        width: u16,
        height: u16,
        text: &'static str,
        color: Rgb,
        command: Command,
    ) -> (b: Button)
        ensures
            b == (Button { x, y, width, height, text, color, command }),
    {
        Button { x, y, width, height, text, color, command }
    }
}

impl Widget for Button {
    open spec fn covers(&self, x: int, y: int) -> bool {
        in_bounds(self.x, self.y, self.width, self.height, x, y)
    }

    /// The fill request for the button's rectangle in its color.
    fn draw(&self, window_id: WindowId, render_pid: Pid) -> (request: Envelope)
        ensures
            request == self.draw_request(render_pid),
    {
        Envelope {
            to: render_pid,
            message: IpcMessage::RenderDrawRect {
                x: self.x,
                y: self.y,
                w: self.width,
                h: self.height,
                color: self.color,
            },
        }
    }

    /// The button's command where the click lies on the button. The button
    /// itself does not change.
    fn on_click(&mut self, x: u16, y: u16) -> (command: Option<Command>)
        ensures
            command == old(self).clicked(x as int, y as int),
            *final(self) == *old(self),
    {
        if point_in_bounds(self.x, self.y, self.width, self.height, x, y) {
            Some(self.command)
        } else {
            None
        }
    }
}

/// The color of an icon's plate: a light gray.
pub open spec fn spec_icon_color() -> Rgb {
    Rgb { r: 200, g: 200, b: 200 }
}

/// The color of an icon's plate.
#[verifier::when_used_as_spec(spec_icon_color)]
pub fn icon_color() -> (c: Rgb)
    ensures
        c == spec_icon_color(),
{
    Rgb { r: 200, g: 200, b: 200 }
}

/// An icon: a square plate with a name and a command.
#[derive(Debug, Clone, Copy, PartialEq)]
pub struct Icon {
    pub x: u16,
    pub y: u16,
    pub width: u16,
    pub height: u16,
    pub name: &'static str,
    pub command: Command,
}

impl Icon {
    /// The request that draws the icon.
    pub open spec fn draw_request(self, render_pid: Pid) -> Envelope {
        Envelope {
            to: render_pid,
            message: IpcMessage::RenderDrawRect {
                x: self.x,
                y: self.y,
                w: self.width,
                h: self.height,
                color: icon_color(),
            },
        }
    }

    /// What a click at `(x, y)` asks of the icon: its command where the
    /// point lies on it, nothing where it does not.
    pub open spec fn clicked(self, x: int, y: int) -> Option<Command> {
        if in_bounds(self.x, self.y, self.width, self.height, x, y) {
            Some(self.command)
        } else {
            None
        }
    }

    /// An icon at `(x, y)` of `width` by `height` that asks for `command`
    /// when clicked.
    pub fn new(x: u16, y: u16, width: u16, height: u16, name: &'static str, command: Command) -> (i:
        Icon)
        ensures
            i == (Icon { x, y, width, height, name, command }),
    {
        Icon { x, y, width, height, name, command }
    }
}

impl Widget for Icon {
    open spec fn covers(&self, x: int, y: int) -> bool {
        in_bounds(self.x, self.y, self.width, self.height, x, y)
    }

    /// The fill request for the icon's plate.
    fn draw(&self, window_id: WindowId, render_pid: Pid) -> (request: Envelope)
        ensures
            request == self.draw_request(render_pid),
    {
        Envelope {
            to: render_pid,
            message: IpcMessage::RenderDrawRect {
                x: self.x,
                y: self.y,
                w: self.width,
                h: self.height,
                color: icon_color(),
            },
        }
    }

    /// The icon's command where the click lies on the icon. The icon itself
    /// does not change.
    fn on_click(&mut self, x: u16, y: u16) -> (command: Option<Command>)
        ensures
            command == old(self).clicked(x as int, y as int),
            *final(self) == *old(self),
    {
        if point_in_bounds(self.x, self.y, self.width, self.height, x, y) {
            Some(self.command)
        } else {
            None
        }
    }
}

/// The handle that a client holds of the window it asked for.
#[derive(Debug, Clone, Copy, PartialEq)]
pub struct Window {
    id: WindowId,
    wm_pid: Pid,
}

/// The id that a client's handle carries: the first one that the compositor
/// gives out.
pub const FIRST_WINDOW_ID: WindowId = 1;

impl Window {
    /// The id in the handle.
    pub closed spec fn spec_id(&self) -> WindowId {
        self.id
    }

    /// The compositor's address in the handle.
    pub closed spec fn spec_wm_pid(&self) -> Pid {
        self.wm_pid
    }

    /// The request that asks the compositor at `wm_pid` for a window.
    pub open spec fn open_request(
        wm_pid: Pid,
        title: &'static str,
        x: u16,
        y: u16,
        width: u16,
        height: u16,
    ) -> Envelope {
        Envelope { to: wm_pid, message: IpcMessage::WmCreateWindow { x, y, w: width, h: height, title } }
    }

    /// Asks the compositor at `wm_pid` for a window: returns the handle and
    /// the request to send. Without a compositor there is no window: the
    /// lookup sentinel is answered with `NotFound`.
    pub fn new(wm_pid: Pid, title: &'static str, x: u16, y: u16, width: u16, height: u16) -> (made:
        Result<(Window, Envelope), ServiceError>)
        ensures
            match made {
                Ok((window, request)) => {
                    &&& is_live(wm_pid)
                    &&& window.spec_id() == FIRST_WINDOW_ID
                    &&& window.spec_wm_pid() == wm_pid
                    &&& request == Window::open_request(wm_pid, title, x, y, width, height)
                },
                Err(e) => !is_live(wm_pid) && e == ServiceError::NotFound,
            },
    {
        if wm_pid == INVALID_PID {
            return Err(ServiceError::NotFound);
        }
        let request = Envelope {
            to: wm_pid,
            message: IpcMessage::WmCreateWindow { x, y, w: width, h: height, title },
        };
        Ok((Window { id: FIRST_WINDOW_ID, wm_pid }, request))
    }

    /// The window's id.
    #[verifier::when_used_as_spec(spec_id)]
    pub fn id(&self) -> (id: WindowId)
        ensures
            id == self.spec_id(),
    {
        self.id
    }

    /// The address of the compositor that the window was asked of.
    #[verifier::when_used_as_spec(spec_wm_pid)]
    pub fn wm_pid(&self) -> (pid: Pid)
        ensures
            pid == self.spec_wm_pid(),
    {
        self.wm_pid
    }
}

} // verus!
