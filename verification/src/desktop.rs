//! The desktop shell: a task bar at the top of the screen with one button
//! per open window, and a dock at the bottom with the icons of a few
//! programs. The shell is a client like any other: it draws through the
//! rasterizer and asks the compositor for focus changes.

use vstd::prelude::*;
use crate::color::Rgb;
use crate::protocol::{is_live, Envelope, IpcMessage, Pid, ServiceError, WindowId, INVALID_PID, NO_WINDOW};
use crate::widget::{fired, in_bounds, point_in_bounds, Button, Command, Icon, Widget};

verus! {

/// The height of the task bar.
pub const TASKBAR_HEIGHT: u16 = 24;

/// How far from the task bar's right end the clock starts.
pub const CLOCK_INSET: u16 = 50;

/// The height of the dock.
pub const DOCK_HEIGHT: u16 = 48;

/// The side of an icon at rest.
pub const ICON_SIZE: u16 = 32;

/// The side of an icon under the pointer.
pub const ICON_HOVER_SIZE: u16 = 40;

/// The gap between two icons, and the dock's margin on either side.
pub const ICON_GAP: u16 = 10;

/// The distance from one icon's left edge to the next one's.
pub const ICON_PITCH: u16 = 42;

/// How far below the dock's top edge its icons stand.
pub const ICON_DROP: u16 = 8;

/// The width of the dock's three icons with the gaps between them.
pub const DOCK_ICONS_WIDTH: u16 = 116;

/// The width of the dock's plate: the icons, their gaps and both margins.
pub const DOCK_PLATE_WIDTH: u16 = 136;

/// The width of the screen that the shell lays itself out for.
pub const SCREEN_WIDTH: u16 = 800;

/// The height of the screen that the shell lays itself out for.
pub const SCREEN_HEIGHT: u16 = 600;

/// The map from a button to the request that draws it.
pub open spec fn button_drawer(render_pid: Pid) -> spec_fn(Button) -> Envelope {
    |b: Button| b.draw_request(render_pid)
}

/// The fill request for a rectangle, addressed to the rasterizer.
pub open spec fn fill(render_pid: Pid, x: u16, y: u16, w: u16, h: u16, color: Rgb) -> Envelope {
    Envelope { to: render_pid, message: IpcMessage::RenderDrawRect { x, y, w, h, color } }
}

/// The request for a line of white text, addressed to the rasterizer.
pub open spec fn label(render_pid: Pid, x: u16, y: u16, text: &'static str) -> Envelope {
    Envelope {
        to: render_pid,
        message: IpcMessage::RenderDrawText { x, y, text, color: Rgb { r: 255, g: 255, b: 255 } },
    }
}

/// The task bar.
pub struct Taskbar {
    pub x: u16,
    pub y: u16,
    pub width: u16,
    pub height: u16,
    /// One button per open window.
    pub window_buttons: Vec<Button>,
    /// The clock's text.
    pub time_text: &'static str,
}

impl Taskbar {
    /// The button that `add_window_button` makes: a click on it asks the
    /// compositor at `wm_pid` to give the window the focus.
    pub open spec fn window_button(title: &'static str, window_id: WindowId, wm_pid: Pid) -> Button {
        Button {
            x: 0,
            y: 0,
            width: 100,
            height: 20,
            text: title,
            color: Rgb { r: 100, g: 100, b: 100 },
            command: Command::Send(
                Envelope { to: wm_pid, message: IpcMessage::WmFocusWindow { window_id } },
            ),
        }
    }

    /// The requests that draw the task bar: its dark plate, the title at
    /// the left, the clock at the right, then every window button.
    pub open spec fn draw_requests(&self, render_pid: Pid) -> Seq<Envelope> {
        seq![
            fill(render_pid, self.x, self.y, self.width, self.height, Rgb { r: 50, g: 50, b: 50 }),
            label(render_pid, 10, 4, "RUI Desktop"),
            label(render_pid, (self.width - CLOCK_INSET) as u16, 4, self.time_text),
        ] + self.window_buttons@.map_values(button_drawer(render_pid))
    }

    /// The task bar of a screen of the given width: at the top, as wide as
    /// the screen, without buttons.
    pub fn new(screen_width: u16) -> (t: Taskbar)
        ensures
            t.x == 0,
            t.y == 0,
            t.width == screen_width,
            t.height == TASKBAR_HEIGHT,
            t.window_buttons@ == Seq::<Button>::empty(),
            t.time_text == "12:00",
    {
        Taskbar {
            x: 0,
            y: 0,
            width: screen_width,
            height: TASKBAR_HEIGHT,
            window_buttons: Vec::new(),
            time_text: "12:00",
        }
    }

    /// The requests that draw the task bar. The bar must be wide enough
    /// for the clock.
    pub fn draw(&self, render_pid: Pid) -> (out: Vec<Envelope>)
        requires
            self.width >= CLOCK_INSET,
        ensures
            out@ == self.draw_requests(render_pid),
    {
        let white = Rgb { r: 255, g: 255, b: 255 };
        let mut out: Vec<Envelope> = Vec::new();
        out.push(
            Envelope {
                to: render_pid,
                message: IpcMessage::RenderDrawRect {
                    x: self.x,
                    y: self.y,
                    w: self.width,
                    h: self.height,
                    color: Rgb { r: 50, g: 50, b: 50 },
                },
            },
        );
        out.push(
            Envelope {
                to: render_pid,
                message: IpcMessage::RenderDrawText { x: 10, y: 4, text: "RUI Desktop", color: white },
            },
        );
        out.push(
            Envelope {
                to: render_pid,
                message: IpcMessage::RenderDrawText {
                    x: self.width - CLOCK_INSET,
                    y: 4,
                    text: self.time_text,
                    color: white,
                },
            },
        );
        let ghost head = out@;
        let ghost draw = button_drawer(render_pid);
        let count = self.window_buttons.len();
        let mut i: usize = 0;
        assert(self.window_buttons@.take(0).map_values(draw) =~= Seq::<Envelope>::empty());
        assert(head + Seq::<Envelope>::empty() =~= head);
        while i < count
            invariant
                i <= count,
                count == self.window_buttons.len(),
                draw == button_drawer(render_pid),
                out@ == head + self.window_buttons@.take(i as int).map_values(draw),
            decreases count - i,
        {
            let button = self.window_buttons[i];
            out.push(button.draw(NO_WINDOW, render_pid));
            proof {
                let done = self.window_buttons@.take(i as int);
                assert(self.window_buttons@.take(i + 1) =~= done.push(button));
                assert(done.push(button).map_values(draw) =~= done.map_values(draw).push(
                    draw(button),
                ));
                assert(head + done.map_values(draw).push(draw(button)) =~= (head + done.map_values(
                    draw,
                )).push(draw(button)));
            }
            i += 1;
        }
        assert(self.window_buttons@.take(count as int) =~= self.window_buttons@);
        out
    }

    /// Adds the button of a window that has opened.
    pub fn add_window_button(&mut self, title: &'static str, window_id: WindowId, wm_pid: Pid)
        ensures
            final(self).window_buttons@ == old(self).window_buttons@.push(
                Taskbar::window_button(title, window_id, wm_pid),
            ),
            final(self).x == old(self).x,
            final(self).y == old(self).y,
            final(self).width == old(self).width,
            final(self).height == old(self).height,
            final(self).time_text == old(self).time_text,
    {
        self.window_buttons.push(
            Button::new(
                0,
                0,
                100,
                20,
                title,
                Rgb { r: 100, g: 100, b: 100 },
                Command::Send(
                    Envelope { to: wm_pid, message: IpcMessage::WmFocusWindow { window_id } },
                ),
            ),
        );
    }
}

/// The map that sizes an icon by the pointer: the hover size where the
/// pointer at `(x, y)` lies on the icon, the rest size where it does not.
pub open spec fn hover(x: int, y: int) -> spec_fn(Icon) -> Icon {
    |icon: Icon|
        if in_bounds(icon.x, icon.y, icon.width, icon.height, x, y) {
            Icon { width: ICON_HOVER_SIZE, height: ICON_HOVER_SIZE, ..icon }
        } else {
            Icon { width: ICON_SIZE, height: ICON_SIZE, ..icon }
        }
}

/// The map from an icon to what a click at `(x, y)` asks of it.
pub open spec fn icon_click(x: int, y: int) -> spec_fn(Icon) -> Option<Command> {
    |icon: Icon| icon.clicked(x, y)
}

/// The map from a button to what a click at `(x, y)` asks of it.
pub open spec fn button_click(x: int, y: int) -> spec_fn(Button) -> Option<Command> {
    |button: Button| button.clicked(x, y)
}

/// The map that wraps a message as the command to send it.
pub open spec fn sending() -> spec_fn(Envelope) -> Command {
    |e: Envelope| Command::Send(e)
}

/// The dock.
pub struct Dock {
    /// The left edge of the first icon.
    pub x: u16,
    pub y: u16,
    pub height: u16,
    pub icons: Vec<Icon>,
}

impl Dock {
    /// The icon that starts `program`, not yet placed.
    pub open spec fn launcher(name: &'static str, program: &'static str) -> Icon {
        Icon {
            x: 0,
            y: 0,
            width: ICON_SIZE,
            height: ICON_SIZE,
            name,
            command: Command::Launch { program },
        }
    }

    /// The icons of a new dock.
    pub open spec fn default_icons() -> Seq<Icon> {
        seq![
            Dock::launcher("calc", "rui-app-calculator"),
            Dock::launcher("editor", "rui-app-text-editor"),
            Dock::launcher("terminal", "rui-app-terminal"),
        ]
    }

    /// Whether the dock can be drawn: there is room for the margin left of
    /// the first icon, and every icon's place is a coordinate.
    pub open spec fn drawable(&self) -> bool {
        &&& self.x >= ICON_GAP
        &&& self.y + ICON_DROP <= u16::MAX
        &&& self.icons@.len() > 0 ==> self.x + ICON_PITCH * (self.icons@.len() - 1) <= u16::MAX
    }

    /// Icon `k` as it is drawn: in its place in the row.
    pub open spec fn placed(&self, k: int) -> Icon {
        Icon {
            x: (self.x + ICON_PITCH * k) as u16,
            y: (self.y + ICON_DROP) as u16,
            ..self.icons@[k]
        }
    }

    /// The requests that draw the dock: its plate, then the icons in a
    /// row from left to right.
    pub open spec fn draw_requests(&self, render_pid: Pid) -> Seq<Envelope> {
        seq![
            fill(
                render_pid,
                (self.x - ICON_GAP) as u16,
                self.y,
                DOCK_PLATE_WIDTH,
                self.height,
                Rgb { r: 80, g: 80, b: 80 },
            ),
        ] + Seq::new(self.icons@.len(), |k: int| self.placed(k).draw_request(render_pid))
    }

    /// The dock of a screen of the given size: at the bottom, its three
    /// icons centered. The screen must have room for the icons and for the
    /// dock's height.
    pub fn new(screen_width: u16, screen_height: u16, wm_pid: Pid) -> (d: Dock)
        requires
            screen_width >= DOCK_ICONS_WIDTH,
            screen_height >= DOCK_HEIGHT,
        ensures
            d.x == (screen_width - DOCK_ICONS_WIDTH) / 2,
            d.y == screen_height - DOCK_HEIGHT,
            d.height == DOCK_HEIGHT,
            d.icons@ == Dock::default_icons(),
            screen_width >= DOCK_PLATE_WIDTH ==> d.drawable(),
    {
        let mut icons: Vec<Icon> = Vec::new();
        icons.push(
            Icon::new(0, 0, ICON_SIZE, ICON_SIZE, "calc", Command::Launch { program: "rui-app-calculator" }),
        );
        icons.push(
            Icon::new(
                0,
                0,
                ICON_SIZE,
                ICON_SIZE,
                "editor",
                Command::Launch { program: "rui-app-text-editor" },
            ),
        );
        icons.push(
            Icon::new(
                0,
                0,
                ICON_SIZE,
                ICON_SIZE,
                "terminal",
                Command::Launch { program: "rui-app-terminal" },
            ),
        );
        assert(icons@ =~= Dock::default_icons());
        Dock {
            x: (screen_width - DOCK_ICONS_WIDTH) / 2,
            y: screen_height - DOCK_HEIGHT,
            height: DOCK_HEIGHT,
            icons,
        }
    }

    /// Tests whether the dock can be drawn.
    pub fn is_drawable(&self) -> (b: bool)
        ensures
            b == self.drawable(),
    {
        let count = self.icons.len();
        if self.x < ICON_GAP || self.y > u16::MAX - ICON_DROP {
            return false;
        }
        if count == 0 {
            return true;
        }
        let room: u16 = (u16::MAX - self.x) / ICON_PITCH;
        assert(self.x + ICON_PITCH * (count - 1) <= u16::MAX <==> count - 1 <= room) by {
            let x = self.x as int;
            let n = count - 1;
            assert(room == (65535 - x) / 42);
            if n <= room {
                assert(42 * n <= 42 * room) by (nonlinear_arith)
                    requires
                        n <= room,
                ;
            } else {
                assert(42 * n >= 42 * (room + 1)) by (nonlinear_arith)
                    requires
                        n >= room + 1,
                ;
            }
        }
        count - 1 <= room as usize
    }

    /// The requests that draw the dock.
    pub fn draw(&self, render_pid: Pid) -> (out: Vec<Envelope>)
        requires
            self.drawable(),
        ensures
            out@ == self.draw_requests(render_pid),
    {
        let mut out: Vec<Envelope> = Vec::new();
        out.push(
            Envelope {
                to: render_pid,
                message: IpcMessage::RenderDrawRect {
                    x: self.x - ICON_GAP,
                    y: self.y,
                    w: DOCK_PLATE_WIDTH,
                    h: self.height,
                    color: Rgb { r: 80, g: 80, b: 80 },
                },
            },
        );
        let count = self.icons.len();
        let mut i: usize = 0;
        let mut icon_x: u32 = self.x as u32;
        while i < count
            invariant
                i <= count,
                count == self.icons.len(),
                self.drawable(),
                icon_x == self.x + ICON_PITCH * i,
                out@.len() == 1 + i,
                out@[0] == self.draw_requests(render_pid)[0],
                forall|k: int|
                    1 <= k < 1 + i ==> #[trigger] out@[k] == self.placed(k - 1).draw_request(
                        render_pid,
                    ),
            decreases count - i,
        {
            assert(ICON_PITCH * i <= ICON_PITCH * (count - 1)) by (nonlinear_arith)
                requires
                    i <= count - 1,
            ;
            let mut icon = self.icons[i];
            icon.x = icon_x as u16;
            icon.y = self.y + ICON_DROP;
            out.push(icon.draw(NO_WINDOW, render_pid));
            i += 1;
            icon_x += ICON_PITCH as u32;
        }
        assert(out@ =~= self.draw_requests(render_pid));
        out
    }

    /// Sizes every icon by the pointer at `(x, y)`: the icon under it
    /// grows, every other icon is at its rest size.
    pub fn handle_hover(&mut self, x: u16, y: u16)
        ensures
            final(self).icons@ == old(self).icons@.map_values(hover(x as int, y as int)),
            final(self).x == old(self).x,
            final(self).y == old(self).y,
            final(self).height == old(self).height,
    {
        let count = self.icons.len();
        let ghost grow = hover(x as int, y as int);
        let mut i: usize = 0;
        while i < count
            invariant
                i <= count,
                count == self.icons.len(),
                count == old(self).icons.len(),
                grow == hover(x as int, y as int),
                self.x == old(self).x,
                self.y == old(self).y,
                self.height == old(self).height,
                forall|k: int| 0 <= k < i ==> #[trigger] self.icons[k] == grow(old(self).icons[k]),
                forall|k: int| i <= k < count ==> #[trigger] self.icons[k] == old(self).icons[k],
            decreases count - i,
        {
            let mut icon = self.icons[i];
            if point_in_bounds(icon.x, icon.y, icon.width, icon.height, x, y) {
                icon.width = ICON_HOVER_SIZE;
                icon.height = ICON_HOVER_SIZE;
            } else {
                icon.width = ICON_SIZE;
                icon.height = ICON_SIZE;
            }
            self.icons.set(i, icon);
            i += 1;
        }
        assert(self.icons@ =~= old(self).icons@.map_values(grow));
    }
}

/// Wraps every message as the command to send it.
pub fn send_all(requests: Vec<Envelope>) -> (out: Vec<Command>)
    ensures
        out@ == requests@.map_values(sending()),
{
    let mut out: Vec<Command> = Vec::new();
    let count = requests.len();
    let mut i: usize = 0;
    while i < count
        invariant
            i <= count,
            count == requests.len(),
            out@.len() == i,
            forall|k: int| 0 <= k < i ==> #[trigger] out@[k] == Command::Send(requests@[k]),
        decreases count - i,
    {
        out.push(Command::Send(requests[i]));
        i += 1;
    }
    assert(out@ =~= requests@.map_values(sending()));
    out
}

/// The shell's state.
pub struct Desktop {
    pub screen_width: u16,
    pub screen_height: u16,
    /// The compositor's address.
    pub wm_pid: Pid,
    /// The rasterizer's address.
    pub render_pid: Pid,
    pub taskbar: Taskbar,
    pub dock: Dock,
}

impl Desktop {
    /// Both services are known, and the task bar and the dock can be drawn.
    pub open spec fn wf(&self) -> bool {
        &&& is_live(self.wm_pid)
        &&& is_live(self.render_pid)
        &&& self.taskbar.width >= CLOCK_INSET
        &&& self.dock.drawable()
    }

    /// The requests that draw the whole desktop: the background, then the
    /// task bar, then the dock.
    pub open spec fn draw_requests(&self) -> Seq<Envelope> {
        seq![
            fill(
                self.render_pid,
                0,
                0,
                self.screen_width,
                self.screen_height,
                Rgb { r: 240, g: 240, b: 240 },
            ),
        ] + self.taskbar.draw_requests(self.render_pid) + self.dock.draw_requests(self.render_pid)
    }

    /// What a click at `(x, y)` asks for: the commands of the dock's icons
    /// that it lies on, then those of the task bar's buttons that it lies
    /// on.
    pub open spec fn click_commands(&self, x: int, y: int) -> Seq<Command> {
        fired(self.dock.icons@.map_values(icon_click(x, y))) + fired(
            self.taskbar.window_buttons@.map_values(button_click(x, y)),
        )
    }

    /// The shell of the screen, with its task bar and its dock, talking to
    /// the compositor at `wm_pid` and the rasterizer at `render_pid`.
    /// Without either service there is no shell: a lookup sentinel is
    /// answered with `NotFound`.
    pub fn init(wm_pid: Pid, render_pid: Pid) -> (made: Result<Desktop, ServiceError>)
        ensures
            match made {
                Ok(d) => {
                    &&& is_live(wm_pid) && is_live(render_pid)
                    &&& d.wf()
                    &&& d.screen_width == SCREEN_WIDTH
                    &&& d.screen_height == SCREEN_HEIGHT
                    &&& d.wm_pid == wm_pid
                    &&& d.render_pid == render_pid
                    &&& d.taskbar.x == 0 && d.taskbar.y == 0
                    &&& d.taskbar.width == SCREEN_WIDTH
                    &&& d.taskbar.height == TASKBAR_HEIGHT
                    &&& d.taskbar.window_buttons@ == Seq::<Button>::empty()
                    &&& d.dock.x == (SCREEN_WIDTH - DOCK_ICONS_WIDTH) / 2
                    &&& d.dock.y == SCREEN_HEIGHT - DOCK_HEIGHT
                    &&& d.dock.height == DOCK_HEIGHT
                    &&& d.dock.icons@ == Dock::default_icons()
                },
                Err(e) => e == ServiceError::NotFound && !(is_live(wm_pid) && is_live(render_pid)),
            },
    {
        if wm_pid == INVALID_PID || render_pid == INVALID_PID {
            return Err(ServiceError::NotFound);
        }
        let taskbar = Taskbar::new(SCREEN_WIDTH);
        let dock = Dock::new(SCREEN_WIDTH, SCREEN_HEIGHT, wm_pid);
        Ok(
            Desktop {
                screen_width: SCREEN_WIDTH,
                screen_height: SCREEN_HEIGHT,
                wm_pid,
                render_pid,
                taskbar,
                dock,
            },
        )
    }

    /// Tests whether the shell is in order: `wf` as a run-time test.
    pub fn is_well_formed(&self) -> (b: bool)
        ensures
            b == self.wf(),
    {
        self.wm_pid != INVALID_PID && self.render_pid != INVALID_PID && self.taskbar.width
            >= CLOCK_INSET && self.dock.is_drawable()
    }

    /// The requests that draw the whole desktop.
    pub fn draw(&self) -> (out: Vec<Envelope>)
        requires
            self.wf(),
        ensures
            out@ == self.draw_requests(),
    {
        let mut out: Vec<Envelope> = Vec::new();
        out.push(
            Envelope {
                to: self.render_pid,
                message: IpcMessage::RenderDrawRect {
                    x: 0,
                    y: 0,
                    w: self.screen_width,
                    h: self.screen_height,
                    color: Rgb { r: 240, g: 240, b: 240 },
                },
            },
        );
        let mut bar = self.taskbar.draw(self.render_pid);
        let mut dock = self.dock.draw(self.render_pid);
        out.append(&mut bar);
        out.append(&mut dock);
        out
    }

    /// What a click at `(x, y)` asks for. Nothing changes.
    pub fn click(&self, x: u16, y: u16) -> (out: Vec<Command>)
        ensures
            out@ == self.click_commands(x as int, y as int),
    {
        let mut out: Vec<Command> = Vec::new();
        let ghost on_icon = icon_click(x as int, y as int);
        let ghost on_button = button_click(x as int, y as int);
        let icons = self.dock.icons.len();
        let mut i: usize = 0;
        assert(self.dock.icons@.take(0).map_values(on_icon) =~= Seq::<Option<Command>>::empty());
        while i < icons
            invariant
                i <= icons,
                icons == self.dock.icons.len(),
                on_icon == icon_click(x as int, y as int),
                out@ == fired(self.dock.icons@.take(i as int).map_values(on_icon)),
            decreases icons - i,
        {
            let mut icon = self.dock.icons[i];
            let answer = icon.on_click(x, y);
            proof {
                let done = self.dock.icons@.take(i as int);
                let next = self.dock.icons@.take(i + 1).map_values(on_icon);
                assert(self.dock.icons@.take(i + 1) =~= done.push(icon));
                assert(next.drop_last() =~= done.map_values(on_icon));
                assert(next.last() == answer);
            }
            if let Some(command) = answer {
                out.push(command);
            }
            i += 1;
        }
        assert(self.dock.icons@.take(icons as int) =~= self.dock.icons@);
        let ghost from_icons = out@;
        let buttons = self.taskbar.window_buttons.len();
        let mut j: usize = 0;
        assert(self.taskbar.window_buttons@.take(0).map_values(on_button) =~= Seq::<
            Option<Command>,
        >::empty());
        assert(from_icons + Seq::<Command>::empty() =~= from_icons);
        while j < buttons
            invariant
                j <= buttons,
                buttons == self.taskbar.window_buttons.len(),
                on_button == button_click(x as int, y as int),
                out@ == from_icons + fired(
                    self.taskbar.window_buttons@.take(j as int).map_values(on_button),
                ),
            decreases buttons - j,
        {
            let mut button = self.taskbar.window_buttons[j];
            let answer = button.on_click(x, y);
            proof {
                let done = self.taskbar.window_buttons@.take(j as int);
                let next = self.taskbar.window_buttons@.take(j + 1).map_values(on_button);
                assert(self.taskbar.window_buttons@.take(j + 1) =~= done.push(button));
                assert(next.drop_last() =~= done.map_values(on_button));
                assert(next.last() == answer);
                if answer is Some {
                    assert(from_icons + fired(done.map_values(on_button)).push(answer.unwrap())
                        =~= (from_icons + fired(done.map_values(on_button))).push(answer.unwrap()));
                }
            }
            if let Some(command) = answer {
                out.push(command);
            }
            j += 1;
        }
        assert(self.taskbar.window_buttons@.take(buttons as int) =~= self.taskbar.window_buttons@);
        out
    }

    /// Serves one message and returns the commands to carry out, in order.
    /// A click asks the widgets under it. A move of the pointer sizes the
    /// dock's icons and redraws the dock. The note that a window has opened
    /// adds its button to the task bar and redraws the task bar. Any other
    /// message is ignored.
    pub fn handle_ipc_message(&mut self, message: IpcMessage) -> (out: Vec<Command>)
        requires
            old(self).wf(),
        ensures
            final(self).wf(),
            final(self).screen_width == old(self).screen_width,
            final(self).screen_height == old(self).screen_height,
            final(self).wm_pid == old(self).wm_pid,
            final(self).render_pid == old(self).render_pid,
            final(self).taskbar.x == old(self).taskbar.x,
            final(self).taskbar.y == old(self).taskbar.y,
            final(self).taskbar.width == old(self).taskbar.width,
            final(self).taskbar.height == old(self).taskbar.height,
            final(self).taskbar.time_text == old(self).taskbar.time_text,
            final(self).dock.x == old(self).dock.x,
            final(self).dock.y == old(self).dock.y,
            final(self).dock.height == old(self).dock.height,
            final(self).dock.icons@ == (match message {
                IpcMessage::MouseMove { x, y } => old(self).dock.icons@.map_values(
                    hover(x as int, y as int),
                ),
                _ => old(self).dock.icons@,
            }),
            final(self).taskbar.window_buttons@ == (match message {
                IpcMessage::WmWindowOpened { title, window_id } => old(
                    self,
                ).taskbar.window_buttons@.push(
                    Taskbar::window_button(title, window_id, old(self).wm_pid),
                ),
                _ => old(self).taskbar.window_buttons@,
            }),
            out@ == (match message {
                IpcMessage::MouseClick { x, y } => old(self).click_commands(x as int, y as int),
                IpcMessage::MouseMove { .. } => final(self).dock.draw_requests(
                    old(self).render_pid,
                ).map_values(sending()),
                IpcMessage::WmWindowOpened { .. } => final(self).taskbar.draw_requests(
                    old(self).render_pid,
                ).map_values(sending()),
                _ => Seq::<Command>::empty(),
            }),
    {
        match message {
            IpcMessage::MouseClick { x, y } => self.click(x, y),
            IpcMessage::MouseMove { x, y } => {
                self.dock.handle_hover(x, y);
                send_all(self.dock.draw(self.render_pid))
            },
            IpcMessage::WmWindowOpened { title, window_id } => {
                self.taskbar.add_window_button(title, window_id, self.wm_pid);
                send_all(self.taskbar.draw(self.render_pid))
            },
            _ => Vec::new(),
        }
    }
}

} // verus!
