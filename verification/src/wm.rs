//! The compositor: it owns the windows in their stacking order and the
//! focus, and turns every change into fill requests for the rasterizer.
//!
//! The windows stand in creation order, which is the stacking order: the
//! last one is topmost. A window that is closed keeps its place.

use vstd::prelude::*;
use crate::color::Rgb;
use crate::protocol::{
    is_live, Envelope, IpcMessage, Pid, ServiceError, WindowId, INVALID_PID, NO_WINDOW,
};

verus! {

/// The height of a window's title bar, whatever the window's own height.
pub const TITLEBAR_HEIGHT: u16 = 24;

/// The color of a window's body: a light gray.
pub open spec fn spec_window_background() -> Rgb {
    Rgb { r: 240, g: 240, b: 240 }
}

/// The color of the title bar of the window that has the focus: a dark
/// blue.
pub open spec fn spec_titlebar_focused() -> Rgb {
    Rgb { r: 0, g: 50, b: 150 }
}

/// The color of the title bar of a window that does not have the focus: a
/// gray.
pub open spec fn spec_titlebar_unfocused() -> Rgb {
    Rgb { r: 180, g: 180, b: 180 }
}

/// The color of a window's body.
#[verifier::when_used_as_spec(spec_window_background)]
pub fn window_background() -> (c: Rgb)
    ensures
        c == spec_window_background(),
{
    Rgb { r: 240, g: 240, b: 240 }
}

/// The color of the title bar of the window that has the focus.
#[verifier::when_used_as_spec(spec_titlebar_focused)]
pub fn titlebar_focused() -> (c: Rgb)
    ensures
        c == spec_titlebar_focused(),
{
    Rgb { r: 0, g: 50, b: 150 }
}

/// The color of the title bar of a window that does not have the focus.
#[verifier::when_used_as_spec(spec_titlebar_unfocused)]
pub fn titlebar_unfocused() -> (c: Rgb)
    ensures
        c == spec_titlebar_unfocused(),
{
    Rgb { r: 180, g: 180, b: 180 }
}

/// What a window is doing.
#[derive(Debug, Clone, Copy, PartialEq, Eq, Structural)]
pub enum WindowState {
    Normal,
    Minimized,
    Closed,
}

/// One window of the compositor.
#[derive(Debug, Clone, Copy, PartialEq)]
pub struct Window {
    pub id: WindowId,
    pub owner_pid: Pid,
    pub x: u16,
    pub y: u16,
    pub width: u16,
    pub height: u16,
    pub title: &'static str,
    pub state: WindowState,
    pub is_focused: bool,
}

impl Window {
    /// Whether the point lies in the title bar: the strip of the window's
    /// width and of the fixed height at the window's top.
    pub open spec fn in_titlebar(self, x: int, y: int) -> bool {
        self.x <= x < self.x + self.width && self.y <= y < self.y + TITLEBAR_HEIGHT
    }

    /// Whether a click at the point hits this window: it lies in the title
    /// bar and the window is in its normal state.
    pub open spec fn is_hit(self, x: int, y: int) -> bool {
        self.in_titlebar(x, y) && self.state is Normal
    }

    /// Whether the window is still there: every window but a closed one.
    pub open spec fn is_current(self) -> bool {
        !(self.state is Closed)
    }

    /// This window with its focus flag set to `focused`.
    pub open spec fn with_focus(self, focused: bool) -> Window {
        Window { is_focused: focused, ..self }
    }

    /// The color of the title bar.
    pub open spec fn titlebar_color(self) -> Rgb {
        if self.is_focused {
            titlebar_focused()
        } else {
            titlebar_unfocused()
        }
    }

    /// The requests that draw this window: none for a closed window, else
    /// the body and then, over it, the title bar.
    pub open spec fn draw_requests(self, render_pid: Pid) -> Seq<Envelope> {
        if self.state is Closed {
            Seq::empty()
        } else {
            seq![
                Envelope {
                    to: render_pid,
                    message: IpcMessage::RenderDrawRect {
                        x: self.x,
                        y: self.y,
                        w: self.width,
                        h: self.height,
                        color: window_background(),
                    },
                },
                Envelope {
                    to: render_pid,
                    message: IpcMessage::RenderDrawRect {
                        x: self.x,
                        y: self.y,
                        w: self.width,
                        h: TITLEBAR_HEIGHT,
                        color: self.titlebar_color(),
                    },
                },
            ]
        }
    }

    /// The window that `new` makes.
    pub open spec fn fresh(
        id: WindowId,
        owner_pid: Pid,
        x: u16,
        y: u16,
        width: u16,
        height: u16,
        title: &'static str,
    ) -> Window {
        Window {
            id,
            owner_pid,
            x,
            y,
            width,
            height,
            title,
            state: WindowState::Normal,
            is_focused: false,
        }
    }

    /// A window in its normal state, without the focus.
    pub fn new(
        id: WindowId,
        owner_pid: Pid,
        x: u16,
        y: u16,
        width: u16,
        height: u16,
        title: &'static str,
    ) -> (w: Window)
        ensures
            w == Window::fresh(id, owner_pid, x, y, width, height, title),
    {
        Window {
            id,
            owner_pid,
            x,
            y,
            width,
            height,
            title,
            state: WindowState::Normal,
            is_focused: false,
        }
    }

    /// Whether a click at `(x, y)` hits this window.
    pub fn hit(&self, x: u16, y: u16) -> (h: bool)
        ensures
            h == self.is_hit(x as int, y as int),
    {
        let in_titlebar = x >= self.x && (x as u32) < self.x as u32 + self.width as u32 && y
            >= self.y && (y as u32) < self.y as u32 + TITLEBAR_HEIGHT as u32;
        in_titlebar && matches!(self.state, WindowState::Normal)
    }

    /// Adds the requests that draw this window to `out`.
    pub fn draw_into(&self, render_pid: Pid, out: &mut Vec<Envelope>)
        ensures
            final(out)@ == old(out)@ + self.draw_requests(render_pid),
    {
        if matches!(self.state, WindowState::Closed) {
            assert(old(out)@ + Seq::<Envelope>::empty() =~= old(out)@);
            return ;
        }
        let title_color = if self.is_focused {
            titlebar_focused()
        } else {
            titlebar_unfocused()
        };
        out.push(
            Envelope {
                to: render_pid,
                message: IpcMessage::RenderDrawRect {
                    x: self.x,
                    y: self.y,
                    w: self.width,
                    h: self.height,
                    color: window_background(),
                },
            },
        );
        out.push(
            Envelope {
                to: render_pid,
                message: IpcMessage::RenderDrawRect {
                    x: self.x,
                    y: self.y,
                    w: self.width,
                    h: TITLEBAR_HEIGHT,
                    color: title_color,
                },
            },
        );
        assert(final(out)@ =~= old(out)@ + self.draw_requests(render_pid));
    }

    /// The requests that draw this window, addressed to the rasterizer.
    pub fn draw(&self, render_pid: Pid) -> (out: Vec<Envelope>)
        ensures
            out@ == self.draw_requests(render_pid),
    {
        let mut out: Vec<Envelope> = Vec::new();
        self.draw_into(render_pid, &mut out);
        assert(Seq::<Envelope>::empty() + self.draw_requests(render_pid) =~= self.draw_requests(
            render_pid,
        ));
        out
    }
}

/// The map that gives the focus flag to the window with the id `id` and takes
/// it from every other window.
pub open spec fn focuser(id: WindowId) -> spec_fn(Window) -> Window {
    |w: Window| w.with_focus(w.id == id)
}

/// The map from a window to the requests that draw it.
pub open spec fn drawer(render_pid: Pid) -> spec_fn(Window) -> Seq<Envelope> {
    |w: Window| w.draw_requests(render_pid)
}

/// The index of the topmost window that a click at `(x, y)` hits: the last
/// one in the sequence that is hit, if any is.
pub open spec fn topmost_hit(windows: Seq<Window>, x: int, y: int) -> Option<int>
    decreases windows.len(),
{
    if windows.len() == 0 {
        None
    } else if windows.last().is_hit(x, y) {
        Some(windows.len() - 1)
    } else {
        topmost_hit(windows.drop_last(), x, y)
    }
}

/// What the compositor is, as a mathematical value.
pub struct WmView {
    /// The windows, bottommost first.
    pub windows: Seq<Window>,
    /// The rasterizer's address.
    pub render_pid: Pid,
    /// The id of the window that has the focus, or zero.
    pub focused: WindowId,
    /// The highest id given out so far, or zero.
    pub last_id: WindowId,
}

impl WmView {
    /// Whether some window that is not closed has the id `id`.
    pub open spec fn is_current(self, id: WindowId) -> bool {
        exists|i: int|
            0 <= i < self.windows.len() && (#[trigger] self.windows[i]).id == id
                && self.windows[i].is_current()
    }

    /// Whether some window is not closed.
    pub open spec fn has_current(self) -> bool {
        exists|i: int| 0 <= i < self.windows.len() && (#[trigger] self.windows[i]).is_current()
    }

    /// The compositor's invariant. The rasterizer is known. Ids grow with
    /// the stacking order, so no two windows share one; none is zero and
    /// none is above the highest id given out. The focus flags say what
    /// the focused id says. The focused window is never a closed one, and
    /// while any window is not closed some window has the focus.
    pub open spec fn wf(self) -> bool {
        &&& is_live(self.render_pid)
        &&& forall|i: int, j: int|
            0 <= i < j < self.windows.len() ==> (#[trigger] self.windows[i]).id
                < (#[trigger] self.windows[j]).id
        &&& forall|i: int|
            0 <= i < self.windows.len() ==> 0 < (#[trigger] self.windows[i]).id <= self.last_id
        &&& forall|i: int|
            0 <= i < self.windows.len() ==> ((#[trigger] self.windows[i]).is_focused
                <==> self.windows[i].id == self.focused)
        &&& self.focused != NO_WINDOW ==> self.is_current(self.focused)
        &&& self.has_current() ==> self.focused != NO_WINDOW
    }

    /// At most one window has its focus flag set.
    pub open spec fn at_most_one_focused(self) -> bool {
        forall|i: int, j: int|
            0 <= i < self.windows.len() && 0 <= j < self.windows.len() && (
            #[trigger] self.windows[i]).is_focused && (#[trigger] self.windows[j]).is_focused ==> i
                == j
    }

    /// Exactly one window has its focus flag set.
    pub open spec fn exactly_one_focused(self) -> bool {
        &&& exists|i: int| 0 <= i < self.windows.len() && (#[trigger] self.windows[i]).is_focused
        &&& self.at_most_one_focused()
    }

    /// No window has its focus flag set.
    pub open spec fn none_focused(self) -> bool {
        forall|i: int| 0 <= i < self.windows.len() ==> !(#[trigger] self.windows[i]).is_focused
    }

    /// The compositor at start: no window, no focus, no id given out.
    pub open spec fn initial(render_pid: Pid) -> WmView {
        WmView { windows: Seq::empty(), render_pid, focused: NO_WINDOW, last_id: NO_WINDOW }
    }

    /// The state with every focus flag set by the focused id.
    pub open spec fn update_focus(self) -> WmView {
        WmView { windows: self.windows.map_values(focuser(self.focused)), ..self }
    }

    /// The state with the focus on the window with the id `id`.
    pub open spec fn focus_on(self, id: WindowId) -> WmView {
        WmView { focused: id, ..self }.update_focus()
    }

    /// The requests that draw every window, bottommost first.
    pub open spec fn redraw(self) -> Seq<Envelope> {
        self.windows.map_values(drawer(self.render_pid)).flatten()
    }

    /// The state after `add_window`: the window is on top and its id is the
    /// highest given out; it has the focus, unless it is closed: then the
    /// focus stays where it was.
    pub open spec fn add(self, window: Window) -> WmView {
        WmView {
            windows: self.windows.push(window),
            focused: if window.is_current() {
                window.id
            } else {
                self.focused
            },
            last_id: window.id,
            ..self
        }.update_focus()
    }

    /// Whether an id is left to give out.
    pub open spec fn can_create(self) -> bool {
        self.last_id < u32::MAX
    }

    /// The id that the next window gets.
    pub open spec fn next_id(self) -> WindowId {
        (self.last_id + 1) as WindowId
    }

    /// The state after `create_window`.
    pub open spec fn create(
        self,
        owner_pid: Pid,
        x: u16,
        y: u16,
        width: u16,
        height: u16,
        title: &'static str,
    ) -> WmView {
        self.add(Window::fresh(self.next_id(), owner_pid, x, y, width, height, title))
    }

    /// The state after `focus_window`: the focus moves to the window with
    /// the id `id` where one that is not closed has it; else nothing
    /// changes.
    pub open spec fn focus(self, id: WindowId) -> WmView {
        if self.is_current(id) {
            self.focus_on(id)
        } else {
            self
        }
    }

    /// The state after `handle_mouse_click`: the focus moves to the topmost
    /// window that the click hits; where it hits none, nothing changes.
    pub open spec fn click(self, x: int, y: int) -> WmView {
        match topmost_hit(self.windows, x, y) {
            Some(i) => self.focus_on(self.windows[i].id),
            None => self,
        }
    }

    /// What `create_window` returns: nothing where no id is left, else the
    /// new window's id and the requests that draw every window.
    pub open spec fn create_requests(
        self,
        owner_pid: Pid,
        x: u16,
        y: u16,
        width: u16,
        height: u16,
        title: &'static str,
    ) -> Seq<Envelope> {
        self.create(owner_pid, x, y, width, height, title).redraw()
    }

    /// The requests that `focus_window` returns: the full redraw where the
    /// focus was set, none where the call changed nothing.
    pub open spec fn focus_requests(self, id: WindowId) -> Seq<Envelope> {
        if self.is_current(id) {
            self.focus(id).redraw()
        } else {
            Seq::empty()
        }
    }

    /// The requests that `handle_mouse_click` returns: the full redraw
    /// where the click hit a window, none where it hit none.
    pub open spec fn click_requests(self, x: int, y: int) -> Seq<Envelope> {
        if topmost_hit(self.windows, x, y) is Some {
            self.click(x, y).redraw()
        } else {
            Seq::empty()
        }
    }

    /// The id that a message makes the compositor give out: the next id for
    /// a request to open a window while an id is left, none otherwise.
    pub open spec fn created_id(self, message: IpcMessage) -> Option<WindowId> {
        if message is WmCreateWindow && self.can_create() {
            Some(self.next_id())
        } else {
            None
        }
    }

    /// The note that tells the owner that its window is open.
    pub open spec fn opened_note(owner_pid: Pid, title: &'static str, id: WindowId) -> Envelope {
        Envelope { to: owner_pid, message: IpcMessage::WmWindowOpened { title, window_id: id } }
    }

    /// The state after a message from `sender`, and the messages to send.
    /// A request to open a window creates it for the sender, redraws, and
    /// tells the sender the window's id; with no id left it is dropped. A
    /// click and a focus request do what `click` and `focus` say. Any other
    /// message is ignored.
    pub open spec fn handle(self, sender: Pid, message: IpcMessage) -> (WmView, Seq<Envelope>) {
        match message {
            IpcMessage::WmCreateWindow { x, y, w, h, title } => if self.can_create() {
                (
                    self.create(sender, x, y, w, h, title),
                    self.create_requests(sender, x, y, w, h, title).push(
                        Self::opened_note(sender, title, self.next_id()),
                    ),
                )
            } else {
                (self, Seq::empty())
            },
            IpcMessage::MouseClick { x, y } => (
                self.click(x as int, y as int),
                self.click_requests(x as int, y as int),
            ),
            IpcMessage::WmFocusWindow { window_id } => (
                self.focus(window_id),
                self.focus_requests(window_id),
            ),
            _ => (self, Seq::empty()),
        }
    }

    /// The state after a run of messages, handled one after the other.
    pub open spec fn after(self, events: Seq<Incoming>) -> WmView
        decreases events.len(),
    {
        if events.len() == 0 {
            self
        } else {
            self.after(events.drop_last()).handle(events.last().sender, events.last().message).0
        }
    }
}

/// A message as it arrives: with the address of its sender.
pub struct Incoming {
    pub sender: Pid,
    pub message: IpcMessage,
}

/// The compositor's state.
pub struct WmState {
    windows: Vec<Window>,
    render_pid: Pid,
    focused_window_id: WindowId,
    last_id: WindowId,
}

impl View for WmState {
    type V = WmView;

    closed spec fn view(&self) -> WmView {
        WmView {
            windows: self.windows@,
            render_pid: self.render_pid,
            focused: self.focused_window_id,
            last_id: self.last_id,
        }
    }
}

impl WmState {
    /// The compositor at start, drawing through the rasterizer at
    /// `render_pid`. Without a rasterizer there is no compositor: the
    /// lookup sentinel is answered with `NotFound`.
    pub fn new(render_pid: Pid) -> (made: Result<WmState, ServiceError>)
        ensures
            match made {
                Ok(s) => is_live(render_pid) && s@.wf() && s@ == WmView::initial(render_pid),
                Err(e) => !is_live(render_pid) && e == ServiceError::NotFound,
            },
    {
        if render_pid == INVALID_PID {
            return Err(ServiceError::NotFound);
        }
        Ok(
            WmState {
                windows: Vec::new(),
                render_pid,
                focused_window_id: NO_WINDOW,
                last_id: NO_WINDOW,
            },
        )
    }

    /// The rasterizer's address.
    pub fn render_pid(&self) -> (pid: Pid)
        ensures
            pid == self@.render_pid,
    {
        self.render_pid
    }

    /// The id of the window that has the focus, or zero.
    pub fn focused_window_id(&self) -> (id: WindowId)
        ensures
            id == self@.focused,
    {
        self.focused_window_id
    }

    /// The highest id given out so far, or zero.
    pub fn last_id(&self) -> (id: WindowId)
        ensures
            id == self@.last_id,
    {
        self.last_id
    }

    /// The windows, bottommost first.
    pub fn windows(&self) -> (w: &Vec<Window>)
        ensures
            w@ == self@.windows,
    {
        &self.windows
    }

    /// Sets every window's focus flag by the focused id.
    pub fn update_focus(&mut self)
        ensures
            final(self)@ == old(self)@.update_focus(),
    {
        let focused = self.focused_window_id;
        let count = self.windows.len();
        let mut i: usize = 0;
        while i < count
            invariant
                i <= count,
                count == self.windows.len(),
                count == old(self).windows.len(),
                focused == old(self).focused_window_id,
                self.render_pid == old(self).render_pid,
                self.focused_window_id == old(self).focused_window_id,
                self.last_id == old(self).last_id,
                forall|j: int|
                    0 <= j < i ==> #[trigger] self.windows[j] == focuser(focused)(
                        old(self).windows[j],
                    ),
                forall|j: int| i <= j < count ==> #[trigger] self.windows[j] == old(self).windows[j],
            decreases count - i,
        {
            let mut w = self.windows[i];
            w.is_focused = w.id == focused;
            self.windows.set(i, w);
            i += 1;
        }
        assert(self.windows@ =~= old(self).windows@.map_values(focuser(focused)));
    }

    /// The requests that draw every window that is not closed, bottommost
    /// first, so that what is on top is drawn last.
    pub fn draw_all_windows(&self) -> (out: Vec<Envelope>)
        ensures
            out@ == self@.redraw(),
    {
        let mut out: Vec<Envelope> = Vec::new();
        let count = self.windows.len();
        let ghost draw = drawer(self.render_pid);
        let mut i: usize = 0;
        assert(self.windows@.take(0).map_values(draw) =~= Seq::<Seq<Envelope>>::empty());
        while i < count
            invariant
                i <= count,
                count == self.windows.len(),
                draw == drawer(self.render_pid),
                out@ == self.windows@.take(i as int).map_values(draw).flatten(),
            decreases count - i,
        {
            let w = self.windows[i];
            w.draw_into(self.render_pid, &mut out);
            proof {
                let done = self.windows@.take(i as int);
                assert(self.windows@.take(i + 1) =~= done.push(w));
                assert(done.push(w).map_values(draw) =~= done.map_values(draw).push(draw(w)));
                done.map_values(draw).lemma_flatten_push(draw(w));
            }
            i += 1;
        }
        assert(self.windows@.take(count as int) =~= self.windows@);
        out
    }

    /// Puts `window` on top and redraws. The window takes the focus unless
    /// it is closed. Its id must be above every id given out so far.
    pub fn add_window(&mut self, window: Window) -> (out: Vec<Envelope>)
        requires
            old(self)@.wf(),
            window.id > old(self)@.last_id,
        ensures
            final(self)@.wf(),
            final(self)@ == old(self)@.add(window),
            out@ == final(self)@.redraw(),
    {
        self.windows.push(window);
        if !matches!(window.state, WindowState::Closed) {
            self.focused_window_id = window.id;
        }
        self.last_id = window.id;
        self.update_focus();
        proof {
            lemma_add_keeps_wf(old(self)@, window);
        }
        self.draw_all_windows()
    }

    /// Opens a window for `owner_pid`: gives it the next id, puts it on top
    /// in its normal state with the focus, and redraws every window.
    /// Returns the id and the draw requests, or nothing, with the state
    /// unchanged, where every id has been given out.
    pub fn create_window(
        &mut self,
        owner_pid: Pid,
        x: u16,
        y: u16,
        width: u16,
        height: u16,
        title: &'static str,
    ) -> (created: Option<(WindowId, Vec<Envelope>)>)
        requires
            old(self)@.wf(),
        ensures
            final(self)@.wf(),
            match created {
                Some((id, out)) => {
                    &&& old(self)@.can_create()
                    &&& id == old(self)@.next_id()
                    &&& old(self)@.last_id < id == final(self)@.last_id
                    &&& final(self)@ == old(self)@.create(owner_pid, x, y, width, height, title)
                    &&& out@ == old(self)@.create_requests(owner_pid, x, y, width, height, title)
                },
                None => !old(self)@.can_create() && final(self)@ == old(self)@,
            },
    {
        if self.last_id == u32::MAX {
            return None;
        }
        let id: WindowId = self.last_id + 1;
        let window = Window::new(id, owner_pid, x, y, width, height, title);
        let out = self.add_window(window);
        Some((id, out))
    }

    /// Gives the focus to the window with the id `id` and redraws. Where no
    /// window has that id, or the one that has it is closed, nothing
    /// changes and nothing is drawn.
    pub fn focus_window(&mut self, id: WindowId) -> (out: Vec<Envelope>)
        requires
            old(self)@.wf(),
        ensures
            final(self)@.wf(),
            final(self)@ == old(self)@.focus(id),
            out@ == old(self)@.focus_requests(id),
    {
        let count = self.windows.len();
        let mut found = false;
        let mut i: usize = 0;
        while i < count
            invariant
                i <= count,
                count == self.windows.len(),
                self@ == old(self)@,
                found <==> exists|j: int|
                    0 <= j < i && (#[trigger] self.windows[j]).id == id
                        && self.windows[j].is_current(),
            decreases count - i,
        {
            let w = self.windows[i];
            if w.id == id && !matches!(w.state, WindowState::Closed) {
                found = true;
            }
            i += 1;
        }
        if !found {
            return Vec::new();
        }
        self.focused_window_id = id;
        self.update_focus();
        proof {
            lemma_focus_keeps_wf(old(self)@, id);
        }
        self.draw_all_windows()
    }

    /// Handles a click at `(x, y)`: the topmost window whose title bar
    /// holds the point, among those in their normal state, takes the focus,
    /// and every window is redrawn. A click that hits no such title bar
    /// changes nothing and draws nothing.
    pub fn handle_mouse_click(&mut self, x: u16, y: u16) -> (out: Vec<Envelope>)
        requires
            old(self)@.wf(),
        ensures
            final(self)@.wf(),
            final(self)@ == old(self)@.click(x as int, y as int),
            out@ == old(self)@.click_requests(x as int, y as int),
            match topmost_hit(old(self)@.windows, x as int, y as int) {
                Some(k) => {
                    &&& 0 <= k < old(self)@.windows.len()
                    &&& old(self)@.windows[k].is_hit(x as int, y as int)
                    &&& forall|j: int|
                        k < j < old(self)@.windows.len() ==> !(#[trigger] old(self)@.windows[j]).is_hit(
                            x as int,
                            y as int,
                        )
                    &&& final(self)@.focused == old(self)@.windows[k].id
                },
                None => forall|i: int|
                    0 <= i < old(self)@.windows.len() ==> !(#[trigger] old(self)@.windows[i]).is_hit(
                        x as int,
                        y as int,
                    ),
            },
    {
        let ghost all = self.windows@;
        let mut i: usize = self.windows.len();
        assert(all.take(i as int) =~= all);
        while i > 0
            invariant
                i <= self.windows.len(),
                all == self.windows@,
                self@ == old(self)@,
                old(self)@.wf(),
                topmost_hit(all, x as int, y as int) == topmost_hit(
                    all.take(i as int),
                    x as int,
                    y as int,
                ),
            decreases i,
        {
            let w = self.windows[i - 1];
            assert(all.take(i as int).last() == w);
            if w.hit(x, y) {
                self.focused_window_id = w.id;
                self.update_focus();
                proof {
                    lemma_click_focuses_topmost(old(self)@, x as int, y as int);
                }
                return self.draw_all_windows();
            }
            assert(all.take(i as int).drop_last() =~= all.take(i - 1));
            i -= 1;
        }
        proof {
            lemma_topmost_hit(old(self)@.windows, x as int, y as int);
        }
        Vec::new()
    }

    /// Serves one message from `sender` and returns the messages to send,
    /// in order.
    pub fn handle_ipc_message(&mut self, sender: Pid, message: IpcMessage) -> (out: Vec<
        Envelope,
    >)
        requires
            old(self)@.wf(),
        ensures
            final(self)@.wf(),
            (final(self)@, out@) == old(self)@.handle(sender, message),
    {
        match message {
            IpcMessage::WmCreateWindow { x, y, w, h, title } => {
                match self.create_window(sender, x, y, w, h, title) {
                    Some((id, requests)) => {
                        let mut out = requests;
                        out.push(
                            Envelope {
                                to: sender,
                                message: IpcMessage::WmWindowOpened { title, window_id: id },
                            },
                        );
                        out
                    },
                    None => Vec::new(),
                }
            },
            IpcMessage::MouseClick { x, y } => self.handle_mouse_click(x, y),
            IpcMessage::WmFocusWindow { window_id } => self.focus_window(window_id),
            _ => Vec::new(),
        }
    }
}

/// The redraw goes back to front: the requests for a stack of windows are
/// those for the windows below the topmost one, followed by those for the
/// topmost one. All of them are addressed to the rasterizer.
pub proof fn lemma_redraw_order(s: WmView)
    ensures
        s.windows.len() == 0 ==> s.redraw() == Seq::<Envelope>::empty(),
        s.windows.len() > 0 ==> s.redraw() == (WmView {
            windows: s.windows.drop_last(),
            ..s
        }).redraw() + s.windows.last().draw_requests(s.render_pid),
        forall|k: int| 0 <= k < s.redraw().len() ==> (#[trigger] s.redraw()[k]).to == s.render_pid,
    decreases s.windows.len(),
{
    let draw = drawer(s.render_pid);
    if s.windows.len() == 0 {
        assert(s.windows.map_values(draw) =~= Seq::<Seq<Envelope>>::empty());
    } else {
        let below = WmView { windows: s.windows.drop_last(), ..s };
        let top = s.windows.last();
        lemma_redraw_order(below);
        assert(s.windows.map_values(draw) =~= s.windows.drop_last().map_values(draw).push(
            draw(top),
        ));
        s.windows.drop_last().map_values(draw).lemma_flatten_push(draw(top));
    }
}

/// Moving the focus to a window that is not closed keeps the invariant: no
/// window but its focus flag changes, and exactly the windows with the
/// focused id have the flag.
pub proof fn lemma_focus_on_keeps_wf(s: WmView, id: WindowId)
    requires
        s.wf(),
        s.is_current(id),
    ensures
        s.focus_on(id).wf(),
        s.focus_on(id).focused == id,
        s.focus_on(id).last_id == s.last_id,
        s.focus_on(id).render_pid == s.render_pid,
        s.focus_on(id).windows.len() == s.windows.len(),
        forall|i: int|
            0 <= i < s.windows.len() ==> #[trigger] s.focus_on(id).windows[i]
                == s.windows[i].with_focus(s.windows[i].id == id),
{
    let t = s.focus_on(id);
    let k = choose|k: int|
        0 <= k < s.windows.len() && (#[trigger] s.windows[k]).id == id
            && s.windows[k].is_current();
    assert(t.windows[k].id == id && t.windows[k].is_current());
    assert(id != NO_WINDOW);
}

/// `focus_window` keeps the invariant.
pub proof fn lemma_focus_keeps_wf(s: WmView, id: WindowId)
    requires
        s.wf(),
    ensures
        s.focus(id).wf(),
{
    if s.is_current(id) {
        lemma_focus_on_keeps_wf(s, id);
    }
}

/// A click is resolved in favor of the topmost window: where any window
/// is hit, the one chosen is hit, no window above it is hit, and so it is
/// at or above every window that is hit. Where none is hit, none is
/// chosen.
pub proof fn lemma_topmost_hit(windows: Seq<Window>, x: int, y: int)
    ensures
        match topmost_hit(windows, x, y) {
            Some(k) => {
                &&& 0 <= k < windows.len()
                &&& windows[k].is_hit(x, y)
                &&& forall|j: int| k < j < windows.len() ==> !(#[trigger] windows[j]).is_hit(x, y)
                &&& forall|i: int|
                    0 <= i < windows.len() && (#[trigger] windows[i]).is_hit(x, y) ==> i <= k
            },
            None => forall|i: int| 0 <= i < windows.len() ==> !(#[trigger] windows[i]).is_hit(x, y),
        },
    decreases windows.len(),
{
    if windows.len() > 0 && !windows.last().is_hit(x, y) {
        let rest = windows.drop_last();
        lemma_topmost_hit(rest, x, y);
        assert forall|i: int| 0 <= i < rest.len() implies rest[i] == windows[i] by {}
        match topmost_hit(rest, x, y) {
            Some(k) => {
                assert(windows[k] == rest[k]);
                assert forall|j: int| k < j < windows.len() implies !(#[trigger] windows[j]).is_hit(
                    x,
                    y,
                ) by {
                    if j < rest.len() {
                        assert(rest[j] == windows[j]);
                    }
                }
                assert forall|i: int|
                    0 <= i < windows.len() && (#[trigger] windows[i]).is_hit(x, y) implies i
                    <= k by {
                    if i < rest.len() {
                        assert(rest[i] == windows[i]);
                    }
                }
            },
            None => {
                assert forall|i: int| 0 <= i < windows.len() implies !(#[trigger] windows[i]).is_hit(
                    x,
                    y,
                ) by {
                    if i < rest.len() {
                        assert(rest[i] == windows[i]);
                    }
                }
            },
        }
    }
}

/// `handle_mouse_click` keeps the invariant, and the window that takes the
/// focus is the topmost one that is hit.
pub proof fn lemma_click_keeps_wf(s: WmView, x: int, y: int)
    requires
        s.wf(),
    ensures
        s.click(x, y).wf(),
        topmost_hit(s.windows, x, y) matches Some(k) ==> s.click(x, y).focused == s.windows[k].id
            && s.click(x, y).windows[k].is_focused,
        topmost_hit(s.windows, x, y) is None ==> s.click(x, y) == s,
{
    lemma_topmost_hit(s.windows, x, y);
    match topmost_hit(s.windows, x, y) {
        Some(k) => {
            assert(s.windows[k].is_current());
            lemma_focus_on_keeps_wf(s, s.windows[k].id);
        },
        None => {},
    }
}

/// `add_window` keeps the invariant.
pub proof fn lemma_add_keeps_wf(s: WmView, window: Window)
    requires
        s.wf(),
        window.id > s.last_id,
    ensures
        s.add(window).wf(),
        s.add(window).last_id == window.id,
        s.add(window).windows.len() == s.windows.len() + 1,
        window.is_current() ==> s.add(window).focused == window.id,
{
    let t = s.add(window);
    let n = s.windows.len() as int;
    let pushed = s.windows.push(window);
    assert forall|i: int| 0 <= i < n implies t.windows[i].id == s.windows[i].id
        && t.windows[i].state == s.windows[i].state by {
        assert(pushed[i] == s.windows[i]);
    }
    assert(pushed[n] == window);
    assert(t.windows[n].id == window.id && t.windows[n].state == window.state);
    assert forall|i: int, j: int| 0 <= i < j < t.windows.len() implies (#[trigger] t.windows[i]).id
        < (#[trigger] t.windows[j]).id by {
        assert(s.windows[i].id <= s.last_id);
    }
    if window.is_current() {
        assert(t.windows[n].is_current());
    } else {
        if t.focused != NO_WINDOW {
            let k = choose|k: int|
                0 <= k < s.windows.len() && (#[trigger] s.windows[k]).id == s.focused
                    && s.windows[k].is_current();
            assert(t.windows[k].id == t.focused && t.windows[k].is_current());
        }
        if t.has_current() {
            let k = choose|k: int| 0 <= k < t.windows.len() && (#[trigger] t.windows[k]).is_current();
            assert(k < n);
            assert(s.windows[k].is_current());
        }
    }
}

/// The focus is never shared: in every state that meets the invariant at
/// most one window has the focus; exactly one has it while any window is
/// not closed, and none has it otherwise. The window that has it is not
/// closed.
pub proof fn lemma_single_focus(s: WmView)
    requires
        s.wf(),
    ensures
        s.at_most_one_focused(),
        forall|i: int|
            0 <= i < s.windows.len() && (#[trigger] s.windows[i]).is_focused
                ==> s.windows[i].is_current(),
        s.has_current() ==> s.exactly_one_focused(),
        !s.has_current() ==> s.none_focused(),
{
    assert forall|i: int, j: int|
        0 <= i < s.windows.len() && 0 <= j < s.windows.len() && (#[trigger] s.windows[i]).is_focused
            && (#[trigger] s.windows[j]).is_focused implies i == j by {
        if i < j {
            assert(s.windows[i].id < s.windows[j].id);
        } else if j < i {
            assert(s.windows[j].id < s.windows[i].id);
        }
    }
    if s.focused != NO_WINDOW {
        let k = choose|k: int|
            0 <= k < s.windows.len() && (#[trigger] s.windows[k]).id == s.focused
                && s.windows[k].is_current();
        assert(s.windows[k].is_focused);
        assert forall|i: int|
            0 <= i < s.windows.len() && (#[trigger] s.windows[i]).is_focused implies s.windows[i].is_current() by {
            assert(i == k);
        }
    }
}

/// After a window is created exactly one window has the focus: the new
/// one, which is on top, in its normal state, and has the id that was
/// returned. Every window that was there keeps its place, its id and
/// its state.
pub proof fn lemma_create_focuses_new(
    s: WmView,
    owner_pid: Pid,
    x: u16,
    y: u16,
    width: u16,
    height: u16,
    title: &'static str,
)
    requires
        s.wf(),
        s.can_create(),
    ensures
        ({
            let t = s.create(owner_pid, x, y, width, height, title);
            &&& t.wf()
            &&& t.exactly_one_focused()
            &&& t.windows.len() == s.windows.len() + 1
            &&& t.windows.last() == Window::fresh(
                s.next_id(),
                owner_pid,
                x,
                y,
                width,
                height,
                title,
            ).with_focus(true)
            &&& t.focused == s.next_id()
            &&& t.last_id == s.next_id()
            &&& s.next_id() > s.last_id
            &&& forall|i: int|
                0 <= i < s.windows.len() ==> #[trigger] t.windows[i] == s.windows[i].with_focus(
                    false,
                )
        }),
{
    let window = Window::fresh(s.next_id(), owner_pid, x, y, width, height, title);
    let t = s.add(window);
    lemma_add_keeps_wf(s, window);
    assert(s.windows.push(window)[s.windows.len() as int] == window);
    assert(t.windows[s.windows.len() as int].is_current());
    lemma_single_focus(t);
    assert forall|i: int| 0 <= i < s.windows.len() implies #[trigger] t.windows[i]
        == s.windows[i].with_focus(false) by {
        assert(s.windows.push(window)[i] == s.windows[i]);
        assert(s.windows[i].id <= s.last_id);
    }
}

/// After the focus is given to a window that is there, exactly one window
/// has the focus, and it is that window.
pub proof fn lemma_focus_moves_focus(s: WmView, id: WindowId)
    requires
        s.wf(),
        s.is_current(id),
    ensures
        s.focus(id).wf(),
        s.focus(id).exactly_one_focused(),
        s.focus(id).focused == id,
        forall|i: int|
            0 <= i < s.windows.len() ==> #[trigger] s.focus(id).windows[i]
                == s.windows[i].with_focus(s.windows[i].id == id),
{
    lemma_focus_on_keeps_wf(s, id);
    let t = s.focus(id);
    let k = choose|k: int|
        0 <= k < s.windows.len() && (#[trigger] s.windows[k]).id == id
            && s.windows[k].is_current();
    assert(t.windows[k].is_current());
    lemma_single_focus(t);
}

/// After a click that hits a title bar, exactly one window has the focus:
/// the topmost one among the windows that are hit, however many title bars
/// overlap at the point. A click that hits none changes nothing.
pub proof fn lemma_click_focuses_topmost(s: WmView, x: int, y: int)
    requires
        s.wf(),
    ensures
        s.click(x, y).wf(),
        topmost_hit(s.windows, x, y) is None ==> s.click(x, y) == s,
        topmost_hit(s.windows, x, y) matches Some(k) ==> {
            &&& s.click(x, y).exactly_one_focused()
            &&& s.click(x, y).focused == s.windows[k].id
            &&& s.click(x, y).windows[k].is_focused
            &&& s.windows[k].is_hit(x, y)
            &&& forall|i: int|
                0 <= i < s.windows.len() && (#[trigger] s.windows[i]).is_hit(x, y) ==> i <= k
        },
{
    lemma_topmost_hit(s.windows, x, y);
    lemma_click_keeps_wf(s, x, y);
    match topmost_hit(s.windows, x, y) {
        Some(k) => {
            assert(s.windows[k].is_current());
            lemma_focus_on_keeps_wf(s, s.windows[k].id);
            let t = s.click(x, y);
            assert(t.windows[k].is_current());
            lemma_single_focus(t);
        },
        None => {},
    }
}

/// Every message keeps the invariant. The highest id given out never goes
/// down: it goes up by one where a window is created, to the id of that
/// window, and stays as it is otherwise.
pub proof fn lemma_handle_keeps_wf(s: WmView, sender: Pid, message: IpcMessage)
    requires
        s.wf(),
    ensures
        s.handle(sender, message).0.wf(),
        match s.created_id(message) {
            Some(id) => id == s.last_id + 1 && s.handle(sender, message).0.last_id == id,
            None => s.handle(sender, message).0.last_id == s.last_id,
        },
{
    match message {
        IpcMessage::WmCreateWindow { x, y, w, h, title } => {
            if s.can_create() {
                lemma_create_focuses_new(s, sender, x, y, w, h, title);
            }
        },
        IpcMessage::MouseClick { x, y } => {
            lemma_click_keeps_wf(s, x as int, y as int);
            match topmost_hit(s.windows, x as int, y as int) {
                Some(k) => {
                    lemma_topmost_hit(s.windows, x as int, y as int);
                    assert(s.windows[k].is_current());
                    lemma_focus_on_keeps_wf(s, s.windows[k].id);
                },
                None => {},
            }
        },
        IpcMessage::WmFocusWindow { window_id } => {
            if s.is_current(window_id) {
                lemma_focus_on_keeps_wf(s, window_id);
            }
        },
        _ => {},
    }
}

/// The state after the first `n + 1` messages of a run is the state after
/// the first `n`, with message `n` handled.
proof fn lemma_after_step(s: WmView, events: Seq<Incoming>, n: int)
    requires
        0 <= n < events.len(),
    ensures
        s.after(events.take(n + 1)) == s.after(events.take(n)).handle(
            events[n].sender,
            events[n].message,
        ).0,
{
    assert(events.take(n + 1).drop_last() =~= events.take(n));
    assert(events.take(n + 1).last() == events[n]);
}

/// After any run of messages the invariant holds, so the focus is never
/// shared, and the highest id given out has not gone down.
pub proof fn lemma_run_keeps_wf(s: WmView, events: Seq<Incoming>)
    requires
        s.wf(),
    ensures
        s.after(events).wf(),
        s.after(events).last_id >= s.last_id,
        s.after(events).has_current() ==> s.after(events).exactly_one_focused(),
        !s.after(events).has_current() ==> s.after(events).none_focused(),
    decreases events.len(),
{
    if events.len() > 0 {
        lemma_run_keeps_wf(s, events.drop_last());
        lemma_handle_keeps_wf(
            s.after(events.drop_last()),
            events.last().sender,
            events.last().message,
        );
    }
    lemma_single_focus(s.after(events));
}

/// The highest id given out after a longer part of a run is not below the
/// one after a shorter part.
proof fn lemma_last_id_grows(s: WmView, events: Seq<Incoming>, a: int, b: int)
    requires
        s.wf(),
        0 <= a <= b <= events.len(),
    ensures
        s.after(events.take(a)).wf(),
        s.after(events.take(b)).wf(),
        s.after(events.take(a)).last_id <= s.after(events.take(b)).last_id,
    decreases b - a,
{
    lemma_run_keeps_wf(s, events.take(a));
    if a < b {
        lemma_last_id_grows(s, events, a, b - 1);
        lemma_after_step(s, events, b - 1);
        lemma_handle_keeps_wf(s.after(events.take(b - 1)), events[b - 1].sender, events[b - 1].message);
    }
}

/// Window ids are never reused: of two windows created in one run of
/// messages, whatever else is handled before, between and after, the later
/// one has the greater id, and both ids are above every id given out
/// before the run.
pub proof fn lemma_window_ids_increase(s: WmView, events: Seq<Incoming>, i: int, j: int)
    requires
        s.wf(),
        0 <= i < j < events.len(),
        s.after(events.take(i)).created_id(events[i].message) is Some,
        s.after(events.take(j)).created_id(events[j].message) is Some,
    ensures
        s.last_id < s.after(events.take(i)).created_id(events[i].message).unwrap() < s.after(
            events.take(j),
        ).created_id(events[j].message).unwrap(),
{
    lemma_last_id_grows(s, events, 0, i);
    assert(events.take(0) =~= Seq::<Incoming>::empty());
    lemma_after_step(s, events, i);
    lemma_handle_keeps_wf(s.after(events.take(i)), events[i].sender, events[i].message);
    lemma_last_id_grows(s, events, i + 1, j);
}

} // verus!
