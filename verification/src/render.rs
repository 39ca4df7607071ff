//! The rasterizer: it acquires the display surface in a one-time handshake
//! with the framebuffer service, then draws pixels, rectangles and text into
//! it, every write checked against the surface's bounds.

use vstd::prelude::*;
use crate::color::Rgb;
use crate::font::{basic_glyph, glyph_bit, glyph_pixel, has_glyph, lookup_glyph, Glyph};
use crate::protocol::{
    is_live, no_surface_reply, Envelope, IpcMessage, Pid, ServiceError, INVALID_PID, NULL_BASE,
};
use crate::surface::{Surface, SurfaceView};

verus! {

/// The width that the rasterizer asks the framebuffer service for.
pub const REQUESTED_WIDTH: u16 = 800;

/// The height that the rasterizer asks the framebuffer service for.
pub const REQUESTED_HEIGHT: u16 = 600;

/// A rectangle of coordinates: `w` columns from `x`, `h` rows from `y`.
pub struct Rect {
    pub x: int,
    pub y: int,
    pub w: int,
    pub h: int,
}

impl Rect {
    /// Whether `(i, j)` lies in the rectangle.
    pub open spec fn contains(self, i: int, j: int) -> bool {
        self.x <= i < self.x + self.w && self.y <= j < self.y + self.h
    }

    /// The coordinates of the rectangle, as a mask.
    pub open spec fn mask(self) -> spec_fn(int, int) -> bool {
        |i: int, j: int| self.contains(i, j)
    }
}

/// The smaller of two integers.
pub open spec fn min_of(a: int, b: int) -> int {
    if a <= b {
        a
    } else {
        b
    }
}

/// The part of a requested rectangle that is drawn on a surface of `sw` by
/// `sh` pixels: the corner is moved to the last column and row where it lies
/// beyond them, then width and height are cut to what is left of the
/// surface from there.
pub open spec fn clamp_rect(sw: int, sh: int, x: int, y: int, w: int, h: int) -> Rect {
    let cx = min_of(x, sw - 1);
    let cy = min_of(y, sh - 1);
    Rect { x: cx, y: cy, w: min_of(w, sw - cx), h: min_of(h, sh - cy) }
}

/// The cell of a glyph drawn with its top left corner at `(x, y)`: the
/// coordinates whose glyph pixel is set.
pub open spec fn glyph_mask(rows: Seq<u8>, x: int, y: int) -> spec_fn(int, int) -> bool {
    |i: int, j: int| x <= i < x + 8 && y <= j < y + 8 && glyph_bit(rows, j - y, i - x)
}

/// How many characters of `text` are drawn: those before the first one that
/// the font has no glyph for.
pub open spec fn drawn_chars(text: Seq<char>) -> nat
    decreases text.len(),
{
    if text.len() == 0 || !has_glyph(text[0]) {
        0
    } else {
        1 + drawn_chars(text.drop_first())
    }
}

/// The set pixels of the first `count` glyphs of `text`, laid out from
/// `(x, y)` to the right, eight columns per character.
pub open spec fn cells_mask(text: Seq<char>, count: int, x: int, y: int) -> spec_fn(
    int,
    int,
) -> bool {
    |i: int, j: int|
        x <= i < x + 8 * count && y <= j < y + 8 && glyph_bit(
            basic_glyph(text[(i - x) / 8]).unwrap(),
            j - y,
            (i - x) % 8,
        )
}

/// The pixels that drawing `text` at `(x, y)` sets.
pub open spec fn text_mask(text: Seq<char>, x: int, y: int) -> spec_fn(int, int) -> bool {
    cells_mask(text, drawn_chars(text) as int, x, y)
}

/// What the rasterizer is, as a mathematical value.
pub struct RenderView {
    /// The display surface; empty until the handshake has succeeded.
    pub surface: SurfaceView,
    /// The framebuffer service's address, once the handshake has begun.
    pub gpu_pid: Pid,
    /// Whether the handshake has succeeded.
    pub initialized: bool,
    /// Why the handshake failed, if it did. A failure is final.
    pub halted: Option<ServiceError>,
}

impl RenderView {
    /// The surface is sound, and a rasterizer whose handshake has completed
    /// holds a valid surface and knows the framebuffer service.
    pub open spec fn wf(self) -> bool {
        &&& self.surface.wf()
        &&& self.initialized ==> self.surface.is_valid() && is_live(self.gpu_pid)
            && self.halted is None
    }

    /// The refresh notice that follows a drawing call; none before the
    /// handshake has completed.
    pub open spec fn refresh(self) -> Option<Envelope> {
        if self.initialized {
            Some(Envelope { to: self.gpu_pid, message: IpcMessage::GpuFlush })
        } else {
            None
        }
    }

    /// The rasterizer with its surface painted where `mask` selects; before
    /// the handshake has completed nothing is drawn.
    pub open spec fn paint(self, mask: spec_fn(int, int) -> bool, color: Rgb) -> RenderView {
        if self.initialized {
            RenderView { surface: self.surface.paint(mask, color.pixel()), ..self }
        } else {
            self
        }
    }

    /// The state after `draw_pixel`.
    pub open spec fn draw_pixel(self, x: int, y: int, color: Rgb) -> RenderView {
        if self.initialized {
            RenderView { surface: self.surface.put(x, y, color.pixel()), ..self }
        } else {
            self
        }
    }

    /// The rectangle that a fill request covers on this surface.
    pub open spec fn clamp(self, x: int, y: int, w: int, h: int) -> Rect {
        clamp_rect(self.surface.width, self.surface.height, x, y, w, h)
    }

    /// The state after `draw_rect`.
    pub open spec fn draw_rect(self, x: int, y: int, w: int, h: int, color: Rgb) -> RenderView {
        self.paint(self.clamp(x, y, w, h).mask(), color)
    }

    /// The state after `draw_glyph`.
    pub open spec fn draw_glyph(self, x: int, y: int, rows: Seq<u8>, color: Rgb) -> RenderView {
        self.paint(glyph_mask(rows, x, y), color)
    }

    /// The state after `draw_text`.
    pub open spec fn draw_text(self, x: int, y: int, text: Seq<char>, color: Rgb) -> RenderView {
        self.paint(text_mask(text, x, y), color)
    }

    /// The rasterizer before its handshake.
    pub open spec fn initial() -> RenderView {
        RenderView {
            surface: SurfaceView::blank(NULL_BASE, 0, 0),
            gpu_pid: INVALID_PID,
            initialized: false,
            halted: None,
        }
    }

    /// The rasterizer after the failure `error`: it keeps what it has and
    /// stays idle for good.
    pub open spec fn halt(self, error: ServiceError) -> RenderView {
        RenderView { halted: Some(error), ..self }
    }

    /// The request that opens the handshake with the service at `gpu_pid`.
    pub open spec fn init_request(gpu_pid: Pid) -> Envelope {
        Envelope {
            to: gpu_pid,
            message: IpcMessage::GpuInit { width: REQUESTED_WIDTH, height: REQUESTED_HEIGHT },
        }
    }

    /// The first half of the handshake. A rasterizer that has failed
    /// repeats its error; one that holds a surface keeps its state. Else,
    /// with the framebuffer service absent it fails with `NotFound`, and
    /// with the service present it keeps the address. On success the
    /// request to send is returned.
    pub open spec fn begin_init(self, gpu_pid: Pid) -> (RenderView, Result<Envelope, ServiceError>) {
        if self.halted is Some {
            (self, Err(self.halted.unwrap()))
        } else if self.initialized {
            (self, Ok(Self::init_request(self.gpu_pid)))
        } else if is_live(gpu_pid) {
            (RenderView { gpu_pid, ..self }, Ok(Self::init_request(gpu_pid)))
        } else {
            (self.halt(ServiceError::NotFound), Err(ServiceError::NotFound))
        }
    }

    /// Whether `reply` carries a surface that may be drawn on.
    pub open spec fn offers_surface(reply: IpcMessage) -> bool {
        reply matches IpcMessage::GpuFbReply { fb, width, height } && fb != NULL_BASE && width != 0
            && height != 0
    }

    /// The second half of the handshake. A rasterizer that has failed
    /// repeats its error; one that holds a surface keeps it. Else a reply
    /// that offers a surface makes the rasterizer ready, with the surface
    /// all black; any other message makes it fail with `InvalidHandle`, and
    /// where the handshake was never begun it fails with `NotFound`.
    pub open spec fn complete_init(self, reply: IpcMessage) -> (RenderView, Result<(), ServiceError>) {
        if self.halted is Some {
            (self, Err(self.halted.unwrap()))
        } else if self.initialized {
            (self, Ok(()))
        } else if !is_live(self.gpu_pid) {
            (self.halt(ServiceError::NotFound), Err(ServiceError::NotFound))
        } else if Self::offers_surface(reply) {
            (
                RenderView {
                    surface: SurfaceView::blank(
                        reply->fb,
                        reply->GpuFbReply_width as int,
                        reply->GpuFbReply_height as int,
                    ),
                    initialized: true,
                    ..self
                },
                Ok(()),
            )
        } else {
            (self.halt(ServiceError::InvalidHandle), Err(ServiceError::InvalidHandle))
        }
    }

    /// The state after a message and the notice to send: the three drawing
    /// requests are served, every other message is ignored.
    pub open spec fn handle(self, message: IpcMessage) -> (RenderView, Option<Envelope>) {
        match message {
            IpcMessage::RenderDrawPixel { x, y, color } => (
                self.draw_pixel(x as int, y as int, color),
                None,
            ),
            IpcMessage::RenderDrawRect { x, y, w, h, color } => (
                self.draw_rect(x as int, y as int, w as int, h as int, color),
                self.refresh(),
            ),
            IpcMessage::RenderDrawText { x, y, text, color } => (
                self.draw_text(x as int, y as int, text@, color),
                self.refresh(),
            ),
            _ => (self, None),
        }
    }
}

/// The rasterizer's state: the display surface, the framebuffer service's
/// address, and whether the handshake has completed.
pub struct RenderState {
    display: Surface,
    gpu_pid: Pid,
    initialized: bool,
    halted: Option<ServiceError>,
}

impl View for RenderState {
    type V = RenderView;

    closed spec fn view(&self) -> RenderView {
        RenderView {
            surface: self.display@,
            gpu_pid: self.gpu_pid,
            initialized: self.initialized,
            halted: self.halted,
        }
    }
}

impl RenderState {
    /// The rasterizer before its handshake: no surface, no framebuffer
    /// service.
    pub fn new() -> (s: RenderState)
        ensures
            s@.wf(),
            s@ == RenderView::initial(),
    {
        RenderState {
            display: Surface::new(NULL_BASE, 0, 0),
            gpu_pid: INVALID_PID,
            initialized: false,
            halted: None,
        }
    }

    /// Begins the handshake with the framebuffer service at `gpu_pid`:
    /// returns the request to send to it, or `NotFound` where the lookup
    /// gave the sentinel.
    pub fn begin_init(&mut self, gpu_pid: Pid) -> (request: Result<Envelope, ServiceError>)
        requires
            old(self)@.wf(),
        ensures
            final(self)@.wf(),
            (final(self)@, request) == old(self)@.begin_init(gpu_pid),
    {
        if let Some(error) = self.halted {
            return Err(error);
        }
        if !self.initialized {
            if gpu_pid == INVALID_PID {
                self.halted = Some(ServiceError::NotFound);
                return Err(ServiceError::NotFound);
            }
            self.gpu_pid = gpu_pid;
        }
        Ok(
            Envelope {
                to: self.gpu_pid,
                message: IpcMessage::GpuInit { width: REQUESTED_WIDTH, height: REQUESTED_HEIGHT },
            },
        )
    }

    /// Completes the handshake with the framebuffer service's reply. After
    /// `Ok` the rasterizer draws; after an error it stays idle.
    pub fn complete_init(&mut self, reply: IpcMessage) -> (outcome: Result<(), ServiceError>)
        requires
            old(self)@.wf(),
        ensures
            final(self)@.wf(),
            (final(self)@, outcome) == old(self)@.complete_init(reply),
    {
        if let Some(error) = self.halted {
            return Err(error);
        }
        if self.initialized {
            return Ok(());
        }
        if self.gpu_pid == INVALID_PID {
            self.halted = Some(ServiceError::NotFound);
            return Err(ServiceError::NotFound);
        }
        match reply {
            IpcMessage::GpuFbReply { fb, width, height } => {
                if fb != NULL_BASE && width != 0 && height != 0 {
                    self.display = Surface::new(fb, width, height);
                    self.initialized = true;
                    return Ok(());
                }
            },
            _ => {},
        }
        self.halted = Some(ServiceError::InvalidHandle);
        Err(ServiceError::InvalidHandle)
    }

    /// Why the handshake failed, if it did.
    pub fn halted(&self) -> (error: Option<ServiceError>)
        ensures
            error == self@.halted,
    {
        self.halted
    }

    /// Whether the handshake has completed.
    pub fn is_initialized(&self) -> (b: bool)
        ensures
            b == self@.initialized,
    {
        self.initialized
    }

    /// The address of the framebuffer service, once known.
    pub fn gpu_pid(&self) -> (pid: Pid)
        ensures
            pid == self@.gpu_pid,
    {
        self.gpu_pid
    }

    /// The display surface.
    pub fn surface(&self) -> (s: &Surface)
        ensures
            s@ == self@.surface,
    {
        &self.display
    }

    /// Sets one pixel. A coordinate off the surface is dropped silently, and
    /// so is every call before the handshake has completed. No refresh
    /// notice follows a single pixel.
    pub fn draw_pixel(&mut self, x: u16, y: u16, color: Rgb)
        requires
            old(self)@.wf(),
        ensures
            final(self)@.wf(),
            final(self)@ == old(self)@.draw_pixel(x as int, y as int, color),
    {
        if !self.initialized {
            return ;
        }
        self.display.put(x, y, color.to_pixel());
    }

    /// Fills the part of the requested rectangle that lies on the surface,
    /// and returns the refresh notice for the framebuffer service.
    pub fn draw_rect(&mut self, x: u16, y: u16, w: u16, h: u16, color: Rgb) -> (notice: Option<
        Envelope,
    >)
        requires
            old(self)@.wf(),
        ensures
            final(self)@.wf(),
            final(self)@ == old(self)@.draw_rect(x as int, y as int, w as int, h as int, color),
            notice == old(self)@.refresh(),
    {
        if !self.initialized {
            return None;
        }
        let max_x: u16 = self.display.width() - 1;
        let max_y: u16 = self.display.height() - 1;
        let cx: u16 = if x < max_x { x } else { max_x };
        let cy: u16 = if y < max_y { y } else { max_y };
        let cw: u16 = if w < max_x - cx + 1 { w } else { max_x - cx + 1 };
        let ch: u16 = if h < max_y - cy + 1 { h } else { max_y - cy + 1 };
        let p = color.to_pixel();
        let ghost before = self.display@;
        let ghost rect = self@.clamp(x as int, y as int, w as int, h as int);
        assert(rect == Rect { x: cx as int, y: cy as int, w: cw as int, h: ch as int });
        proof {
            before.lemma_paint_nothing(rows_mask(rect, 0, 0), p);
        }
        let mut dy: u16 = 0;
        while dy < ch
            invariant
                dy <= ch,
                rect == (Rect { x: cx as int, y: cy as int, w: cw as int, h: ch as int }),
                cx + cw <= before.width,
                cy + ch <= before.height,
                before.wf(),
                self.initialized,
                self.gpu_pid == old(self).gpu_pid,
                self.halted == old(self).halted,
                self.display@.wf(),
                self.display@ == before.paint(rows_mask(rect, dy as int, 0), p),
            decreases ch - dy,
        {
            let mut dx: u16 = 0;
            while dx < cw
                invariant
                    dx <= cw,
                    dy < ch,
                    rect == (Rect { x: cx as int, y: cy as int, w: cw as int, h: ch as int }),
                    cx + cw <= before.width,
                    cy + ch <= before.height,
                    before.wf(),
                    self.initialized,
                    self.gpu_pid == old(self).gpu_pid,
                    self.halted == old(self).halted,
                    self.display@.wf(),
                    self.display@ == before.paint(rows_mask(rect, dy as int, dx as int), p),
                decreases cw - dx,
            {
                self.display.put(cx + dx, cy + dy, p);
                proof {
                    before.lemma_put_after_paint(
                        rows_mask(rect, dy as int, dx as int),
                        rows_mask(rect, dy as int, dx + 1),
                        cx + dx,
                        cy + dy,
                        p,
                    );
                }
                dx += 1;
            }
            proof {
                before.lemma_paint_ext(
                    rows_mask(rect, dy as int, cw as int),
                    rows_mask(rect, dy + 1, 0),
                    p,
                );
            }
            dy += 1;
        }
        proof {
            before.lemma_paint_ext(rows_mask(rect, ch as int, 0), rect.mask(), p);
        }
        Some(Envelope { to: self.gpu_pid, message: IpcMessage::GpuFlush })
    }

    /// Draws one glyph with its top left corner at `(x, y)`: every set pixel
    /// of the glyph goes through the bounds-checked writer, so the part of
    /// the cell that is off the surface is dropped.
    pub fn draw_glyph(&mut self, x: u16, y: u16, glyph: &Glyph, color: Rgb)
        requires
            old(self)@.wf(),
        ensures
            final(self)@.wf(),
            final(self)@ == old(self)@.draw_glyph(x as int, y as int, glyph@, color),
    {
        if !self.initialized {
            return ;
        }
        let p = color.to_pixel();
        let ghost before = self.display@;
        let ghost rows = glyph@;
        let ghost gx = x as int;
        let ghost gy = y as int;
        proof {
            before.lemma_paint_nothing(cell_mask(rows, gx, gy, 0, 0), p);
        }
        let mut row: usize = 0;
        while row < 8
            invariant
                row <= 8,
                rows == glyph@,
                gx == x,
                gy == y,
                before.wf(),
                self.initialized,
                self.gpu_pid == old(self).gpu_pid,
                self.halted == old(self).halted,
                self.display@.wf(),
                self.display@ == before.paint(cell_mask(rows, gx, gy, row as int, 0), p),
            decreases 8 - row,
        {
            let mut col: usize = 0;
            while col < 8
                invariant
                    col <= 8,
                    row < 8,
                    rows == glyph@,
                    gx == x,
                    gy == y,
                    before.wf(),
                    self.initialized,
                    self.gpu_pid == old(self).gpu_pid,
                    self.halted == old(self).halted,
                    self.display@.wf(),
                    self.display@ == before.paint(
                        cell_mask(rows, gx, gy, row as int, col as int),
                        p,
                    ),
                decreases 8 - col,
            {
                let px: u32 = x as u32 + col as u32;
                let py: u32 = y as u32 + row as u32;
                if glyph_pixel(glyph, row, col) && px <= 0xFFFF && py <= 0xFFFF {
                    self.display.put(px as u16, py as u16, p);
                    proof {
                        before.lemma_put_after_paint(
                            cell_mask(rows, gx, gy, row as int, col as int),
                            cell_mask(rows, gx, gy, row as int, col + 1),
                            px as int,
                            py as int,
                            p,
                        );
                    }
                } else {
                    proof {
                        before.lemma_paint_ext(
                            cell_mask(rows, gx, gy, row as int, col as int),
                            cell_mask(rows, gx, gy, row as int, col + 1),
                            p,
                        );
                    }
                }
                col += 1;
            }
            proof {
                before.lemma_paint_ext(
                    cell_mask(rows, gx, gy, row as int, 8),
                    cell_mask(rows, gx, gy, row + 1, 0),
                    p,
                );
            }
            row += 1;
        }
        proof {
            before.lemma_paint_ext(cell_mask(rows, gx, gy, 8, 0), glyph_mask(rows, gx, gy), p);
        }
    }

    /// Draws `text` from `(x, y)` to the right, eight columns per character,
    /// without wrapping. The first character that the font has no glyph for
    /// ends the drawing: neither it nor what follows it is drawn. Returns
    /// the refresh notice for the framebuffer service, one per call, also
    /// where the drawing ended early.
    pub fn draw_text(&mut self, x: u16, y: u16, text: &str, color: Rgb) -> (notice: Option<
        Envelope,
    >)
        requires
            old(self)@.wf(),
        ensures
            final(self)@.wf(),
            final(self)@ == old(self)@.draw_text(x as int, y as int, text@, color),
            notice == old(self)@.refresh(),
    {
        if !self.initialized {
            return None;
        }
        let p = color.to_pixel();
        let width: u32 = self.display.width() as u32;
        let count: usize = text.unicode_len();
        let ghost before = self.display@;
        let ghost chars = text@;
        let ghost gx = x as int;
        let ghost gy = y as int;
        proof {
            before.lemma_paint_nothing(cells_mask(chars, 0, gx, gy), p);
        }
        let mut k: usize = 0;
        let mut cell_x: u32 = x as u32;
        let mut stopped: bool = false;
        // A cell that begins at or beyond the right edge has no pixel on the
        // surface, and neither has any cell after it.
        while !stopped && k < count && cell_x < width
            invariant
                k <= count,
                count == chars.len(),
                chars == text@,
                gx == x,
                gy == y,
                cell_x == x + 8 * k,
                width == before.width,
                forall|m: int| 0 <= m < k ==> has_glyph(#[trigger] chars[m]),
                stopped ==> k < count && !has_glyph(chars[k as int]),
                before.wf(),
                p == color.pixel(),
                self.initialized,
                self.gpu_pid == old(self).gpu_pid,
                self.halted == old(self).halted,
                self@.wf(),
                self.display@ == before.paint(cells_mask(chars, k as int, gx, gy), p),
            decreases count - k, if stopped { 0int } else { 1int },
        {
            let c = text.get_char(k);
            match lookup_glyph(c) {
                None => {
                    stopped = true;
                },
                Some(glyph) => {
                    self.draw_glyph(cell_x as u16, y, &glyph, color);
                    proof {
                        assert(basic_glyph(chars[k as int]).unwrap() == glyph@);
                        before.lemma_paint(cells_mask(chars, k as int, gx, gy), p);
                        assert forall|i: int, j: int| before.contains(i, j) implies (
                        #[trigger] cells_mask(chars, k + 1, gx, gy)(i, j) <==> (cells_mask(
                            chars,
                            k as int,
                            gx,
                            gy,
                        )(i, j) || glyph_mask(glyph@, cell_x as int, gy)(i, j))) by {
                            if gx + 8 * k <= i < gx + 8 * k + 8 {
                                assert((i - gx) / 8 == k);
                                assert((i - gx) % 8 == i - cell_x);
                            }
                        }
                        before.lemma_paint_after_paint(
                            cells_mask(chars, k as int, gx, gy),
                            glyph_mask(glyph@, cell_x as int, gy),
                            cells_mask(chars, k + 1, gx, gy),
                            p,
                        );
                    }
                    k += 1;
                    cell_x += 8;
                },
            }
        }
        proof {
            lemma_drawn_chars(chars, k as int);
            before.lemma_paint_ext(cells_mask(chars, k as int, gx, gy), text_mask(chars, gx, gy), p);
        }
        Some(Envelope { to: self.gpu_pid, message: IpcMessage::GpuFlush })
    }

    /// Serves one message: a drawing request is carried out, any other
    /// message is ignored. Returns the notice to send, if any.
    pub fn handle_ipc_message(&mut self, sender: Pid, message: IpcMessage) -> (notice: Option<
        Envelope,
    >)
        requires
            old(self)@.wf(),
        ensures
            final(self)@.wf(),
            (final(self)@, notice) == old(self)@.handle(message),
    {
        match message {
            IpcMessage::RenderDrawPixel { x, y, color } => {
                self.draw_pixel(x, y, color);
                None
            },
            IpcMessage::RenderDrawRect { x, y, w, h, color } => self.draw_rect(x, y, w, h, color),
            IpcMessage::RenderDrawText { x, y, text, color } => self.draw_text(x, y, text, color),
            _ => None,
        }
    }
}

/// A fill, whatever rectangle is asked for, stays on the surface: on a
/// surface that is not empty, the rectangle that is drawn has its corner on
/// the surface and ends at the surface's edges at the latest. It is never
/// larger than the requested one, and it is the requested one where that
/// lies on the surface.
pub proof fn lemma_clamped_rect_on_surface(sw: u16, sh: u16, x: u16, y: u16, w: u16, h: u16)
    requires
        sw > 0,
        sh > 0,
    ensures
        ({
            let r = clamp_rect(sw as int, sh as int, x as int, y as int, w as int, h as int);
            &&& 0 <= r.x < sw
            &&& 0 <= r.y < sh
            &&& 0 <= r.w <= w
            &&& 0 <= r.h <= h
            &&& r.x + r.w <= sw
            &&& r.y + r.h <= sh
            &&& forall|i: int, j: int| r.contains(i, j) ==> 0 <= i < sw && 0 <= j < sh
            &&& x + w <= sw && y + h <= sh && w > 0 && h > 0 ==> r == Rect {
                x: x as int,
                y: y as int,
                w: w as int,
                h: h as int,
            }
        }),
{
}

/// What `draw_rect` does to the pixels, for every request: no dimension
/// changes, the pixels of the clamped rectangle take the color, and every
/// other pixel of the surface is as it was. Before the handshake has
/// succeeded nothing changes at all.
pub proof fn lemma_draw_rect_pixels(r: RenderView, x: u16, y: u16, w: u16, h: u16, color: Rgb)
    requires
        r.wf(),
    ensures
        ({
            let after = r.draw_rect(x as int, y as int, w as int, h as int, color);
            let rect = r.clamp(x as int, y as int, w as int, h as int);
            &&& after.wf()
            &&& after.surface.base == r.surface.base
            &&& after.surface.width == r.surface.width
            &&& after.surface.height == r.surface.height
            &&& after.surface.pixels.len() == r.surface.pixels.len()
            &&& after.gpu_pid == r.gpu_pid
            &&& after.initialized == r.initialized
            &&& after.halted == r.halted
            &&& !r.initialized ==> after == r
            &&& forall|i: int, j: int|
                r.surface.contains(i, j) ==> #[trigger] after.surface.pixel_at(i, j) == (if r.initialized
                    && rect.contains(i, j) {
                    color.pixel()
                } else {
                    r.surface.pixel_at(i, j)
                })
        }),
{
    let rect = r.clamp(x as int, y as int, w as int, h as int);
    r.surface.lemma_paint(rect.mask(), color.pixel());
}

/// Where text is drawn: only inside the cells of the characters that are
/// drawn, which lie side by side from `x`, eight columns each, in the eight
/// rows from `y`; and no more characters are drawn than the text has.
pub proof fn lemma_text_stays_in_cells(text: Seq<char>, x: int, y: int)
    ensures
        drawn_chars(text) <= text.len(),
        forall|k: int| 0 <= k < drawn_chars(text) ==> has_glyph(#[trigger] text[k]),
        drawn_chars(text) < text.len() ==> !has_glyph(text[drawn_chars(text) as int]),
        forall|i: int, j: int| #[trigger]
            text_mask(text, x, y)(i, j) ==> x <= i < x + 8 * drawn_chars(text) && y <= j < y + 8,
    decreases text.len(),
{
    if text.len() > 0 && has_glyph(text[0]) {
        let rest = text.drop_first();
        lemma_text_stays_in_cells(rest, x, y);
        assert forall|k: int| 0 <= k < drawn_chars(text) implies has_glyph(#[trigger] text[k]) by {
            if k > 0 {
                assert(text[k] == rest[k - 1]);
            }
        }
        if drawn_chars(text) < text.len() {
            assert(text[drawn_chars(text) as int] == rest[drawn_chars(rest) as int]);
        }
    }
}

/// What `draw_text` does to the pixels: no dimension changes, the set
/// pixels of the drawn glyphs take the color, and every other pixel of the
/// surface is as it was, among them every pixel outside the drawn
/// characters' cells.
pub proof fn lemma_draw_text_pixels(r: RenderView, x: u16, y: u16, text: Seq<char>, color: Rgb)
    requires
        r.wf(),
    ensures
        ({
            let after = r.draw_text(x as int, y as int, text, color);
            &&& after.wf()
            &&& after.surface.base == r.surface.base
            &&& after.surface.width == r.surface.width
            &&& after.surface.height == r.surface.height
            &&& after.surface.pixels.len() == r.surface.pixels.len()
            &&& after.gpu_pid == r.gpu_pid
            &&& after.initialized == r.initialized
            &&& after.halted == r.halted
            &&& !r.initialized ==> after == r
            &&& forall|i: int, j: int|
                r.surface.contains(i, j) ==> #[trigger] after.surface.pixel_at(i, j) == (if r.initialized
                    && text_mask(text, x as int, y as int)(i, j) {
                    color.pixel()
                } else {
                    r.surface.pixel_at(i, j)
                })
            &&& forall|i: int, j: int|
                r.surface.contains(i, j) && !(x <= i < x + 8 * drawn_chars(text) && y <= j < y + 8)
                    ==> #[trigger] after.surface.pixel_at(i, j) == r.surface.pixel_at(i, j)
        }),
{
    r.surface.lemma_paint(text_mask(text, x as int, y as int), color.pixel());
    lemma_text_stays_in_cells(text, x as int, y as int);
}

/// A rasterizer that was offered no surface never draws: the reply
/// without a surface makes a rasterizer that awaits it fail for good, and a
/// rasterizer that has failed answers every later call with its error,
/// ignores every message, writes no pixel and sends no notice.
pub proof fn lemma_no_surface_no_drawing(r: RenderView, gpu_pid: Pid, message: IpcMessage)
    requires
        r.wf(),
        !r.initialized,
    ensures
        ({
            let failed = r.complete_init(no_surface_reply()).0;
            &&& failed.wf()
            &&& failed.halted is Some
            &&& !failed.initialized
            &&& failed.surface == r.surface
            &&& r.complete_init(no_surface_reply()).1 is Err
            &&& r.halted is None && is_live(r.gpu_pid) ==> failed.halted == Some(
                ServiceError::InvalidHandle,
            )
            &&& failed.handle(message) == (failed, None::<Envelope>)
            &&& failed.begin_init(gpu_pid) == (failed, Err::<Envelope, ServiceError>(failed.halted.unwrap()))
            &&& failed.complete_init(message) == (failed, Err::<(), ServiceError>(failed.halted.unwrap()))
        }),
{
}

/// The part of a glyph's cell that a row-by-row blit has covered when
/// `rows_done` full rows and `cols_done` columns of the next row are done.
spec fn cell_mask(rows: Seq<u8>, x: int, y: int, rows_done: int, cols_done: int) -> spec_fn(
    int,
    int,
) -> bool {
    |i: int, j: int|
        x <= i < x + 8 && glyph_bit(rows, j - y, i - x) && (y <= j < y + rows_done || (j == y
            + rows_done && rows_done < 8 && i < x + cols_done))
}

/// A prefix of `k` characters that all have glyphs is drawn in full, and
/// where it ends at the end of the text or before a character without a
/// glyph, nothing more is drawn.
proof fn lemma_drawn_chars(text: Seq<char>, k: int)
    requires
        0 <= k <= text.len(),
        forall|m: int| 0 <= m < k ==> has_glyph(#[trigger] text[m]),
    ensures
        drawn_chars(text) >= k,
        k == text.len() || !has_glyph(text[k]) ==> drawn_chars(text) == k,
    decreases k,
{
    if k > 0 {
        let rest = text.drop_first();
        assert forall|m: int| 0 <= m < k - 1 implies has_glyph(#[trigger] rest[m]) by {
            assert(rest[m] == text[m + 1]);
        }
        assert(has_glyph(text[0]));
        if k < text.len() {
            assert(rest[k - 1] == text[k]);
        }
        lemma_drawn_chars(rest, k - 1);
    }
}

/// The part of a rectangle that a row-by-row fill has covered when `rows`
/// full rows and `cols` columns of the next row are done.
spec fn rows_mask(rect: Rect, rows: int, cols: int) -> spec_fn(int, int) -> bool {
    |i: int, j: int|
        rect.x <= i < rect.x + rect.w && (rect.y <= j < rect.y + rows || (j == rect.y + rows && i
            < rect.x + cols))
}

} // verus!
