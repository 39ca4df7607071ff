//! The framebuffer service: the sole owner of the physical display surface.
//!
//! The service maps the surface once and answers every later request from
//! the handle it has kept. The platform work is not done here: a step
//! returns what the process embedding the service has to do next, and the
//! process hands the outcome back.

use vstd::prelude::*;
use crate::protocol::{no_surface_reply, Envelope, IpcMessage, Pid, NULL_BASE};
use crate::render::RenderView;

verus! {

/// The display mode as the platform reports it.
#[derive(Debug, Clone, Copy, PartialEq, Eq, Structural)]
pub struct VesaInfo {
    pub width: u16,
    pub height: u16,
    /// Bits per pixel.
    pub bpp: u8,
    /// The physical address of the surface.
    pub fb_phys: u64,
}

/// The mapped surface: where it lies in the service's memory, and its
/// dimensions.
#[derive(Debug, Clone, Copy, PartialEq, Eq, Structural)]
pub struct DisplayHandle {
    pub base: u64,
    pub width: u16,
    pub height: u16,
}

/// What the process embedding the service has to do after a step.
#[derive(Debug, Clone, Copy, PartialEq)]
pub enum GpuAction {
    /// Nothing.
    Nothing,
    /// Ask the platform for the display mode and pass the answer, with the
    /// requester, to `mode_info`.
    QueryMode { requester: Pid },
    /// Map `size` bytes of physical memory from `phys_addr` and pass the
    /// base of the mapping, with the requester, to `mapped`.
    MapSurface { requester: Pid, phys_addr: u64, size: u64 },
    /// Send a message.
    Send(Envelope),
    /// Run the hardware's refresh hook.
    Refresh,
}

impl VesaInfo {
    /// The size of the surface in bytes: one pixel takes the whole bytes
    /// that its bits fill.
    pub open spec fn surface_bytes(self) -> int {
        self.width * self.height * (self.bpp / 8)
    }

    /// The size of a surface is a number of 64 bits, whatever the mode.
    pub proof fn lemma_surface_bytes_bound(self)
        ensures
            0 <= self.surface_bytes() <= 0xFFFF * 0xFFFF * 31 < u64::MAX,
    {
        let w = self.width as int;
        let h = self.height as int;
        let d = (self.bpp / 8) as int;
        assert(0 <= w * h <= 0xFFFF * 0xFFFF && 0 <= w * h * d <= 0xFFFF * 0xFFFF * 31)
            by (nonlinear_arith)
            requires
                0 <= w <= 0xFFFF,
                0 <= h <= 0xFFFF,
                0 <= d <= 31,
        ;
    }

    /// Computes the size of the surface in bytes.
    pub fn byte_size(&self) -> (size: u64)
        ensures
            size == self.surface_bytes(),
    {
        let w = self.width as u64;
        let h = self.height as u64;
        let d = (self.bpp / 8) as u64;
        assert(w * h <= 0xFFFF * 0xFFFF && w * h * d <= 0xFFFF * 0xFFFF * 31) by (nonlinear_arith)
            requires
                w <= 0xFFFF,
                h <= 0xFFFF,
                d <= 31,
        ;
        w * h * d
    }
}

impl DisplayHandle {
    /// The reply that carries this handle.
    pub open spec fn reply(self) -> IpcMessage {
        IpcMessage::GpuFbReply { fb: self.base, width: self.width, height: self.height }
    }

    /// A handle that may be drawn through: it has a base and the surface is
    /// not empty.
    pub open spec fn is_valid(self) -> bool {
        self.base != NULL_BASE && self.width != 0 && self.height != 0
    }

    /// Builds the reply that carries this handle.
    pub fn to_reply(&self) -> (m: IpcMessage)
        ensures
            m == self.reply(),
    {
        IpcMessage::GpuFbReply { fb: self.base, width: self.width, height: self.height }
    }
}

/// What the framebuffer service is, as a mathematical value.
pub struct GpuView {
    /// The display mode, once the platform has reported one.
    pub mode: Option<VesaInfo>,
    /// The handle of the mapped surface, once the surface is mapped.
    pub handle: Option<DisplayHandle>,
}

impl GpuView {
    /// A handle describes a surface of the reported mode.
    pub open spec fn wf(self) -> bool {
        self.handle is Some ==> self.mode is Some && self.handle.unwrap().width
            == self.mode.unwrap().width && self.handle.unwrap().height
            == self.mode.unwrap().height
    }

    /// The service at start: no mode known, nothing mapped.
    pub open spec fn initial() -> GpuView {
        GpuView { mode: None, handle: None }
    }

    /// The reply to a request for the handle: the kept handle, or the
    /// reply without a surface where nothing is mapped.
    pub open spec fn handle_reply(self) -> IpcMessage {
        match self.handle {
            Some(h) => h.reply(),
            None => no_surface_reply(),
        }
    }

    /// The action that answers `to` with the kept handle.
    pub open spec fn answer(self, to: Pid) -> GpuAction {
        GpuAction::Send(Envelope { to, message: self.handle_reply() })
    }

    /// The step for a message. A request to acquire the display is
    /// answered from the kept handle where there is one, and else starts the
    /// mode query; a request for the handle is answered at once; a flush
    /// runs the refresh hook; anything else is ignored. The state does not
    /// change.
    pub open spec fn handle(self, sender: Pid, message: IpcMessage) -> (GpuView, GpuAction) {
        match message {
            IpcMessage::GpuInit { .. } => if self.handle is Some {
                (self, self.answer(sender))
            } else {
                (self, GpuAction::QueryMode { requester: sender })
            },
            IpcMessage::GpuGetFb => (self, self.answer(sender)),
            IpcMessage::GpuFlush => (self, GpuAction::Refresh),
            _ => (self, GpuAction::Nothing),
        }
    }

    /// The step for the platform's answer to the mode query. Without a
    /// mode the requester gets the reply without a surface. With a mode the
    /// mode is kept and the surface is to be mapped, unless a surface is
    /// mapped already: then the requester gets the kept handle.
    pub open spec fn mode_info(self, requester: Pid, info: Option<VesaInfo>) -> (
        GpuView,
        GpuAction,
    ) {
        if self.handle is Some {
            (self, self.answer(requester))
        } else {
            match info {
                None => (
                    self,
                    GpuAction::Send(Envelope { to: requester, message: no_surface_reply() }),
                ),
                Some(mode) => (
                    GpuView { mode: Some(mode), ..self },
                    GpuAction::MapSurface {
                        requester,
                        phys_addr: mode.fb_phys,
                        size: mode.surface_bytes() as u64,
                    },
                ),
            }
        }
    }

    /// The step for the outcome of the mapping: the handle is kept, whatever
    /// the base, and the requester gets it. Where a surface is mapped
    /// already the kept handle stays; where no mode is known there is no
    /// surface to describe, and the requester gets the reply without one.
    pub open spec fn mapped(self, requester: Pid, base: u64) -> (GpuView, GpuAction) {
        if self.handle is Some || self.mode is None {
            (self, self.answer(requester))
        } else {
            let kept = GpuView {
                handle: Some(
                    DisplayHandle {
                        base,
                        width: self.mode.unwrap().width,
                        height: self.mode.unwrap().height,
                    },
                ),
                ..self
            };
            (kept, kept.answer(requester))
        }
    }
}

/// The framebuffer service's state.
pub struct GpuState {
    vesa: Option<VesaInfo>,
    handle: Option<DisplayHandle>,
}

impl View for GpuState {
    type V = GpuView;

    closed spec fn view(&self) -> GpuView {
        GpuView { mode: self.vesa, handle: self.handle }
    }
}

impl GpuState {
    /// The service at start.
    pub fn new() -> (s: GpuState)
        ensures
            s@.wf(),
            s@ == GpuView::initial(),
    {
        GpuState { vesa: None, handle: None }
    }

    /// The display mode, once reported.
    pub fn mode(&self) -> (m: Option<VesaInfo>)
        ensures
            m == self@.mode,
    {
        self.vesa
    }

    /// The kept handle, once the surface is mapped.
    pub fn handle(&self) -> (h: Option<DisplayHandle>)
        ensures
            h == self@.handle,
    {
        self.handle
    }

    fn answer(&self, to: Pid) -> (action: GpuAction)
        ensures
            action == self@.answer(to),
    {
        let message = match self.handle {
            Some(h) => h.to_reply(),
            None => IpcMessage::GpuFbReply { fb: NULL_BASE, width: 0, height: 0 },
        };
        GpuAction::Send(Envelope { to, message })
    }

    /// Serves one message from `sender`.
    pub fn handle_ipc_message(&mut self, sender: Pid, message: IpcMessage) -> (action: GpuAction)
        requires
            old(self)@.wf(),
        ensures
            final(self)@.wf(),
            (final(self)@, action) == old(self)@.handle(sender, message),
    {
        match message {
            IpcMessage::GpuInit { width: _, height: _ } => {
                if self.handle.is_some() {
                    self.answer(sender)
                } else {
                    GpuAction::QueryMode { requester: sender }
                }
            },
            IpcMessage::GpuGetFb => self.answer(sender),
            IpcMessage::GpuFlush => GpuAction::Refresh,
            _ => GpuAction::Nothing,
        }
    }

    /// Takes the platform's answer to the mode query made for `requester`.
    pub fn mode_info(&mut self, requester: Pid, info: Option<VesaInfo>) -> (action: GpuAction)
        requires
            old(self)@.wf(),
        ensures
            final(self)@.wf(),
            (final(self)@, action) == old(self)@.mode_info(requester, info),
    {
        if self.handle.is_some() {
            return self.answer(requester);
        }
        match info {
            None => GpuAction::Send(
                Envelope {
                    to: requester,
                    message: IpcMessage::GpuFbReply { fb: NULL_BASE, width: 0, height: 0 },
                },
            ),
            Some(mode) => {
                self.vesa = Some(mode);
                GpuAction::MapSurface {
                    requester,
                    phys_addr: mode.fb_phys,
                    size: mode.byte_size(),
                }
            },
        }
    }

    /// Takes the base of the mapping made for `requester`; zero where the
    /// mapping failed.
    pub fn mapped(&mut self, requester: Pid, base: u64) -> (action: GpuAction)
        requires
            old(self)@.wf(),
        ensures
            final(self)@.wf(),
            (final(self)@, action) == old(self)@.mapped(requester, base),
    {
        if self.handle.is_none() {
            if let Some(mode) = self.vesa {
                self.handle = Some(DisplayHandle { base, width: mode.width, height: mode.height });
            }
        }
        self.answer(requester)
    }
}

/// The surface is mapped at most once: a service that holds a handle never
/// again asks for a mode query or a mapping, whatever it is handed, and
/// keeps its handle unchanged.
pub proof fn lemma_maps_once(
    g: GpuView,
    sender: Pid,
    message: IpcMessage,
    info: Option<VesaInfo>,
    base: u64,
)
    requires
        g.wf(),
        g.handle is Some,
    ensures
        g.handle(sender, message).0 == g,
        g.mode_info(sender, info) == (g, g.answer(sender)),
        g.mapped(sender, base) == (g, g.answer(sender)),
        !(g.handle(sender, message).1 is QueryMode),
        !(g.handle(sender, message).1 is MapSurface),
        message is GpuInit || message is GpuGetFb ==> g.handle(sender, message).1 == g.answer(
            sender,
        ),
{
}

/// A service without a display mode offers no surface, and a rasterizer
/// that gets this answer is finished: a request to acquire the display
/// starts the mode query; when the query yields nothing, the requester is
/// sent the reply with null base, zero width and zero height, and nothing
/// is mapped; the rasterizer that awaits the reply fails on it for good and
/// from then on ignores every message, writing no pixel.
pub proof fn lemma_no_mode_no_drawing(
    g: GpuView,
    r: RenderView,
    rasterizer: Pid,
    width: u16,
    height: u16,
    later: IpcMessage,
)
    requires
        g.wf(),
        g.handle is None,
        r.wf(),
        !r.initialized,
    ensures
        g.handle(rasterizer, IpcMessage::GpuInit { width, height }) == (
            g,
            GpuAction::QueryMode { requester: rasterizer },
        ),
        g.mode_info(rasterizer, None) == (
            g,
            GpuAction::Send(
                Envelope {
                    to: rasterizer,
                    message: IpcMessage::GpuFbReply { fb: 0, width: 0, height: 0 },
                },
            ),
        ),
        ({
            let failed = r.complete_init(IpcMessage::GpuFbReply { fb: 0, width: 0, height: 0 }).0;
            &&& failed.halted is Some
            &&& !failed.initialized
            &&& failed.surface == r.surface
            &&& failed.handle(later) == (failed, None::<Envelope>)
        }),
{
}

} // verus!
