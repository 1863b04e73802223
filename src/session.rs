//! The lifecycle of the overlay surface that shows one notification, as a
//! state machine: the caller performs each action on the display server and
//! hands back the event that came of it.
use crate::config::{anchor_from_bits, anchor_of, WindowConfig, WindowMargin, WindowSize};
use crate::error::{Capability, RevereError};
use crate::frame::{frame_fits, layout_spec, FrameLayout};
use smithay_client_toolkit::reexports::protocols::wlr::unstable::layer_shell::v1::client::zwlr_layer_surface_v1::Anchor;
use vstd::prelude::*;

verus! {

/// What the overlay surface is asked to be.
#[derive(Clone, Copy, Debug, PartialEq, Eq, Structural)]
pub struct SurfaceRequest {
    /// Fixed size in pixels.
    pub size: WindowSize,
    /// Anchor bitmask: the union of the placement's two edges.
    pub anchor_mask: u32,
    /// Margins, in top, right, bottom, left order.
    pub margin: WindowMargin,
}

impl SurfaceRequest {
    /// The layer-shell anchor set of this request.
    pub fn anchor(&self) -> (r: Anchor)
        ensures
            r == anchor_of(self.anchor_mask),
    {
        anchor_from_bits(self.anchor_mask)
    }
}

/// What a session waits for.
#[derive(Clone, Copy, Debug, PartialEq, Eq, Structural)]
pub enum SessionPhase {
    /// Nothing is open yet.
    Disconnected,
    /// A connection to the display server was asked for.
    Connecting,
    /// The compositor, shared-memory and layer-shell globals were asked for.
    BindingGlobals,
    /// The surface and its overlay were asked for.
    CreatingSurface,
    /// Pending protocol events are being dispatched.
    Pumping,
    /// A frame is being painted and attached.
    Painting,
    /// The surface is being destroyed.
    DestroyingSurface,
    /// The overlay (layer surface) is being destroyed.
    DestroyingLayerSurface,
    /// The attached buffer is being destroyed.
    DestroyingBuffer,
    /// The outgoing requests are being flushed.
    Flushing,
    /// The session is over.
    Destroyed,
}

/// What came of the last action.
#[derive(Clone, Copy, Debug, PartialEq, Eq)]
pub enum SessionEvent {
    /// The caller starts the session.
    Start,
    /// The display server was reached.
    Connected,
    /// No display server could be reached.
    ConnectFailed,
    /// All three globals are bound.
    GlobalsBound,
    /// The display server lacks this global.
    GlobalMissing(Capability),
    /// The surface and overlay exist and their first state is committed; the
    /// display time starts now.
    SurfaceCreated,
    /// While dispatching, the server sent a configure event with this serial.
    Configure(u32),
    /// The pending protocol events are dispatched.
    Pumped,
    /// A frame was painted; `attached` tells whether a buffer was attached
    /// (false when both halves of the memory pool were still in use), and
    /// `elapsed_ms` is the display time so far.
    Painted { attached: bool, elapsed_ms: u64 },
    /// A destroy request was sent.
    Done,
    /// The outgoing requests were all written.
    Flushed,
    /// Not all outgoing requests could be written.
    FlushFailed,
}

/// What the caller is to do next.
#[derive(Clone, Copy, Debug, PartialEq, Eq)]
pub enum SessionAction {
    /// Connect to the display server.
    Connect,
    /// Bind the compositor, shared-memory and layer-shell globals.
    BindGlobals,
    /// Create the surface and its overlay, configure and commit it.
    CreateSurface(SurfaceRequest),
    /// Dispatch pending protocol events, without waiting longer than the display time left.
    PumpEvents,
    /// Acknowledge the configure event with this serial.
    AckConfigure(u32),
    /// Paint a frame with this layout, attach it, damage the whole surface and commit.
    Paint(FrameLayout),
    /// Destroy the surface.
    DestroySurface,
    /// Destroy the overlay (layer surface).
    DestroyLayerSurface,
    /// Destroy the attached buffer.
    DestroyBuffer,
    /// Flush the outgoing requests.
    Flush,
    /// The session is over, with this outcome.
    Finish(Result<(), RevereError>),
    /// The event was not one the session waits for: nothing to do.
    Wait,
}

/// One notification's display session.
#[derive(Clone, Copy, Debug, PartialEq, Eq, Structural)]
pub struct DisplaySession {
    /// What the session waits for.
    pub phase: SessionPhase,
    /// How long the window is shown, in milliseconds.
    pub duration_ms: u64,
    /// What the surface is asked to be.
    pub request: SurfaceRequest,
    /// Layout of each frame.
    pub layout: FrameLayout,
    /// Whether a buffer has been attached to the surface.
    pub buffer_attached: bool,
}

impl DisplaySession {
    /// The session that shows a window configured by `config`.
    pub open spec fn initial(config: WindowConfig, with_thumbnail: bool) -> DisplaySession {
        DisplaySession {
            phase: SessionPhase::Disconnected,
            duration_ms: (config.duration * 1000) as u64,
            request: SurfaceRequest {
                size: config.size,
                anchor_mask: config.placement.mask(),
                margin: config.margin,
            },
            layout: layout_spec(config, with_thumbnail),
            buffer_attached: false,
        }
    }

    /// This session in phase `p`.
    pub open spec fn in_phase(self, p: SessionPhase) -> DisplaySession {
        DisplaySession {
            phase: p,
            duration_ms: self.duration_ms,
            request: self.request,
            layout: self.layout,
            buffer_attached: self.buffer_attached,
        }
    }

    /// After `elapsed_ms` of display time: another round of the display
    /// loop while time is left, else the teardown, which starts with the surface.
    pub open spec fn continue_after(self, elapsed_ms: u64) -> (DisplaySession, SessionAction) {
        if elapsed_ms < self.duration_ms {
            (self.in_phase(SessionPhase::Pumping), SessionAction::PumpEvents)
        } else {
            (self.in_phase(SessionPhase::DestroyingSurface), SessionAction::DestroySurface)
        }
    }

    /// The next session and action after event `e`.
    pub open spec fn step(self, e: SessionEvent) -> (DisplaySession, SessionAction) {
        match (self.phase, e) {
            (SessionPhase::Disconnected, SessionEvent::Start) =>
                (self.in_phase(SessionPhase::Connecting), SessionAction::Connect),
            (SessionPhase::Connecting, SessionEvent::Connected) =>
                (self.in_phase(SessionPhase::BindingGlobals), SessionAction::BindGlobals),
            (SessionPhase::Connecting, SessionEvent::ConnectFailed) => (
                self.in_phase(SessionPhase::Destroyed),
                SessionAction::Finish(Err(RevereError::WaylandCnxError)),
            ),
            (SessionPhase::BindingGlobals, SessionEvent::GlobalsBound) => (
                self.in_phase(SessionPhase::CreatingSurface),
                SessionAction::CreateSurface(self.request),
            ),
            (SessionPhase::BindingGlobals, SessionEvent::GlobalMissing(c)) => (
                self.in_phase(SessionPhase::Destroyed),
                SessionAction::Finish(Err(RevereError::WaylandGlobalError(c))),
            ),
            (SessionPhase::CreatingSurface, SessionEvent::SurfaceCreated) => self.continue_after(0),
            (SessionPhase::Pumping, SessionEvent::Configure(serial)) => (
                self,
                SessionAction::AckConfigure(serial),
            ),
            (SessionPhase::Pumping, SessionEvent::Pumped) =>
                (self.in_phase(SessionPhase::Painting), SessionAction::Paint(self.layout)),
            (SessionPhase::Painting, SessionEvent::Painted { attached, elapsed_ms }) => DisplaySession {
                buffer_attached: self.buffer_attached || attached,
                ..self
            }.continue_after(elapsed_ms),
            (SessionPhase::DestroyingSurface, SessionEvent::Done) => (
                self.in_phase(SessionPhase::DestroyingLayerSurface),
                SessionAction::DestroyLayerSurface,
            ),
            (SessionPhase::DestroyingLayerSurface, SessionEvent::Done) => if self.buffer_attached {
                (self.in_phase(SessionPhase::DestroyingBuffer), SessionAction::DestroyBuffer)
            } else {
                (self.in_phase(SessionPhase::Flushing), SessionAction::Flush)
            },
            (SessionPhase::DestroyingBuffer, SessionEvent::Done) =>
                (self.in_phase(SessionPhase::Flushing), SessionAction::Flush),
            (SessionPhase::Flushing, SessionEvent::Flushed) =>
                (self.in_phase(SessionPhase::Destroyed), SessionAction::Finish(Ok(()))),
            (SessionPhase::Flushing, SessionEvent::FlushFailed) => (
                self.in_phase(SessionPhase::Destroyed),
                SessionAction::Finish(Err(RevereError::DisplayFlushError)),
            ),
            _ => (self, SessionAction::Wait),
        }
    }

    /// The session after the events `es`, and the actions it asked for.
    pub open spec fn run(self, es: Seq<SessionEvent>) -> (DisplaySession, Seq<SessionAction>)
        decreases es.len(),
    {
        if es.len() == 0 {
            (self, Seq::empty())
        } else {
            let (next, a) = self.step(es[0]);
            let (last, rest) = next.run(es.skip(1));
            (last, seq![a] + rest)
        }
    }

    /// A session that shows a window configured by `config`, with a thumbnail
    /// or not. Fails when a frame cannot be described to the display server.
    pub fn new(config: &WindowConfig, with_thumbnail: bool) -> (r: Result<DisplaySession, RevereError>)
        ensures
            r is Ok <==> frame_fits(config.size),
            r is Ok ==> r->Ok_0 == DisplaySession::initial(*config, with_thumbnail),
            r is Err ==> r->Err_0 == RevereError::BufferTooLarge,
    {
        let layout = match FrameLayout::for_config(config, with_thumbnail) {
            Ok(layout) => layout,
            Err(e) => return Err(e),
        };
        Ok(DisplaySession {
            phase: SessionPhase::Disconnected,
            duration_ms: config.duration as u64 * 1000,
            request: SurfaceRequest {
                size: config.size,
                anchor_mask: config.placement.anchor_mask(),
                margin: config.margin,
            },
            layout,
            buffer_attached: false,
        })
    }

    /// Moves to phase `p` and asks for `a`.
    fn enter(&mut self, p: SessionPhase, a: SessionAction) -> (r: SessionAction)
        ensures
            *final(self) == old(self).in_phase(p),
            r == a,
    {
        self.phase = p;
        a
    }

    /// After `elapsed_ms` of display time: another round while time is left,
    /// else the teardown.
    fn continue_or_teardown(&mut self, elapsed_ms: u64) -> (r: SessionAction)
        ensures
            (*final(self), r) == old(self).continue_after(elapsed_ms),
    {
        if elapsed_ms < self.duration_ms {
            self.enter(SessionPhase::Pumping, SessionAction::PumpEvents)
        } else {
            self.enter(SessionPhase::DestroyingSurface, SessionAction::DestroySurface)
        }
    }

    /// Takes the event that came of the last action and says what to do next.
    pub fn next(&mut self, e: SessionEvent) -> (r: SessionAction)
        ensures
            (*final(self), r) == old(self).step(e),
    {
        match (self.phase, e) {
            (SessionPhase::Disconnected, SessionEvent::Start) =>
                self.enter(SessionPhase::Connecting, SessionAction::Connect),
            (SessionPhase::Connecting, SessionEvent::Connected) =>
                self.enter(SessionPhase::BindingGlobals, SessionAction::BindGlobals),
            (SessionPhase::Connecting, SessionEvent::ConnectFailed) => self.enter(
                SessionPhase::Destroyed,
                SessionAction::Finish(Err(RevereError::WaylandCnxError)),
            ),
            (SessionPhase::BindingGlobals, SessionEvent::GlobalsBound) => {
                let request = self.request;
                self.enter(SessionPhase::CreatingSurface, SessionAction::CreateSurface(request))
            },
            (SessionPhase::BindingGlobals, SessionEvent::GlobalMissing(c)) => self.enter(
                SessionPhase::Destroyed,
                SessionAction::Finish(Err(RevereError::WaylandGlobalError(c))),
            ),
            (SessionPhase::CreatingSurface, SessionEvent::SurfaceCreated) => self.continue_or_teardown(0),
            (SessionPhase::Pumping, SessionEvent::Configure(serial)) => SessionAction::AckConfigure(serial),
            (SessionPhase::Pumping, SessionEvent::Pumped) => {
                let layout = self.layout;
                self.enter(SessionPhase::Painting, SessionAction::Paint(layout))
            },
            (SessionPhase::Painting, SessionEvent::Painted { attached, elapsed_ms }) => {
                self.buffer_attached = self.buffer_attached || attached;
                self.continue_or_teardown(elapsed_ms)
            },
            (SessionPhase::DestroyingSurface, SessionEvent::Done) =>
                self.enter(SessionPhase::DestroyingLayerSurface, SessionAction::DestroyLayerSurface),
            (SessionPhase::DestroyingLayerSurface, SessionEvent::Done) => if self.buffer_attached {
                self.enter(SessionPhase::DestroyingBuffer, SessionAction::DestroyBuffer)
            } else {
                self.enter(SessionPhase::Flushing, SessionAction::Flush)
            },
            (SessionPhase::DestroyingBuffer, SessionEvent::Done) =>
                self.enter(SessionPhase::Flushing, SessionAction::Flush),
            (SessionPhase::Flushing, SessionEvent::Flushed) =>
                self.enter(SessionPhase::Destroyed, SessionAction::Finish(Ok(()))),
            (SessionPhase::Flushing, SessionEvent::FlushFailed) => self.enter(
                SessionPhase::Destroyed,
                SessionAction::Finish(Err(RevereError::DisplayFlushError)),
            ),
            _ => SessionAction::Wait,
        }
    }
}

/// Unfolds `run` over a script whose first event is `e`.
proof fn lemma_run_first(s: DisplaySession, e: SessionEvent, rest: Seq<SessionEvent>)
    ensures
        s.run(seq![e] + rest) == ({
            let (next, a) = s.step(e);
            let (last, more) = next.run(rest);
            (last, seq![a] + more)
        }),
{
    let es = seq![e] + rest;
    assert(es.skip(1) =~= rest);
    assert(es[0] == e);
}

/// The empty script changes nothing.
proof fn lemma_run_empty(s: DisplaySession)
    ensures
        s.run(Seq::empty()) == (s, Seq::<SessionAction>::empty()),
{
}

/// Teardown goes surface, overlay, buffer, flush, in that order: the surface
/// is destroyed only when the display loop ends, the overlay only once the
/// surface's destruction is done, the buffer only once the overlay's is
/// done, and the flush only once every object is destroyed (the buffer only
/// when one was attached).
pub proof fn lemma_teardown_order(s: DisplaySession, e: SessionEvent)
    ensures
        s.step(e).1 == SessionAction::DestroySurface ==> (s.phase == SessionPhase::CreatingSurface
            || s.phase == SessionPhase::Painting),
        s.step(e).1 == SessionAction::DestroyLayerSurface ==> s.phase
            == SessionPhase::DestroyingSurface && e == SessionEvent::Done,
        s.step(e).1 == SessionAction::DestroyBuffer ==> s.phase
            == SessionPhase::DestroyingLayerSurface && e == SessionEvent::Done && s.buffer_attached,
        s.step(e).1 == SessionAction::Flush ==> e == SessionEvent::Done && (s.phase
            == SessionPhase::DestroyingBuffer || (s.phase == SessionPhase::DestroyingLayerSurface
            && !s.buffer_attached)),
{
}

/// Once the display time is up after a frame that attached a buffer, and
/// each destroy is done and the flush succeeds, the session asks to destroy
/// the surface, the overlay and the buffer, in that order, then flushes and
/// finishes with success.
pub proof fn lemma_teardown_script(s: DisplaySession, elapsed_ms: u64)
    requires
        s.phase == SessionPhase::Painting,
        elapsed_ms >= s.duration_ms,
    ensures
        s.run(
            seq![
                SessionEvent::Painted { attached: true, elapsed_ms },
                SessionEvent::Done,
                SessionEvent::Done,
                SessionEvent::Done,
                SessionEvent::Flushed,
            ],
        ).1 == seq![
            SessionAction::DestroySurface,
            SessionAction::DestroyLayerSurface,
            SessionAction::DestroyBuffer,
            SessionAction::Flush,
            SessionAction::Finish(Ok(())),
        ],
{
    let e0 = SessionEvent::Painted { attached: true, elapsed_ms };
    let d = SessionEvent::Done;
    let f = SessionEvent::Flushed;
    let s1 = s.step(e0).0;
    let s2 = s1.step(d).0;
    let s3 = s2.step(d).0;
    let s4 = s3.step(d).0;
    let s5 = s4.step(f).0;
    lemma_run_empty(s5);
    lemma_run_first(s4, f, Seq::empty());
    assert(seq![f] + Seq::empty() =~= seq![f]);
    lemma_run_first(s3, d, seq![f]);
    assert(seq![d] + seq![f] =~= seq![d, f]);
    lemma_run_first(s2, d, seq![d, f]);
    assert(seq![d] + seq![d, f] =~= seq![d, d, f]);
    lemma_run_first(s1, d, seq![d, d, f]);
    assert(seq![d] + seq![d, d, f] =~= seq![d, d, d, f]);
    lemma_run_first(s, e0, seq![d, d, d, f]);
    assert(seq![e0] + seq![d, d, d, f] =~= seq![e0, d, d, d, f]);
    assert(s.run(seq![e0, d, d, d, f]).1 =~= seq![
        SessionAction::DestroySurface,
        SessionAction::DestroyLayerSurface,
        SessionAction::DestroyBuffer,
        SessionAction::Flush,
        SessionAction::Finish(Ok(())),
    ]);
}

/// With no display time, a session whose connection, globals, surface,
/// destroys and flush all succeed never dispatches events nor paints: it
/// creates the surface, destroys the surface and the overlay, flushes and
/// finishes with success.
pub proof fn lemma_zero_duration_show(config: WindowConfig, with_thumbnail: bool)
    requires
        config.duration == 0,
    ensures
        ({
            let s = DisplaySession::initial(config, with_thumbnail);
            let (last, actions) = s.run(
                seq![
                    SessionEvent::Start,
                    SessionEvent::Connected,
                    SessionEvent::GlobalsBound,
                    SessionEvent::SurfaceCreated,
                    SessionEvent::Done,
                    SessionEvent::Done,
                    SessionEvent::Flushed,
                ],
            );
            &&& last.phase == SessionPhase::Destroyed
            &&& actions == seq![
                SessionAction::Connect,
                SessionAction::BindGlobals,
                SessionAction::CreateSurface(s.request),
                SessionAction::DestroySurface,
                SessionAction::DestroyLayerSurface,
                SessionAction::Flush,
                SessionAction::Finish(Ok(())),
            ]
        }),
{
    let s0 = DisplaySession::initial(config, with_thumbnail);
    let (e0, e1, e2, e3) = (
        SessionEvent::Start,
        SessionEvent::Connected,
        SessionEvent::GlobalsBound,
        SessionEvent::SurfaceCreated,
    );
    let (d, f) = (SessionEvent::Done, SessionEvent::Flushed);
    let s1 = s0.step(e0).0;
    let s2 = s1.step(e1).0;
    let s3 = s2.step(e2).0;
    let s4 = s3.step(e3).0;
    let s5 = s4.step(d).0;
    let s6 = s5.step(d).0;
    let s7 = s6.step(f).0;
    lemma_run_empty(s7);
    lemma_run_first(s6, f, Seq::empty());
    assert(seq![f] + Seq::empty() =~= seq![f]);
    lemma_run_first(s5, d, seq![f]);
    assert(seq![d] + seq![f] =~= seq![d, f]);
    lemma_run_first(s4, d, seq![d, f]);
    assert(seq![d] + seq![d, f] =~= seq![d, d, f]);
    lemma_run_first(s3, e3, seq![d, d, f]);
    assert(seq![e3] + seq![d, d, f] =~= seq![e3, d, d, f]);
    lemma_run_first(s2, e2, seq![e3, d, d, f]);
    assert(seq![e2] + seq![e3, d, d, f] =~= seq![e2, e3, d, d, f]);
    lemma_run_first(s1, e1, seq![e2, e3, d, d, f]);
    assert(seq![e1] + seq![e2, e3, d, d, f] =~= seq![e1, e2, e3, d, d, f]);
    lemma_run_first(s0, e0, seq![e1, e2, e3, d, d, f]);
    assert(seq![e0] + seq![e1, e2, e3, d, d, f] =~= seq![e0, e1, e2, e3, d, d, f]);
    assert(s0.run(seq![e0, e1, e2, e3, d, d, f]).1 =~= seq![
        SessionAction::Connect,
        SessionAction::BindGlobals,
        SessionAction::CreateSurface(s0.request),
        SessionAction::DestroySurface,
        SessionAction::DestroyLayerSurface,
        SessionAction::Flush,
        SessionAction::Finish(Ok(())),
    ]);
}

} // verus!
