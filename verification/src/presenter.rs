//! The per-frame presentation protocol as a state machine.
//!
//! The presenter never touches the GPU. It is told what happened (an
//! [`Event`]) and answers with what to do next (an [`Action`]); the caller
//! performs the action and reports its outcome as the next event. One
//! iteration of the protocol runs from a redraw tick to the action that
//! settles the in-flight token:
//!
//! 1. reclaim what the GPU has finished,
//! 2. rebuild the surface if it is stale, or skip the iteration while the
//!    window has no area,
//! 3. acquire a target image,
//! 4. write the uniforms into a free slot and record the draw,
//! 5. submit and present.

use crate::ring::{lemma_retire_only_frees, pool_size, RingState, UniformRing};
use vstd::prelude::*;

verus! {

/// Why the presenter gave up. Only failures to build or reach the surface
/// end here; nothing that goes wrong with a single frame does.
#[derive(Clone, Copy, Debug, PartialEq, Eq, Structural)]
pub enum FatalError {
    /// The surface could not be rebuilt for a reason other than its size.
    SurfaceRebuildFailed,
    /// Acquiring an image failed for a reason other than staleness.
    AcquireFailed,
    /// The surface handed out an image that it does not have.
    ImageOutOfRange,
}

/// Where in the protocol the presenter stands.
#[derive(Clone, Copy, Debug, PartialEq, Eq, Structural)]
pub enum Phase {
    /// Between iterations.
    Idle,
    /// Waiting for finished work to be reclaimed.
    Reclaiming,
    /// Waiting for the surface to be rebuilt.
    Rebuilding,
    /// Waiting for a target image.
    Acquiring,
    /// Waiting for the draw into `image`, with uniforms in `slot`, to be
    /// recorded.
    Recording { image: u32, slot: u32 },
    /// Waiting for the submission that targets `image` to be accepted.
    Submitted { image: u32 },
    /// The window was closed.
    Closed,
    /// A fatal error was met.
    Failed { error: FatalError },
}

/// What the presenter is told.
#[derive(Clone, Copy, Debug, PartialEq, Eq, Structural)]
pub enum Event {
    /// The window asked to be closed.
    CloseRequested,
    /// The window changed size.
    Resized,
    /// A frame is due; the window's inner size is `width` by `height`.
    RedrawTick { width: u32, height: u32 },
    /// Reclaiming found that `retired` more frames have finished.
    Reclaimed { retired: u32 },
    /// The surface was rebuilt and now has `image_count` images.
    SurfaceRebuilt { image_count: u32 },
    /// The surface cannot be built at the window's size.
    SurfaceUnsupported,
    /// The surface could not be rebuilt for another reason.
    SurfaceRebuildFailed,
    /// The surface handed out image `index`; `suboptimal` says that it no
    /// longer matches the window exactly.
    ImageAcquired { index: u32, suboptimal: bool },
    /// The surface is out of date and handed out nothing.
    AcquireStale,
    /// Acquiring failed for another reason.
    AcquireFailed,
    /// The draw was recorded.
    Recorded,
    /// The submission was accepted and presentation was requested.
    FrameSubmitted,
    /// The submission found the surface out of date.
    SubmitStale,
    /// The submission failed for another reason.
    SubmitFailed,
}

/// What the presenter asks for.
#[derive(Clone, Copy, Debug, PartialEq, Eq, Structural)]
pub enum Action {
    /// Nothing; wait for the next event.
    Nothing,
    /// Leave the event loop.
    Exit,
    /// Stop with a diagnostic.
    Abort { error: FatalError },
    /// Release the tracking state of finished frames, without blocking, and
    /// report how many frames finished.
    Reclaim,
    /// Wait for the frames in flight, then rebuild the surface and all that
    /// depends on its size for a window of `width` by `height`.
    RebuildSurface { width: u32, height: u32 },
    /// Ask the surface for its next image and block until it answers.
    AcquireImage,
    /// Write this frame's uniforms into `slot`, then record one render pass
    /// into the framebuffer of `image` with one indexed draw of
    /// `index_count` indices.
    RecordFrame { image: u32, slot: u32, index_count: u32 },
    /// Submit the recorded commands after the acquisition has signalled, and
    /// request presentation of `image` after the submission.
    SubmitAndPresent { image: u32 },
    /// Keep the completion signal of this submission as the in-flight token.
    RetainToken,
    /// Replace the in-flight token by one that is already complete; `report`
    /// asks for the failure to be logged.
    DiscardToken { report: bool },
}

/// What a presenter is, as plain values.
pub struct PresenterState {
    /// Where in the protocol the presenter stands.
    pub phase: Phase,
    /// The surface must be rebuilt before the next image is acquired.
    pub stale: bool,
    /// The window asked to be closed while an iteration was under way.
    pub closing: bool,
    /// Number of images of the surface.
    pub images: u32,
    /// Width of the window at the last redraw tick.
    pub width: u32,
    /// Height of the window at the last redraw tick.
    pub height: u32,
    /// The uniform slots and which of them frames in flight hold.
    pub ring: RingState,
    /// Number of indices that one draw covers.
    pub index_count: u32,
}

/// A window of this size has no area to present to.
pub open spec fn zero_area(width: u32, height: u32) -> bool {
    width == 0 || height == 0
}

impl PresenterState {
    /// The pool matches the surface, an image being drawn belongs to the
    /// surface and its slot is held, and a close request is pending only
    /// while an iteration is under way.
    pub open spec fn wf(self) -> bool {
        &&& self.ring.wf()
        &&& self.ring.slots == pool_size(self.images)
        &&& match self.phase {
            Phase::Recording { image, slot } => image < self.images && self.ring.in_use(
                slot as int,
            ),
            Phase::Submitted { image } => image < self.images,
            Phase::Idle => !self.closing,
            _ => true,
        }
    }

    /// Number of frames that hold a uniform slot.
    pub open spec fn frames_in_flight(self) -> int {
        self.ring.busy as int
    }

    /// Whether the presenter has stopped for good.
    pub open spec fn halted(self) -> bool {
        self.phase is Closed || self.phase is Failed
    }

    /// The state a presenter starts in.
    pub open spec fn initial(images: u32, index_count: u32) -> PresenterState {
        PresenterState {
            phase: Phase::Idle,
            stale: false,
            closing: false,
            images,
            width: 0,
            height: 0,
            ring: RingState::fresh(images),
            index_count,
        }
    }

    /// The state once the current iteration is over.
    pub open spec fn finish(self) -> PresenterState {
        PresenterState {
            phase: if self.closing {
                Phase::Closed
            } else {
                Phase::Idle
            },
            closing: false,
            ..self
        }
    }

    /// The state after a fatal error.
    pub open spec fn fail(self, error: FatalError) -> (PresenterState, Action) {
        (PresenterState { phase: Phase::Failed { error }, ..self }, Action::Abort { error })
    }

    /// An event that the current phase does not wait for changes nothing.
    pub open spec fn ignore(self) -> (PresenterState, Action) {
        (self, Action::Nothing)
    }

    /// A close request ends an idle presenter at once and is remembered
    /// until the end of an iteration that is under way.
    pub open spec fn on_close(self) -> (PresenterState, Action) {
        if self.phase is Idle {
            (PresenterState { phase: Phase::Closed, closing: false, ..self }, Action::Exit)
        } else {
            (PresenterState { closing: true, ..self }, Action::Nothing)
        }
    }

    /// A redraw tick starts an iteration when none is under way.
    pub open spec fn on_tick(self, width: u32, height: u32) -> (PresenterState, Action) {
        if self.phase is Idle {
            (PresenterState { phase: Phase::Reclaiming, width, height, ..self }, Action::Reclaim)
        } else {
            self.ignore()
        }
    }

    /// After reclaiming, a stale surface is rebuilt, unless the window has
    /// no area, in which case the iteration is skipped; a valid surface goes
    /// on to acquire an image.
    pub open spec fn on_reclaimed(self, retired: u32) -> (PresenterState, Action) {
        if self.phase is Reclaiming {
            let s = PresenterState { ring: self.ring.retire(retired), ..self };
            if !s.stale {
                (PresenterState { phase: Phase::Acquiring, ..s }, Action::AcquireImage)
            } else if zero_area(s.width, s.height) {
                (s.finish(), Action::Nothing)
            } else {
                (
                    PresenterState { phase: Phase::Rebuilding, ..s },
                    Action::RebuildSurface { width: s.width, height: s.height },
                )
            }
        } else {
            self.ignore()
        }
    }

    /// A rebuilt surface is valid again; its frames have all finished, so
    /// the pool starts empty at the size of the new surface.
    pub open spec fn on_rebuilt(self, image_count: u32) -> (PresenterState, Action) {
        if self.phase is Rebuilding {
            (
                PresenterState {
                    phase: Phase::Acquiring,
                    stale: false,
                    images: image_count,
                    ring: RingState::fresh(image_count),
                    ..self
                },
                Action::AcquireImage,
            )
        } else {
            self.ignore()
        }
    }

    /// A surface that cannot be built at this size leaves the iteration
    /// skipped and the surface stale.
    pub open spec fn on_unsupported(self) -> (PresenterState, Action) {
        if self.phase is Rebuilding {
            (self.finish(), Action::Nothing)
        } else {
            self.ignore()
        }
    }

    /// Any other failure to rebuild is fatal.
    pub open spec fn on_rebuild_failed(self) -> (PresenterState, Action) {
        if self.phase is Rebuilding {
            self.fail(FatalError::SurfaceRebuildFailed)
        } else {
            self.ignore()
        }
    }

    /// The pool at the moment an image has been acquired. Acquisition
    /// blocks while every image is tied up, so an image handed out to a full
    /// pool shows that the oldest frame in flight has finished.
    pub open spec fn ring_at_acquisition(self) -> RingState {
        if self.ring.is_full() {
            self.ring.retire(1)
        } else {
            self.ring
        }
    }

    /// An acquired image gets a free uniform slot and is recorded into; a
    /// suboptimal surface is rebuilt at the next iteration.
    pub open spec fn on_acquired(self, index: u32, suboptimal: bool) -> (PresenterState, Action) {
        if self.phase is Acquiring {
            if index >= self.images {
                self.fail(FatalError::ImageOutOfRange)
            } else {
                let ring = self.ring_at_acquisition();
                (
                    PresenterState {
                        phase: Phase::Recording { image: index, slot: ring.next },
                        stale: self.stale || suboptimal,
                        ring: ring.claim(),
                        ..self
                    },
                    Action::RecordFrame {
                        image: index,
                        slot: ring.next,
                        index_count: self.index_count,
                    },
                )
            }
        } else {
            self.ignore()
        }
    }

    /// A stale surface hands out nothing: the iteration ends without a
    /// submission and the surface is rebuilt at the next one.
    pub open spec fn on_acquire_stale(self) -> (PresenterState, Action) {
        if self.phase is Acquiring {
            (PresenterState { stale: true, ..self }.finish(), Action::Nothing)
        } else {
            self.ignore()
        }
    }

    /// Any other failure to acquire is fatal.
    pub open spec fn on_acquire_failed(self) -> (PresenterState, Action) {
        if self.phase is Acquiring {
            self.fail(FatalError::AcquireFailed)
        } else {
            self.ignore()
        }
    }

    /// A recorded draw is submitted and its image presented.
    pub open spec fn on_recorded(self) -> (PresenterState, Action) {
        match self.phase {
            Phase::Recording { image, slot } => (
                PresenterState { phase: Phase::Submitted { image }, ..self },
                Action::SubmitAndPresent { image },
            ),
            _ => self.ignore(),
        }
    }

    /// An accepted submission becomes the frame in flight.
    pub open spec fn on_submitted(self) -> (PresenterState, Action) {
        if self.phase is Submitted {
            (self.finish(), Action::RetainToken)
        } else {
            self.ignore()
        }
    }

    /// A submission that fails leaves no frame in flight: the token is
    /// replaced by one that is already complete and every slot is free
    /// again. A stale surface is rebuilt at the next iteration; any other
    /// failure is reported. Neither ends the loop.
    pub open spec fn on_submit_error(self, stale: bool) -> (PresenterState, Action) {
        if self.phase is Submitted {
            (
                PresenterState {
                    stale: self.stale || stale,
                    ring: self.ring.reset(),
                    ..self
                }.finish(),
                Action::DiscardToken { report: !stale },
            )
        } else {
            self.ignore()
        }
    }
}

/// The presenter's transition function: the state and the action that
/// follow from a state and an event.
pub open spec fn step(s: PresenterState, e: Event) -> (PresenterState, Action) {
    match s.phase {
        Phase::Closed => (s, Action::Exit),
        Phase::Failed { error } => (s, Action::Abort { error }),
        _ => match e {
            Event::CloseRequested => s.on_close(),
            Event::Resized => (PresenterState { stale: true, ..s }, Action::Nothing),
            Event::RedrawTick { width, height } => s.on_tick(width, height),
            Event::Reclaimed { retired } => s.on_reclaimed(retired),
            Event::SurfaceRebuilt { image_count } => s.on_rebuilt(image_count),
            Event::SurfaceUnsupported => s.on_unsupported(),
            Event::SurfaceRebuildFailed => s.on_rebuild_failed(),
            Event::ImageAcquired { index, suboptimal } => s.on_acquired(index, suboptimal),
            Event::AcquireStale => s.on_acquire_stale(),
            Event::AcquireFailed => s.on_acquire_failed(),
            Event::Recorded => s.on_recorded(),
            Event::FrameSubmitted => s.on_submitted(),
            Event::SubmitStale => s.on_submit_error(true),
            Event::SubmitFailed => s.on_submit_error(false),
        },
    }
}

/// Every transition keeps the state well formed.
pub proof fn lemma_step_preserves_wf(s: PresenterState, e: Event)
    requires
        s.wf(),
    ensures
        step(s, e).0.wf(),
{
}

/// On a surface of at least two images, fewer frames hold a uniform slot
/// than the surface has images, in every state the presenter can reach.
pub proof fn lemma_frames_in_flight_bounded(s: PresenterState)
    requires
        s.wf(),
        s.images >= 2,
    ensures
        s.frames_in_flight() <= s.images - 1,
{
}

/// A frame is recorded only in answer to an acquired image, and submitted
/// only in answer to a recorded draw: with every slot held, nothing but the
/// surface handing out an image lets a further frame start.
pub proof fn lemma_frames_start_at_acquisition(s: PresenterState, e: Event)
    requires
        s.wf(),
    ensures
        step(s, e).1 is RecordFrame ==> s.phase is Acquiring && e is ImageAcquired,
        step(s, e).1 is SubmitAndPresent ==> s.phase is Recording && e is Recorded,
{
}

/// The slot that a frame is told to write is held by no frame in flight at
/// that moment, it is the only slot whose state the claim changes, and the
/// bound on the frames in flight still holds afterwards. When the pool was
/// full, exactly the oldest frame has made room.
pub proof fn lemma_recorded_slot_is_free(s: PresenterState, index: u32, suboptimal: bool)
    requires
        s.wf(),
        s.phase is Acquiring,
        index < s.images,
    ensures
        ({
            let (t, a) = step(s, Event::ImageAcquired { index, suboptimal });
            let ring = s.ring_at_acquisition();
            &&& a == Action::RecordFrame { image: index, slot: ring.next, index_count: s.index_count }
            &&& !ring.in_use(ring.next as int)
            &&& t.ring.in_use(ring.next as int)
            &&& forall|slot: int|
                slot != ring.next ==> #[trigger] t.ring.in_use(slot) == ring.in_use(slot)
            &&& forall|slot: int| #[trigger] ring.in_use(slot) ==> s.ring.in_use(slot)
            &&& ring.busy == if s.ring.is_full() {
                s.ring.busy - 1
            } else {
                s.ring.busy as int
            }
            &&& t.frames_in_flight() <= t.ring.limit()
        }),
{
}

/// The image that is submitted and presented is the image that was
/// acquired, and the draw recorded into it covers every index of the mesh.
pub proof fn lemma_presented_image_is_the_acquired_one(
    s: PresenterState,
    index: u32,
    suboptimal: bool,
)
    requires
        s.wf(),
        s.phase is Acquiring,
        index < s.images,
    ensures
        ({
            let (t, record) = step(s, Event::ImageAcquired { index, suboptimal });
            let (u, submit) = step(t, Event::Recorded);
            &&& record is RecordFrame
            &&& record->RecordFrame_image == index
            &&& record->index_count == s.index_count
            &&& submit == Action::SubmitAndPresent { image: index }
            &&& u.phase == Phase::Submitted { image: index }
            &&& u.stale == (s.stale || suboptimal)
        }),
{
}

/// A close request that arrives while an iteration is under way aborts
/// nothing and is not lost: the iteration goes on from where it stands, and
/// the presenter never comes to rest again before it has closed.
pub proof fn lemma_close_waits_for_the_iteration(s: PresenterState, e: Event)
    requires
        s.wf(),
        !s.halted(),
        !(s.phase is Idle),
    ensures
        step(s, Event::CloseRequested).1 == Action::Nothing,
        step(s, Event::CloseRequested).0.phase == s.phase,
        step(s, Event::CloseRequested).0.closing,
        s.closing ==> !(step(s, e).0.phase is Idle),
        s.closing ==> step(s, e).0.closing || step(s, e).0.halted(),
{
}

/// A window without area costs frames, never the presenter: while the
/// surface is stale and the window has no area, an iteration ends after
/// reclaiming, with nothing acquired, recorded or submitted, and leaves the
/// presenter idle and the surface stale. The first iteration that finds the
/// window with area again asks for the surface to be rebuilt at that size.
pub proof fn lemma_zero_area_only_skips(
    s: PresenterState,
    width: u32,
    height: u32,
    retired: u32,
    new_width: u32,
    new_height: u32,
    new_retired: u32,
)
    requires
        s.wf(),
        s.phase is Idle,
        zero_area(width, height),
        !zero_area(new_width, new_height),
    ensures
        ({
            let (a, resized) = step(s, Event::Resized);
            let (b, tick) = step(a, Event::RedrawTick { width, height });
            let (c, skipped) = step(b, Event::Reclaimed { retired });
            let (d, resized_again) = step(c, Event::Resized);
            let (e, new_tick) = step(d, Event::RedrawTick { width: new_width, height: new_height });
            let (f, rebuild) = step(e, Event::Reclaimed { retired: new_retired });
            &&& resized == Action::Nothing
            &&& tick == Action::Reclaim
            &&& skipped == Action::Nothing
            &&& c.phase is Idle
            &&& c.stale
            &&& c.wf()
            &&& resized_again == Action::Nothing
            &&& new_tick == Action::Reclaim
            &&& rebuild == Action::RebuildSurface { width: new_width, height: new_height }
            &&& f.phase is Rebuilding
            &&& f.wf()
        }),
{
}

/// A surface that the driver refuses to build at the window's size is
/// treated like a window without area: the iteration is skipped, the surface
/// stays stale, and the presenter goes on.
pub proof fn lemma_unsupported_surface_skips(s: PresenterState)
    requires
        s.wf(),
        s.phase is Rebuilding,
        s.stale,
        !s.closing,
    ensures
        step(s, Event::SurfaceUnsupported).1 == Action::Nothing,
        step(s, Event::SurfaceUnsupported).0.phase is Idle,
        step(s, Event::SurfaceUnsupported).0.stale,
        step(s, Event::SurfaceUnsupported).0.ring == s.ring,
{
}

/// The presenter stops only when the window is closed or when the surface
/// cannot be rebuilt or reached; no outcome of a single frame stops it.
pub proof fn lemma_only_close_and_setup_errors_halt(s: PresenterState, e: Event)
    requires
        s.wf(),
        !s.halted(),
        step(s, e).0.halted(),
    ensures
        step(s, e).0.phase is Closed ==> e is CloseRequested || s.closing,
        step(s, e).0.phase is Failed ==> e is SurfaceRebuildFailed || e is AcquireFailed || (e
            is ImageAcquired && e->index >= s.images),
{
}

/// Every outcome of a submission settles the in-flight token and ends the
/// iteration: an accepted submission becomes the token, a failed one is
/// replaced by a token that is already complete, with no slot held. Only a
/// stale surface is rebuilt; only another failure is reported.
pub proof fn lemma_submission_settles_token(s: PresenterState, e: Event)
    requires
        s.wf(),
        s.phase is Submitted,
        e is FrameSubmitted || e is SubmitStale || e is SubmitFailed,
    ensures
        ({
            let (t, a) = step(s, e);
            &&& t.phase is Idle || t.phase is Closed
            &&& e is FrameSubmitted ==> a == Action::RetainToken && t.ring == s.ring && t.stale
                == s.stale
            &&& e is SubmitStale ==> a == Action::DiscardToken { report: false } && t.stale
                && t.frames_in_flight() == 0
            &&& e is SubmitFailed ==> a == Action::DiscardToken { report: true } && t.stale
                == s.stale && t.frames_in_flight() == 0
        }),
{
}

/// A halted presenter stays as it is and repeats its last word.
pub proof fn lemma_halted_is_final(s: PresenterState, e: Event)
    requires
        s.halted(),
    ensures
        step(s, e).0 == s,
        step(s, e).1 == (match s.phase {
            Phase::Failed { error } => (Action::Abort { error }),
            _ => Action::Exit,
        }),
{
}

/// The state and the actions that follow from feeding `events`, in order,
/// to a presenter in state `s`.
pub open spec fn run(s: PresenterState, events: Seq<Event>) -> (PresenterState, Seq<Action>)
    decreases events.len(),
{
    if events.len() == 0 {
        (s, Seq::empty())
    } else {
        let (t, actions) = run(s, events.drop_last());
        let (u, action) = step(t, events.last());
        (u, actions.push(action))
    }
}

/// Whatever events arrive, in whatever order, the state stays well formed
/// and every event gets exactly one action.
pub proof fn lemma_run_preserves_wf(s: PresenterState, events: Seq<Event>)
    requires
        s.wf(),
    ensures
        run(s, events).0.wf(),
        run(s, events).1.len() == events.len(),
    decreases events.len(),
{
    if events.len() > 0 {
        lemma_run_preserves_wf(s, events.drop_last());
        lemma_step_preserves_wf(run(s, events.drop_last()).0, events.last());
    }
}

/// From its initial state the presenter never lets as many frames hold a
/// uniform slot as the surface has images, whatever events arrive, as long
/// as the surface it ends up with has at least two images.
pub proof fn lemma_reachable_frames_in_flight_bounded(
    images: u32,
    index_count: u32,
    events: Seq<Event>,
)
    ensures
        ({
            let s = run(PresenterState::initial(images, index_count), events).0;
            s.wf() && (s.images >= 2 ==> s.frames_in_flight() <= s.images - 1)
        }),
{
    lemma_run_preserves_wf(PresenterState::initial(images, index_count), events);
}

/// The presenter: what it knows of the surface, of the frames in flight and
/// of the iteration under way.
#[derive(Clone, Copy, Debug)]
pub struct Presenter {
    phase: Phase,
    stale: bool,
    closing: bool,
    images: u32,
    width: u32,
    height: u32,
    ring: UniformRing,
    index_count: u32,
}

impl View for Presenter {
    type V = PresenterState;

    closed spec fn view(&self) -> PresenterState {
        PresenterState {
            phase: self.phase,
            stale: self.stale,
            closing: self.closing,
            images: self.images,
            width: self.width,
            height: self.height,
            ring: self.ring@,
            index_count: self.index_count,
        }
    }
}

impl Presenter {
    #[verifier::type_invariant]
    spec fn inv(self) -> bool {
        self@.wf()
    }

    /// A presenter for a valid surface of `images` images that draws
    /// `index_count` indices per frame. No frame is in flight.
    pub fn new(images: u32, index_count: u32) -> (presenter: Presenter)
        ensures
            presenter@ == PresenterState::initial(images, index_count),
            presenter@.wf(),
    {
        Presenter {
            phase: Phase::Idle,
            stale: false,
            closing: false,
            images,
            width: 0,
            height: 0,
            ring: UniformRing::new(images),
            index_count,
        }
    }

    /// Where in the protocol the presenter stands.
    pub fn phase(&self) -> (phase: Phase)
        ensures
            phase == self@.phase,
    {
        self.phase
    }

    /// Whether the surface must be rebuilt before the next image is
    /// acquired.
    pub fn is_stale(&self) -> (stale: bool)
        ensures
            stale == self@.stale,
    {
        self.stale
    }

    /// Whether the presenter has stopped for good.
    pub fn is_halted(&self) -> (halted: bool)
        ensures
            halted == self@.halted(),
    {
        match self.phase {
            Phase::Closed => true,
            Phase::Failed { .. } => true,
            _ => false,
        }
    }

    /// Number of images of the surface.
    pub fn image_count(&self) -> (images: u32)
        ensures
            images == self@.images,
    {
        self.images
    }

    /// Number of indices that one draw covers.
    pub fn index_count(&self) -> (count: u32)
        ensures
            count == self@.index_count,
    {
        self.index_count
    }

    /// Number of frames that hold a uniform slot. On a surface of at least
    /// two images it is less than the number of images.
    pub fn frames_in_flight(&self) -> (frames: u32)
        ensures
            frames == self@.frames_in_flight(),
            self@.wf(),
            self@.images >= 2 ==> frames <= self@.images - 1,
    {
        proof {
            use_type_invariant(self);
        }
        self.ring.held()
    }

    /// Whether a frame in flight holds the uniform slot `slot`.
    pub fn slot_in_use(&self, slot: u32) -> (used: bool)
        ensures
            used == self@.ring.in_use(slot as int),
    {
        self.ring.holds(slot)
    }

    fn finish(self) -> (next: Presenter)
        ensures
            next@ == self@.finish(),
    {
        proof {
            use_type_invariant(&self);
        }
        Presenter {
            phase: if self.closing {
                Phase::Closed
            } else {
                Phase::Idle
            },
            closing: false,
            ..self
        }
    }

    fn fail(self, error: FatalError) -> (r: (Presenter, Action))
        ensures
            (r.0@, r.1) == self@.fail(error),
    {
        proof {
            use_type_invariant(&self);
        }
        (Presenter { phase: Phase::Failed { error }, ..self }, Action::Abort { error })
    }

    fn on_close(self) -> (r: (Presenter, Action))
        ensures
            (r.0@, r.1) == self@.on_close(),
    {
        proof {
            use_type_invariant(&self);
        }
        match self.phase {
            Phase::Idle => (Presenter { phase: Phase::Closed, closing: false, ..self }, Action::Exit),
            _ => (Presenter { closing: true, ..self }, Action::Nothing),
        }
    }

    fn on_resized(self) -> (r: (Presenter, Action))
        requires
            !self@.halted(),
        ensures
            (r.0@, r.1) == step(self@, Event::Resized),
    {
        proof {
            use_type_invariant(&self);
        }
        (Presenter { stale: true, ..self }, Action::Nothing)
    }

    fn on_tick(self, width: u32, height: u32) -> (r: (Presenter, Action))
        ensures
            (r.0@, r.1) == self@.on_tick(width, height),
    {
        proof {
            use_type_invariant(&self);
        }
        match self.phase {
            Phase::Idle => (
                Presenter { phase: Phase::Reclaiming, width, height, ..self },
                Action::Reclaim,
            ),
            _ => (self, Action::Nothing),
        }
    }

    fn on_reclaimed(self, retired: u32) -> (r: (Presenter, Action))
        ensures
            (r.0@, r.1) == self@.on_reclaimed(retired),
    {
        proof {
            use_type_invariant(&self);
        }
        match self.phase {
            Phase::Reclaiming => {
                let mut ring = self.ring;
                ring.retire(retired);
                let s = Presenter { ring, ..self };
                if !s.stale {
                    (Presenter { phase: Phase::Acquiring, ..s }, Action::AcquireImage)
                } else if s.width == 0 || s.height == 0 {
                    (s.finish(), Action::Nothing)
                } else {
                    (
                        Presenter { phase: Phase::Rebuilding, ..s },
                        Action::RebuildSurface { width: s.width, height: s.height },
                    )
                }
            },
            _ => (self, Action::Nothing),
        }
    }

    fn on_rebuilt(self, image_count: u32) -> (r: (Presenter, Action))
        ensures
            (r.0@, r.1) == self@.on_rebuilt(image_count),
    {
        proof {
            use_type_invariant(&self);
        }
        match self.phase {
            Phase::Rebuilding => (
                Presenter {
                    phase: Phase::Acquiring,
                    stale: false,
                    images: image_count,
                    ring: UniformRing::new(image_count),
                    ..self
                },
                Action::AcquireImage,
            ),
            _ => (self, Action::Nothing),
        }
    }

    fn on_unsupported(self) -> (r: (Presenter, Action))
        ensures
            (r.0@, r.1) == self@.on_unsupported(),
    {
        match self.phase {
            Phase::Rebuilding => (self.finish(), Action::Nothing),
            _ => (self, Action::Nothing),
        }
    }

    fn on_rebuild_failed(self) -> (r: (Presenter, Action))
        ensures
            (r.0@, r.1) == self@.on_rebuild_failed(),
    {
        match self.phase {
            Phase::Rebuilding => self.fail(FatalError::SurfaceRebuildFailed),
            _ => (self, Action::Nothing),
        }
    }

    fn on_acquired(self, index: u32, suboptimal: bool) -> (r: (Presenter, Action))
        ensures
            (r.0@, r.1) == self@.on_acquired(index, suboptimal),
    {
        proof {
            use_type_invariant(&self);
        }
        match self.phase {
            Phase::Acquiring => {
                if index >= self.images {
                    return self.fail(FatalError::ImageOutOfRange);
                }
                let mut ring = self.ring;
                if ring.full() {
                    ring.retire(1);
                }
                match ring.claim() {
                    Some(slot) => (
                        Presenter {
                            phase: Phase::Recording { image: index, slot },
                            stale: self.stale || suboptimal,
                            ring,
                            ..self
                        },
                        Action::RecordFrame { image: index, slot, index_count: self.index_count },
                    ),
                    // Not reached: a pool that was full has just given a slot back.
                    None => {
                        proof {
                            lemma_retire_only_frees(self.ring@, 1);
                        }
                        (self, Action::Nothing)
                    },
                }
            },
            _ => (self, Action::Nothing),
        }
    }

    fn on_acquire_stale(self) -> (r: (Presenter, Action))
        ensures
            (r.0@, r.1) == self@.on_acquire_stale(),
    {
        proof {
            use_type_invariant(&self);
        }
        match self.phase {
            Phase::Acquiring => (Presenter { stale: true, ..self }.finish(), Action::Nothing),
            _ => (self, Action::Nothing),
        }
    }

    fn on_acquire_failed(self) -> (r: (Presenter, Action))
        ensures
            (r.0@, r.1) == self@.on_acquire_failed(),
    {
        match self.phase {
            Phase::Acquiring => self.fail(FatalError::AcquireFailed),
            _ => (self, Action::Nothing),
        }
    }

    fn on_recorded(self) -> (r: (Presenter, Action))
        ensures
            (r.0@, r.1) == self@.on_recorded(),
    {
        proof {
            use_type_invariant(&self);
        }
        match self.phase {
            Phase::Recording { image, slot } => (
                Presenter { phase: Phase::Submitted { image }, ..self },
                Action::SubmitAndPresent { image },
            ),
            _ => (self, Action::Nothing),
        }
    }

    fn on_submitted(self) -> (r: (Presenter, Action))
        ensures
            (r.0@, r.1) == self@.on_submitted(),
    {
        match self.phase {
            Phase::Submitted { .. } => (self.finish(), Action::RetainToken),
            _ => (self, Action::Nothing),
        }
    }

    fn on_submit_error(self, stale: bool) -> (r: (Presenter, Action))
        ensures
            (r.0@, r.1) == self@.on_submit_error(stale),
    {
        proof {
            use_type_invariant(&self);
        }
        match self.phase {
            Phase::Submitted { .. } => {
                let mut ring = self.ring;
                ring.reset();
                (
                    Presenter { stale: self.stale || stale, ring, ..self }.finish(),
                    Action::DiscardToken { report: !stale },
                )
            },
            _ => (self, Action::Nothing),
        }
    }

    /// Takes one event and answers with the action to perform. The caller
    /// performs it and reports its outcome as the next event.
    pub fn handle(&mut self, event: Event) -> (action: Action)
        ensures
            (final(self)@, action) == step(old(self)@, event),
            final(self)@.wf(),
    {
        proof {
            use_type_invariant(&*self);
            lemma_step_preserves_wf(self@, event);
        }
        let current: Presenter = *self;
        match current.phase {
            Phase::Closed => {
                return Action::Exit;
            },
            Phase::Failed { error } => {
                return Action::Abort { error };
            },
            _ => {},
        }
        let (next, action) = match event {
            Event::CloseRequested => current.on_close(),
            Event::Resized => current.on_resized(),
            Event::RedrawTick { width, height } => current.on_tick(width, height),
            Event::Reclaimed { retired } => current.on_reclaimed(retired),
            Event::SurfaceRebuilt { image_count } => current.on_rebuilt(image_count),
            Event::SurfaceUnsupported => current.on_unsupported(),
            Event::SurfaceRebuildFailed => current.on_rebuild_failed(),
            Event::ImageAcquired { index, suboptimal } => current.on_acquired(index, suboptimal),
            Event::AcquireStale => current.on_acquire_stale(),
            Event::AcquireFailed => current.on_acquire_failed(),
            Event::Recorded => current.on_recorded(),
            Event::FrameSubmitted => current.on_submitted(),
            Event::SubmitStale => current.on_submit_error(true),
            Event::SubmitFailed => current.on_submit_error(false),
        };
        *self = next;
        action
    }

    /// Feeds `events` to the presenter in order and returns the action that
    /// answers each of them.
    pub fn replay(&mut self, events: &Vec<Event>) -> (actions: Vec<Action>)
        ensures
            (final(self)@, actions@) == run(old(self)@, events@),
            final(self)@.wf(),
    {
        proof {
            use_type_invariant(&*self);
        }
        let mut actions: Vec<Action> = Vec::new();
        let mut i: usize = 0;
        while i < events.len()
            invariant
                i <= events.len(),
                self@.wf(),
                (self@, actions@) == run(old(self)@, events@.take(i as int)),
            decreases events.len() - i,
        {
            proof {
                assert(events@.take(i + 1).drop_last() == events@.take(i as int));
            }
            let action = self.handle(events[i]);
            actions.push(action);
            i = i + 1;
        }
        proof {
            assert(events@.take(i as int) == events@);
        }
        actions
    }
}

} // verus!
