//! The per-frame protocol: when to sample, what to upload, how much to draw,
//! and how the engine moves between its states.
//!
//! The scheduler decides; its caller does the outside work. For each frame
//! the caller acquires the next image of the surface and reports how that
//! went ([`FrameScheduler::begin_frame`]); if the frame is to be rendered it
//! asks whether the frame samples ([`FrameScheduler::samples_on`]), steps the
//! motion integrator if so, and hands the tip in
//! ([`FrameScheduler::tick`]); it then carries out the commands it gets back.

use crate::encoding::is_image;
use crate::record::{Vertex, RECORD_SIZE};
use crate::storage::{blanks, flatten, DrawVec};
use crate::surface::{Recovery, SurfaceConfig, SurfaceError};
use crate::trail::{
    cursor_after, kept, lemma_fresh_trail_cursor, lemma_fresh_trail_holds, CapacityError,
    OverflowPolicy, TrailBuffer, TrailView, MAX_CAPACITY,
};
use crate::upload::CopyRegion;
use crate::window::{LoopControl, WindowNotice};
use vstd::arithmetic::div_mod::{lemma_fundamental_div_mod, lemma_fundamental_div_mod_converse};
use vstd::prelude::*;

verus! {

/// Number of slots of the trail unless another is asked for.
pub const DEFAULT_CAPACITY: usize = 10_000;

/// Number of frames from one sample to the next unless another is asked for.
pub const DEFAULT_INTERVAL: u64 = 8;

/// Where the engine stands.
#[derive(Clone, Copy, Debug, PartialEq, Eq, Structural)]
pub enum Lifecycle {
    /// The backend has not been acquired yet.
    Uninitialized,
    /// Between two frames.
    Ready,
    /// A frame has been acquired and is being rendered.
    Rendering,
    /// The window was closed. Terminal.
    ClosingDown,
    /// The backend could not be acquired, or ran out of memory. Terminal.
    Failed,
}

impl Lifecycle {
    /// No notification leads out of this state.
    pub open spec fn is_terminal(self) -> bool {
        self == Lifecycle::ClosingDown || self == Lifecycle::Failed
    }
}

/// Why a scheduler cannot be made.
#[derive(Clone, Copy, Debug, PartialEq, Eq, Structural)]
pub enum ConfigError {
    Capacity(CapacityError),
    ZeroInterval,
}

/// What the caller is to do with the frame it tried to acquire.
#[derive(Clone, Copy, Debug, PartialEq, Eq, Structural)]
pub enum FrameStart {
    /// Render the frame: call [`FrameScheduler::tick`].
    Render,
    /// Configure the surface again with this size, which has area; no frame
    /// is rendered.
    Reconfigure(SurfaceConfig),
    /// End the process with a failure.
    Abort,
    /// Report a timeout; no frame is rendered.
    Skip,
    /// Nothing to do: the engine is not between two frames, or the surface is
    /// to be configured again and its last size has no area.
    Idle,
}

/// A partial upload: the contents of a source buffer to make, and the region
/// to copy from it into the vertex buffer.
#[derive(Clone, Debug, PartialEq, Eq)]
pub struct Upload {
    pub source: Vec<u8>,
    pub region: CopyRegion,
}

/// What to record for one frame: an upload, if the frame took a sample, and
/// a draw of the first `vertex_count` vertices of the vertex buffer as one
/// connected line.
#[derive(Clone, Debug, PartialEq, Eq)]
pub struct FrameCommands {
    pub upload: Option<Upload>,
    pub vertex_count: u32,
}

/// The mathematical content of a scheduler.
pub struct SchedulerView {
    pub trail: TrailView,
    pub interval: nat,
    pub surface: SurfaceConfig,
    pub state: Lifecycle,
}

impl SchedulerView {
    /// The trail is well formed and the interval is not zero.
    pub open spec fn wf(self) -> bool {
        self.trail.wf() && 0 < self.interval <= u64::MAX
    }

    /// The scheduler as it is made: nothing acquired, nothing sampled.
    pub open spec fn initial(capacity: nat, interval: nat, policy: OverflowPolicy) -> SchedulerView {
        SchedulerView {
            trail: TrailView::fresh(capacity, policy),
            interval,
            surface: SurfaceConfig { width: 0, height: 0 },
            state: Lifecycle::Uninitialized,
        }
    }

    /// Whether frame `frame_index` is one on which a sample is taken.
    pub open spec fn samples_on(self, frame_index: nat) -> bool {
        frame_index % self.interval == 0
    }

    /// After the attempt to acquire the backend: ready with the surface's
    /// first size, or failed.
    pub open spec fn started(self, acquired: Option<SurfaceConfig>) -> SchedulerView {
        if self.state == Lifecycle::Uninitialized {
            match acquired {
                Some(surface) => SchedulerView { state: Lifecycle::Ready, surface, ..self },
                None => SchedulerView { state: Lifecycle::Failed, ..self },
            }
        } else {
            self
        }
    }

    /// What the caller is told when it reports the attempt to acquire a frame.
    pub open spec fn frame_start(self, acquired: Result<(), SurfaceError>) -> FrameStart {
        if self.state == Lifecycle::Ready {
            match acquired {
                Ok(_) => FrameStart::Render,
                Err(e) => match e.spec_recovery() {
                    Recovery::Reconfigure => if self.surface.spec_has_area() {
                        FrameStart::Reconfigure(self.surface)
                    } else {
                        FrameStart::Idle
                    },
                    Recovery::Abort => FrameStart::Abort,
                    Recovery::Skip => FrameStart::Skip,
                },
            }
        } else {
            FrameStart::Idle
        }
    }

    /// After the attempt to acquire a frame.
    pub open spec fn frame_begun(self, acquired: Result<(), SurfaceError>) -> SchedulerView {
        match self.frame_start(acquired) {
            FrameStart::Render => SchedulerView { state: Lifecycle::Rendering, ..self },
            FrameStart::Abort => SchedulerView { state: Lifecycle::Failed, ..self },
            _ => self,
        }
    }

    /// The point that frame `frame_index` adds to the trail when the tip
    /// handed in is `tip`, if it adds one.
    pub open spec fn sample(self, frame_index: nat, tip: Option<[u32; 2]>) -> Option<Vertex> {
        match tip {
            Some(t) if self.samples_on(frame_index) => Some(Vertex::spec_sample(t)),
            _ => None,
        }
    }

    /// After the frame `frame_index` was rendered.
    pub open spec fn ticked(self, frame_index: nat, tip: Option<[u32; 2]>) -> SchedulerView {
        if self.state == Lifecycle::Rendering {
            SchedulerView {
                state: Lifecycle::Ready,
                trail: match self.sample(frame_index, tip) {
                    Some(point) => self.trail.appended(point),
                    None => self.trail,
                },
                ..self
            }
        } else {
            self
        }
    }

    /// After a size-changed notification.
    pub open spec fn resized(self, width: u32, height: u32) -> SchedulerView {
        SchedulerView { surface: self.surface.resized(width, height), ..self }
    }

    /// After a close notification.
    pub open spec fn closed(self) -> SchedulerView {
        if self.state.is_terminal() {
            self
        } else {
            SchedulerView { state: Lifecycle::ClosingDown, ..self }
        }
    }

    /// After a notification from the window: a request to close closes, a
    /// new size is stored if it has area, and nothing else changes anything.
    pub open spec fn notified(self, notice: WindowNotice) -> SchedulerView {
        if notice.spec_asks_to_close() {
            self.closed()
        } else {
            match notice.spec_new_size() {
                Some(size) => self.resized(size.width, size.height),
                None => self,
            }
        }
    }

    /// What the event loop is told after a notification from the window.
    pub open spec fn control_after(self, notice: WindowNotice) -> LoopControl {
        if notice.spec_asks_to_close() {
            LoopControl::Exit
        } else {
            match notice.spec_new_size() {
                Some(size) if size.spec_has_area() => LoopControl::Reconfigure(size),
                _ => LoopControl::Continue,
            }
        }
    }

    /// The records of the source buffer for an upload of `point` into slot
    /// `index`: as many as the trail has slots, all blank but that one.
    pub open spec fn staged(self, index: nat, point: Vertex) -> Seq<Vertex> {
        blanks(self.trail.capacity()).update(index as int, point)
    }

    /// The upload that frame `frame_index` asks for, as the slot to write and
    /// the point to write there; `None` when the frame takes no sample, or the
    /// trail turns the sample away.
    pub open spec fn upload(self, frame_index: nat, tip: Option<[u32; 2]>) -> Option<(nat, Vertex)> {
        match (self.sample(frame_index, tip), self.trail.write_index()) {
            (Some(point), Some(index)) => Some((index, point)),
            _ => None,
        }
    }

    /// After `frames` frames, numbered from 0, were acquired and rendered one
    /// after another, with the tip `tips(f)` handed in on each frame `f`
    /// that samples.
    pub open spec fn after_frames(self, frames: nat, tips: spec_fn(nat) -> [u32; 2]) -> SchedulerView
        decreases frames,
    {
        if frames == 0 {
            self
        } else {
            let f = (frames - 1) as nat;
            let before = self.after_frames(f, tips);
            before.frame_begun(Ok(())).ticked(
                f,
                if before.samples_on(f) {
                    Some(tips(f))
                } else {
                    None
                },
            )
        }
    }
}

/// The points sampled on the frames `0..frames`, oldest first.
pub open spec fn sampled_points(frames: nat, interval: nat, tips: spec_fn(nat) -> [u32; 2]) -> Seq<
    Vertex,
>
    decreases frames,
{
    if frames == 0 {
        Seq::empty()
    } else {
        let f = (frames - 1) as nat;
        if f % interval == 0 {
            sampled_points(f, interval, tips).push(Vertex::spec_sample(tips(f)))
        } else {
            sampled_points(f, interval, tips)
        }
    }
}

/// Decides, frame by frame, what is sampled, uploaded and drawn.
pub struct FrameScheduler {
    trail: TrailBuffer,
    interval: u64,
    surface: SurfaceConfig,
    state: Lifecycle,
}

impl View for FrameScheduler {
    type V = SchedulerView;

    closed spec fn view(&self) -> SchedulerView {
        SchedulerView {
            trail: self.trail@,
            interval: self.interval as nat,
            surface: self.surface,
            state: self.state,
        }
    }
}

impl FrameScheduler {
    /// Holds of every scheduler: its trail is well formed and its interval is
    /// not zero.
    #[verifier::type_invariant]
    pub open spec fn inv(self) -> bool {
        self@.wf()
    }

    /// A scheduler that samples every `interval` frames into a trail of
    /// `capacity` slots.
    pub fn new(capacity: usize, interval: u64, policy: OverflowPolicy) -> (r: Result<
        FrameScheduler,
        ConfigError,
    >)
        ensures
            capacity == 0 ==> r == Err::<FrameScheduler, ConfigError>(
                ConfigError::Capacity(CapacityError::Zero),
            ),
            capacity > MAX_CAPACITY ==> r == Err::<FrameScheduler, ConfigError>(
                ConfigError::Capacity(CapacityError::TooLarge),
            ),
            0 < capacity <= MAX_CAPACITY && interval == 0 ==> r == Err::<
                FrameScheduler,
                ConfigError,
            >(ConfigError::ZeroInterval),
            0 < capacity <= MAX_CAPACITY && interval > 0 ==> r is Ok && r->Ok_0@
                == SchedulerView::initial(capacity as nat, interval as nat, policy),
    {
        if capacity == 0 {
            return Err(ConfigError::Capacity(CapacityError::Zero));
        }
        if capacity > MAX_CAPACITY {
            return Err(ConfigError::Capacity(CapacityError::TooLarge));
        }
        if interval == 0 {
            return Err(ConfigError::ZeroInterval);
        }
        match TrailBuffer::new(capacity, policy) {
            Ok(trail) => Ok(
                FrameScheduler {
                    trail,
                    interval,
                    surface: SurfaceConfig { width: 0, height: 0 },
                    state: Lifecycle::Uninitialized,
                },
            ),
            Err(e) => Err(ConfigError::Capacity(e)),
        }
    }

    /// The trail of sampled points.
    pub fn trail(&self) -> (t: &TrailBuffer)
        ensures
            t@ == self@.trail,
    {
        &self.trail
    }

    /// The number of frames from one sample to the next.
    pub fn interval(&self) -> (k: u64)
        ensures
            k == self@.interval,
            k > 0,
    {
        proof {
            use_type_invariant(self);
        }
        self.interval
    }

    /// The size that the surface was configured with last.
    pub fn surface(&self) -> (s: SurfaceConfig)
        ensures
            s == self@.surface,
    {
        self.surface
    }

    /// Where the engine stands.
    pub fn state(&self) -> (s: Lifecycle)
        ensures
            s == self@.state,
    {
        self.state
    }

    /// Whether frame `frame_index` is one on which a sample is taken.
    pub fn samples_on(&self, frame_index: u64) -> (b: bool)
        ensures
            b == self@.samples_on(frame_index as nat),
    {
        proof {
            use_type_invariant(self);
        }
        frame_index % self.interval == 0
    }

    /// Takes the outcome of acquiring the backend: `Some` with the surface's
    /// size on success, `None` on failure.
    pub fn start(&mut self, acquired: Option<SurfaceConfig>)
        ensures
            final(self)@ == old(self)@.started(acquired),
    {
        proof {
            use_type_invariant(&*self);
        }
        match self.state {
            Lifecycle::Uninitialized => {
                match acquired {
                    Some(surface) => {
                        self.surface = surface;
                        self.state = Lifecycle::Ready;
                    },
                    None => {
                        self.state = Lifecycle::Failed;
                    },
                }
            },
            _ => {},
        }
    }

    /// Takes the outcome of acquiring the next image of the surface, and says
    /// what to do with the frame.
    pub fn begin_frame(&mut self, acquired: Result<(), SurfaceError>) -> (start: FrameStart)
        ensures
            start == old(self)@.frame_start(acquired),
            final(self)@ == old(self)@.frame_begun(acquired),
    {
        proof {
            use_type_invariant(&*self);
        }
        match self.state {
            Lifecycle::Ready => {},
            _ => {
                return FrameStart::Idle;
            },
        }
        match acquired {
            Ok(_) => {
                self.state = Lifecycle::Rendering;
                FrameStart::Render
            },
            Err(e) => match e.recovery() {
                Recovery::Reconfigure => if self.surface.has_area() {
                    FrameStart::Reconfigure(self.surface)
                } else {
                    FrameStart::Idle
                },
                Recovery::Abort => {
                    self.state = Lifecycle::Failed;
                    FrameStart::Abort
                },
                Recovery::Skip => FrameStart::Skip,
            },
        }
    }

    /// Renders frame `frame_index`. `tip` is the tip of the chain, handed in
    /// on the frames that sample.
    ///
    /// On a frame that samples, the tip becomes a point of the trail, and the
    /// commands hold the upload of that one record, unless the trail turned
    /// the point away: the bytes of a source buffer, in the byte order of the
    /// machine, and the region to copy. On every frame the commands draw as
    /// many vertices as the cursor says. Outside a frame nothing changes and
    /// there are no commands.
    pub fn tick(&mut self, frame_index: u64, tip: Option<[u32; 2]>) -> (commands: Option<
        FrameCommands,
    >)
        ensures
            final(self)@ == old(self)@.ticked(frame_index as nat, tip),
            commands is Some <==> old(self)@.state == Lifecycle::Rendering,
            commands matches Some(c) ==> c.vertex_count == final(self)@.trail.cursor,
            commands matches Some(c) ==> (c.upload is Some <==> old(self)@.upload(
                frame_index as nat,
                tip,
            ) is Some),
            commands matches Some(c) ==> (c.upload matches Some(u) ==> ({
                let (index, point) = old(self)@.upload(frame_index as nat, tip)->0;
                &&& u.region == CopyRegion::of_record(index)
                &&& is_image(u.source@, flatten(old(self)@.staged(index, point)))
                &&& u.source@.len() == RECORD_SIZE * old(self)@.trail.capacity()
                &&& u.region.fits(u.source@.len(), u.source@.len())
            })),
    {
        proof {
            use_type_invariant(&*self);
        }
        match self.state {
            Lifecycle::Rendering => {},
            _ => {
                return None;
            },
        }
        let mut upload: Option<Upload> = None;
        if frame_index % self.interval == 0 {
            match tip {
                Some(t) => {
                    let point: Vertex = Vertex::sample(t);
                    match self.trail.append(point) {
                        Some(index) => {
                            let mut staged: DrawVec = DrawVec::filled(self.trail.capacity());
                            staged.set(index, point);
                            upload = Some(
                                Upload {
                                    source: staged.to_bytes(),
                                    region: CopyRegion::for_record(index as u32),
                                },
                            );
                        },
                        None => {},
                    }
                },
                None => {},
            }
        }
        self.state = Lifecycle::Ready;
        Some(FrameCommands { upload, vertex_count: self.trail.cursor() as u32 })
    }

    /// Takes a size-changed notification. Returns whether the surface is to
    /// be reconfigured: a notification without area is ignored.
    pub fn resize(&mut self, width: u32, height: u32) -> (reconfigure: bool)
        ensures
            final(self)@ == old(self)@.resized(width, height),
            reconfigure == (width > 0 && height > 0),
            reconfigure ==> final(self)@.surface == (SurfaceConfig { width, height }),
            !reconfigure ==> final(self)@.surface == old(self)@.surface,
    {
        proof {
            use_type_invariant(&*self);
        }
        self.surface.resize(width, height)
    }

    /// Takes a notification from the window, and says what the event loop is
    /// to do: leave on a request to close, configure the surface on a new size
    /// that has area, and go on otherwise.
    pub fn notify(&mut self, notice: WindowNotice) -> (control: LoopControl)
        ensures
            final(self)@ == old(self)@.notified(notice),
            control == old(self)@.control_after(notice),
    {
        if notice.asks_to_close() {
            self.close();
            return LoopControl::Exit;
        }
        match notice.new_size() {
            Some(size) => {
                if self.resize(size.width, size.height) {
                    LoopControl::Reconfigure(size)
                } else {
                    LoopControl::Continue
                }
            },
            None => LoopControl::Continue,
        }
    }

    /// Takes a close notification.
    pub fn close(&mut self)
        ensures
            final(self)@ == old(self)@.closed(),
    {
        proof {
            use_type_invariant(&*self);
        }
        match self.state {
            Lifecycle::ClosingDown => {},
            Lifecycle::Failed => {},
            _ => {
                self.state = Lifecycle::ClosingDown;
            },
        }
    }
}

/// The number of points sampled on the frames `0..frames`: one for frame 0
/// and one more for each full `interval` of frames after it.
pub proof fn lemma_sampled_count(frames: nat, interval: nat, tips: spec_fn(nat) -> [u32; 2])
    requires
        interval > 0,
    ensures
        sampled_points(frames, interval, tips).len() == (if frames == 0 {
            0
        } else {
            (frames - 1) / (interval as int) + 1
        }),
    decreases frames,
{
    if frames > 0 {
        let f = (frames - 1) as nat;
        let k = interval as int;
        lemma_sampled_count(f, interval, tips);
        lemma_fundamental_div_mod(f as int, k);
        if f == 0 {
            lemma_fundamental_div_mod_converse(0, k, 0, 0);
        } else if f % interval == 0 {
            assert((f / interval - 1) * k + (k - 1) == k * (f / interval) - 1) by (nonlinear_arith);
            lemma_fundamental_div_mod_converse(f - 1, k, f / interval - 1, k - 1);
        } else {
            lemma_fundamental_div_mod_converse(f - 1, k, (f / interval) as int, f % interval - 1);
        }
    }
}

/// A scheduler that stands between two frames and renders `frames` frames
/// has appended to its trail the points sampled on them, in order, and stands
/// between two frames again. Nothing else of it has changed.
pub proof fn lemma_frames_append_samples(
    scheduler: SchedulerView,
    frames: nat,
    tips: spec_fn(nat) -> [u32; 2],
)
    requires
        scheduler.state == Lifecycle::Ready,
    ensures
        scheduler.after_frames(frames, tips) == (SchedulerView {
            trail: scheduler.trail.appended_all(sampled_points(frames, scheduler.interval, tips)),
            ..scheduler
        }),
    decreases frames,
{
    if frames > 0 {
        let f = (frames - 1) as nat;
        lemma_frames_append_samples(scheduler, f, tips);
        let earlier = sampled_points(f, scheduler.interval, tips);
        if f % scheduler.interval == 0 {
            let point = Vertex::spec_sample(tips(f));
            assert(earlier.push(point).drop_last() =~= earlier);
        }
    }
}

/// A new scheduler that has acquired its backend and then rendered the
/// frames `0..=last_frame` holds as many points as it has sampled,
/// `last_frame / interval + 1`, or as many as it has slots, whichever is
/// less. They are the first of the sampled points if the trail freezes, and
/// the last of them if it is a ring. A trail that freezes has its cursor at
/// that number; the cursor of a ring goes round.
pub proof fn lemma_points_after_frames(
    capacity: nat,
    interval: nat,
    policy: OverflowPolicy,
    surface: SurfaceConfig,
    last_frame: nat,
    tips: spec_fn(nat) -> [u32; 2],
)
    requires
        0 < capacity <= MAX_CAPACITY,
        0 < interval,
    ensures
        ({
            let sampled = last_frame / interval + 1;
            let bound = if sampled <= capacity {
                sampled
            } else {
                capacity
            };
            let trail = SchedulerView::initial(capacity, interval, policy).started(
                Some(surface),
            ).after_frames(last_frame + 1, tips).trail;
            &&& sampled_points(last_frame + 1, interval, tips).len() == sampled
            &&& trail.held() == kept(
                sampled_points(last_frame + 1, interval, tips),
                capacity,
                policy,
            )
            &&& trail.held().len() == bound
            &&& trail.cursor == cursor_after(sampled as nat, capacity, policy)
            &&& trail.cursor <= capacity
            &&& policy == OverflowPolicy::Freeze ==> trail.cursor == bound
        }),
{
    let ready = SchedulerView::initial(capacity, interval, policy).started(Some(surface));
    let points = sampled_points(last_frame + 1, interval, tips);
    lemma_sampled_count(last_frame + 1, interval, tips);
    lemma_frames_append_samples(ready, last_frame + 1, tips);
    lemma_fresh_trail_holds(capacity, policy, points);
    lemma_fresh_trail_cursor(capacity, policy, points);
}

} // verus!
