//! The ring of frames in flight and the decisions of one render call.
//!
//! A render call goes through `begin_frame` (select the slot and say whether
//! its fence must be waited on), `on_acquire` (what the acquired image index
//! means), `on_submitted` and `on_present`. The embedding program performs
//! the driver work between these steps and reports the outcomes.

use vstd::prelude::*;
use crate::swapchain::Swapchain;
use vstd::arithmetic::div_mod::{lemma_add_mod_noop, lemma_small_mod};

verus! {

/// Where a slot's fence stands.
#[derive(Clone, Copy, Debug, PartialEq, Eq, Structural)]
pub enum FenceState {
    /// Signaled: no GPU work owns the slot.
    Signaled,
    /// A submitted frame will signal the fence when its GPU work completes.
    Pending,
    /// Reset by the CPU for the frame being prepared; no submission owns it.
    Claimed,
}

/// The step of the current render call.
#[derive(Clone, Copy, Debug, PartialEq, Eq, Structural)]
pub enum Phase {
    /// Between render calls.
    Idle,
    /// The current slot's fence is claimed; an image is to be acquired.
    Claimed,
    /// An image was acquired; commands are being recorded for it.
    Recording { image: u32 },
    /// The frame was submitted; the image is to be presented.
    Submitted { image: u32 },
    /// The ring was torn down.
    Destroyed,
}

/// What acquiring the next presentable image returned.
#[derive(Clone, Copy, Debug, PartialEq, Eq, Structural)]
pub enum AcquireOutcome {
    Acquired(u32),
    /// The surface no longer matches the swapchain.
    OutOfDate,
    /// Any other driver result code.
    Failed(i32),
}

/// What presenting the image returned.
#[derive(Clone, Copy, Debug, PartialEq, Eq, Structural)]
pub enum PresentOutcome {
    Presented,
    /// Presented, but the swapchain no longer matches the surface exactly.
    Suboptimal,
    /// The surface no longer matches the swapchain.
    OutOfDate,
    /// Any other driver result code.
    Failed(i32),
}

/// A render call that cannot go on.
#[derive(Clone, Copy, Debug, PartialEq, Eq, Structural)]
pub enum FrameError {
    /// The step does not follow the previous one, or the ring was destroyed.
    OutOfOrder,
    /// The driver handed out an image index the swapchain does not have.
    ImageIndexOutOfRange(u32),
    /// A driver error other than an out-of-date surface.
    Device(i32),
}

/// The start of a render call: the slot it uses, and whether the slot's
/// fence must be waited on and then reset before anything else.
#[derive(Clone, Copy, Debug, PartialEq, Eq, Structural)]
pub struct FrameStart {
    pub slot: usize,
    pub wait_fence: bool,
}

/// What to do once an image was asked for.
#[derive(Clone, Copy, Debug, PartialEq, Eq, Structural)]
pub enum AcquireStep {
    /// Record and submit the frame for this image.
    Record(u32),
    /// Stop here: nothing is submitted or presented, and the swapchain must
    /// be rebuilt before the next call.
    SwapchainDirty,
}

/// The abstract state of the ring.
pub struct RingView {
    pub frames_in_flight: nat,
    pub current: nat,
    pub fences: Seq<FenceState>,
    pub phase: Phase,
}

/// A valid ring: a cursor within `N` slots, and the current slot's fence
/// claimed while a frame is prepared and pending once it was submitted.
pub open spec fn ring_wf(v: RingView) -> bool {
    &&& 0 < v.frames_in_flight <= usize::MAX
    &&& v.current < v.frames_in_flight
    &&& v.fences.len() == v.frames_in_flight
    &&& (v.phase is Claimed || v.phase is Recording) ==> v.fences[v.current as int]
        == FenceState::Claimed
    &&& v.phase is Submitted ==> v.fences[v.current as int] == FenceState::Pending
}

/// A ring of `n` slots as created: cursor at zero, every fence signaled.
pub open spec fn fresh_ring(n: nat) -> RingView {
    RingView {
        frames_in_flight: n,
        current: 0,
        fences: Seq::new(n, |i: int| FenceState::Signaled),
        phase: Phase::Idle,
    }
}

/// Selecting the slot under the cursor and claiming its fence. The fence is
/// waited on unless it is already claimed (a call that stopped at acquire
/// left it so, and no submission will ever signal it).
pub open spec fn begin_spec(v: RingView) -> (RingView, Result<FrameStart, FrameError>) {
    if v.phase is Idle {
        (
            RingView {
                fences: v.fences.update(v.current as int, FenceState::Claimed),
                phase: Phase::Claimed,
                ..v
            },
            Ok(
                FrameStart {
                    slot: v.current as usize,
                    wait_fence: v.fences[v.current as int] != FenceState::Claimed,
                },
            ),
        )
    } else {
        (v, Err(FrameError::OutOfOrder))
    }
}

/// Reacting to the acquire outcome, for a swapchain of `image_count` images.
/// An out-of-date surface cuts the call short: nothing is submitted, the
/// cursor moves on as after any call, and the slot's fence stays claimed
/// (the next visit to the slot does not wait on it).
pub open spec fn acquire_spec(v: RingView, outcome: AcquireOutcome, image_count: nat) -> (
    RingView,
    Result<AcquireStep, FrameError>,
) {
    if !(v.phase is Claimed) {
        (v, Err(FrameError::OutOfOrder))
    } else {
        match outcome {
            AcquireOutcome::Acquired(i) => if i < image_count {
                (RingView { phase: Phase::Recording { image: i }, ..v }, Ok(AcquireStep::Record(i)))
            } else {
                (v, Err(FrameError::ImageIndexOutOfRange(i)))
            },
            AcquireOutcome::OutOfDate => (
                RingView {
                    current: (v.current + 1) % v.frames_in_flight,
                    phase: Phase::Idle,
                    ..v
                },
                Ok(AcquireStep::SwapchainDirty),
            ),
            AcquireOutcome::Failed(code) => (v, Err(FrameError::Device(code))),
        }
    }
}

/// Recording the submission: the slot's fence now belongs to it.
pub open spec fn submit_spec(v: RingView) -> (RingView, Result<u32, FrameError>) {
    match v.phase {
        Phase::Recording { image } => (
            RingView {
                fences: v.fences.update(v.current as int, FenceState::Pending),
                phase: Phase::Submitted { image },
                ..v
            },
            Ok(image),
        ),
        _ => (v, Err(FrameError::OutOfOrder)),
    }
}

/// Whether a present outcome asks for the swapchain to be rebuilt.
pub open spec fn present_dirty(outcome: PresentOutcome) -> bool {
    outcome is Suboptimal || outcome is OutOfDate
}

/// Reacting to the present outcome: the cursor advances, and the result says
/// whether the swapchain must be rebuilt.
pub open spec fn present_spec(v: RingView, outcome: PresentOutcome) -> (
    RingView,
    Result<bool, FrameError>,
) {
    if !(v.phase is Submitted) {
        (v, Err(FrameError::OutOfOrder))
    } else if let PresentOutcome::Failed(code) = outcome {
        (v, Err(FrameError::Device(code)))
    } else {
        (
            RingView {
                current: (v.current + 1) % v.frames_in_flight,
                phase: Phase::Idle,
                ..v
            },
            Ok(present_dirty(outcome)),
        )
    }
}

/// Tearing the ring down; `true` the first time only.
pub open spec fn destroy_spec(v: RingView) -> (RingView, bool) {
    (RingView { phase: Phase::Destroyed, ..v }, !(v.phase is Destroyed))
}

/// The per-frame state of a renderer: `N` slots used in turn, the fence state
/// of each, and the step of the render call in progress.
pub struct Renderer {
    frames_in_flight: usize,
    current_frame: usize,
    fences: Vec<FenceState>,
    phase: Phase,
}

impl View for Renderer {
    type V = RingView;

    closed spec fn view(&self) -> RingView {
        RingView {
            frames_in_flight: self.frames_in_flight as nat,
            current: self.current_frame as nat,
            fences: self.fences@,
            phase: self.phase,
        }
    }
}

impl Renderer {
    /// Valid state: see `ring_wf`.
    pub open spec fn wf(&self) -> bool {
        ring_wf(self@)
    }

    /// A ring of `frames_in_flight` slots whose fences start signaled, so
    /// that the first wait on each returns at once. `None` for zero slots.
    pub fn new(frames_in_flight: usize) -> (r: Option<Renderer>)
        ensures
            frames_in_flight == 0 ==> r is None,
            frames_in_flight > 0 ==> (r matches Some(s) && s.wf() && s@ == fresh_ring(
                frames_in_flight as nat,
            )),
    {
        if frames_in_flight == 0 {
            return None;
        }
        let mut fences: Vec<FenceState> = Vec::new();
        let mut i: usize = 0;
        while i < frames_in_flight
            invariant
                i <= frames_in_flight,
                fences@ =~= Seq::new(i as nat, |j: int| FenceState::Signaled),
            decreases frames_in_flight - i,
        {
            fences.push(FenceState::Signaled);
            i = i + 1;
        }
        let r = Renderer { frames_in_flight, current_frame: 0, fences, phase: Phase::Idle };
        assert(r@ == fresh_ring(frames_in_flight as nat));
        Some(r)
    }

    /// Starts a render call on the slot under the cursor.
    pub fn begin_frame(&mut self) -> (r: Result<FrameStart, FrameError>)
        requires
            old(self).wf(),
        ensures
            final(self).wf(),
            (final(self)@, r) == begin_spec(old(self)@),
    {
        if self.phase != Phase::Idle {
            return Err(FrameError::OutOfOrder);
        }
        let slot = self.current_frame;
        let wait_fence = self.fences[slot] != FenceState::Claimed;
        self.fences[slot] = FenceState::Claimed;
        self.phase = Phase::Claimed;
        Ok(FrameStart { slot, wait_fence })
    }

    /// Takes the outcome of acquiring an image of `swapchain`.
    pub fn on_acquire(&mut self, outcome: AcquireOutcome, swapchain: &Swapchain) -> (r: Result<
        AcquireStep,
        FrameError,
    >)
        requires
            old(self).wf(),
        ensures
            final(self).wf(),
            (final(self)@, r) == acquire_spec(
                old(self)@,
                outcome,
                swapchain@.images.len(),
            ),
            r matches Ok(AcquireStep::Record(i)) ==> i < swapchain@.images.len(),
    {
        if self.phase != Phase::Claimed {
            return Err(FrameError::OutOfOrder);
        }
        match outcome {
            AcquireOutcome::Acquired(i) => {
                if (i as usize) < swapchain.present_images().len() {
                    self.phase = Phase::Recording { image: i };
                    Ok(AcquireStep::Record(i))
                } else {
                    Err(FrameError::ImageIndexOutOfRange(i))
                }
            },
            AcquireOutcome::OutOfDate => {
                self.current_frame = (self.current_frame + 1) % self.frames_in_flight;
                self.phase = Phase::Idle;
                Ok(AcquireStep::SwapchainDirty)
            },
            AcquireOutcome::Failed(code) => Err(FrameError::Device(code)),
        }
    }

    /// Notes that the recorded frame was submitted with the slot's fence;
    /// returns the image index to present.
    pub fn on_submitted(&mut self) -> (r: Result<u32, FrameError>)
        requires
            old(self).wf(),
        ensures
            final(self).wf(),
            (final(self)@, r) == submit_spec(old(self)@),
    {
        match self.phase {
            Phase::Recording { image } => {
                let slot = self.current_frame;
                self.fences[slot] = FenceState::Pending;
                self.phase = Phase::Submitted { image };
                Ok(image)
            },
            _ => Err(FrameError::OutOfOrder),
        }
    }

    /// Takes the outcome of presenting; ends the render call and advances
    /// the cursor. `Ok(true)` means the swapchain must be rebuilt.
    pub fn on_present(&mut self, outcome: PresentOutcome) -> (r: Result<bool, FrameError>)
        requires
            old(self).wf(),
        ensures
            final(self).wf(),
            (final(self)@, r) == present_spec(old(self)@, outcome),
    {
        match self.phase {
            Phase::Submitted { .. } => {},
            _ => {
                return Err(FrameError::OutOfOrder);
            },
        }
        let dirty = match outcome {
            PresentOutcome::Presented => false,
            PresentOutcome::Suboptimal => true,
            PresentOutcome::OutOfDate => true,
            PresentOutcome::Failed(code) => {
                return Err(FrameError::Device(code));
            },
        };
        self.current_frame = (self.current_frame + 1) % self.frames_in_flight;
        self.phase = Phase::Idle;
        Ok(dirty)
    }

    /// Tears the ring down. Returns `true` the first time, when the slots'
    /// resources are to be released, and `false` on every later call.
    pub fn destroy(&mut self) -> (r: bool)
        requires
            old(self).wf(),
        ensures
            final(self).wf(),
            (final(self)@, r) == destroy_spec(old(self)@),
    {
        let first = self.phase != Phase::Destroyed;
        self.phase = Phase::Destroyed;
        first
    }

    /// The slot the next render call uses.
    pub fn current_frame(&self) -> (r: usize)
        ensures
            r == self@.current,
    {
        self.current_frame
    }

    pub fn frames_in_flight(&self) -> (r: usize)
        ensures
            r == self@.frames_in_flight,
    {
        self.frames_in_flight
    }

    pub fn phase(&self) -> (r: Phase)
        ensures
            r == self@.phase,
    {
        self.phase
    }

    /// The fence state of `slot`.
    pub fn fence_state(&self, slot: usize) -> (r: Option<FenceState>)
        requires
            self.wf(),
        ensures
            slot < self@.frames_in_flight ==> r == Some(self@.fences[slot as int]),
            slot >= self@.frames_in_flight ==> r is None,
    {
        if slot < self.fences.len() {
            Some(self.fences[slot])
        } else {
            None
        }
    }
}

/// One whole render call: acquire returned `acquire`, present returned
/// `present`, and the swapchain has `image_count` images. Stops at the first
/// step that does not go on.
pub open spec fn render_call(
    v: RingView,
    acquire: AcquireOutcome,
    image_count: nat,
    present: PresentOutcome,
) -> (RingView, Result<bool, FrameError>) {
    let (v1, started) = begin_spec(v);
    match started {
        Err(e) => (v1, Err(e)),
        Ok(_) => {
            let (v2, step) = acquire_spec(v1, acquire, image_count);
            match step {
                Err(e) => (v2, Err(e)),
                Ok(AcquireStep::SwapchainDirty) => (v2, Ok(true)),
                Ok(AcquireStep::Record(_)) => {
                    let (v3, submitted) = submit_spec(v2);
                    match submitted {
                        Err(e) => (v3, Err(e)),
                        Ok(_) => present_spec(v3, present),
                    }
                },
            }
        },
    }
}

/// Render calls one after another, the `j`-th with `acquires[j]` and
/// `presents[j]`: the final state, the slot each call used, and what each
/// call returned.
pub open spec fn run_frames(
    v: RingView,
    image_count: nat,
    acquires: Seq<AcquireOutcome>,
    presents: Seq<PresentOutcome>,
) -> (RingView, Seq<nat>, Seq<Result<bool, FrameError>>)
    decreases acquires.len(),
{
    if acquires.len() == 0 || presents.len() == 0 {
        (v, Seq::empty(), Seq::empty())
    } else {
        let (w, used, results) = run_frames(
            v,
            image_count,
            acquires.drop_last(),
            presents.drop_last(),
        );
        let (x, r) = render_call(w, acquires.last(), image_count, presents.last());
        (x, used.push(w.current), results.push(r))
    }
}

/// Every transition keeps a ring valid.
pub proof fn lemma_transitions_keep_wf(
    v: RingView,
    acquire: AcquireOutcome,
    image_count: nat,
    present: PresentOutcome,
)
    requires
        ring_wf(v),
    ensures
        ring_wf(begin_spec(v).0),
        ring_wf(acquire_spec(v, acquire, image_count).0),
        ring_wf(submit_spec(v).0),
        ring_wf(present_spec(v, present).0),
        ring_wf(destroy_spec(v).0),
        ring_wf(render_call(v, acquire, image_count, present).0),
{
}

/// Fence gating: a render call waits on its slot's fence whenever a
/// submission still owns that slot, and only a claimed slot (one whose
/// previous work is complete) is ever submitted, so a slot's command pool
/// and buffers are reused only after the GPU is done with them. A slot left
/// claimed by a call that stopped at acquire is not waited on again, since
/// no submission will signal its fence.
pub proof fn fence_gating(v: RingView)
    requires
        ring_wf(v),
    ensures
        begin_spec(v).1 matches Ok(s) ==> {
            &&& s.slot == v.current
            &&& v.fences[v.current as int] == FenceState::Pending ==> s.wait_fence
            &&& v.fences[v.current as int] == FenceState::Claimed ==> !s.wait_fence
            &&& begin_spec(v).0.fences[v.current as int] == FenceState::Claimed
        },
        submit_spec(v).1 is Ok ==> v.fences[v.current as int] == FenceState::Claimed
            && submit_spec(v).0.fences[v.current as int] == FenceState::Pending,
{
}

/// Any sequence of render calls, whatever the driver reports, keeps the ring
/// valid; so `fence_gating` holds before every call of the sequence.
pub proof fn runs_keep_wf(
    v: RingView,
    image_count: nat,
    acquires: Seq<AcquireOutcome>,
    presents: Seq<PresentOutcome>,
)
    requires
        ring_wf(v),
    ensures
        ring_wf(run_frames(v, image_count, acquires, presents).0),
    decreases acquires.len(),
{
    if acquires.len() > 0 && presents.len() > 0 {
        runs_keep_wf(v, image_count, acquires.drop_last(), presents.drop_last());
        let w = run_frames(v, image_count, acquires.drop_last(), presents.drop_last()).0;
        lemma_transitions_keep_wf(w, acquires.last(), image_count, presents.last());
    }
}

/// The acquired image index a render call goes on with is always an index
/// of the swapchain's images.
pub proof fn acquired_index_in_range(v: RingView, outcome: AcquireOutcome, image_count: nat)
    ensures
        acquire_spec(v, outcome, image_count).1 matches Ok(AcquireStep::Record(i)) ==> i
            < image_count,
{
}

proof fn lemma_mod_step(k: nat, n: nat)
    requires
        n > 0,
    ensures
        ((k % n) + 1) % n == (k + 1) % n,
{
    if n == 1 {
        assert(((k % n) + 1) % n == 0 && (k + 1) % n == 0) by (nonlinear_arith)
            requires
                n == 1,
        ;
    } else {
        lemma_small_mod(1, n);
        lemma_add_mod_noop(k as int, 1, n as int);
    }
}

/// A successful call from an idle ring: slot under the cursor submitted,
/// cursor advanced, ring idle again.
proof fn lemma_successful_call(
    v: RingView,
    image: u32,
    image_count: nat,
    present: PresentOutcome,
)
    requires
        ring_wf(v),
        v.phase is Idle,
        image < image_count,
        !(present is Failed),
    ensures
        render_call(v, AcquireOutcome::Acquired(image), image_count, present) == (
            RingView {
                current: (v.current + 1) % v.frames_in_flight,
                fences: v.fences.update(v.current as int, FenceState::Pending),
                phase: Phase::Idle,
                ..v
            },
            Ok::<bool, FrameError>(present_dirty(present)),
        ),
{
    let v1 = begin_spec(v).0;
    let v2 = acquire_spec(v1, AcquireOutcome::Acquired(image), image_count).0;
    let v3 = submit_spec(v2).0;
    assert(v3.fences =~= v.fences.update(v.current as int, FenceState::Pending));
}

proof fn lemma_run_from_fresh(
    n: nat,
    image_count: nat,
    acquires: Seq<AcquireOutcome>,
    presents: Seq<PresentOutcome>,
)
    requires
        0 < n <= usize::MAX,
        acquires.len() == presents.len(),
        forall|j: int|
            0 <= j < acquires.len() ==> (#[trigger] acquires[j] matches AcquireOutcome::Acquired(
                i,
            ) && i < image_count),
        forall|j: int| 0 <= j < presents.len() ==> !(#[trigger] presents[j] is Failed),
    ensures
        ({
            let (w, used, results) = run_frames(fresh_ring(n), image_count, acquires, presents);
            &&& ring_wf(w)
            &&& w.frames_in_flight == n
            &&& w.phase is Idle
            &&& w.current == acquires.len() % n
            &&& used.len() == acquires.len()
            &&& forall|j: int| 0 <= j < used.len() ==> #[trigger] used[j] == (j as nat) % n
            &&& results.len() == acquires.len()
            &&& forall|j: int|
                0 <= j < results.len() ==> #[trigger] results[j] == Ok::<bool, FrameError>(
                    present_dirty(presents[j]),
                )
        }),
    decreases acquires.len(),
{
    let k = acquires.len();
    if k == 0 {
        lemma_small_mod(0, n);
    } else {
        let (w, used, results) = run_frames(
            fresh_ring(n),
            image_count,
            acquires.drop_last(),
            presents.drop_last(),
        );
        lemma_run_from_fresh(n, image_count, acquires.drop_last(), presents.drop_last());
        assert(acquires.drop_last().len() == (k - 1) as nat);
        let a = acquires.last();
        assert(acquires[k - 1] == a);
        let image = a->Acquired_0;
        assert(a == AcquireOutcome::Acquired(image) && image < image_count);
        assert(!(presents[k - 1] is Failed));
        lemma_successful_call(w, image, image_count, presents.last());
        lemma_mod_step((k - 1) as nat, n);
        let (x, used2, results2) = run_frames(fresh_ring(n), image_count, acquires, presents);
        assert(w.current == ((k - 1) as nat) % n);
        assert(x.current == (w.current + 1) % n);
        assert((((k - 1) as nat) + 1) as nat == k);
        assert(used2 == used.push(w.current));
        assert forall|j: int| 0 <= j < used2.len() implies #[trigger] used2[j] == (j as nat) % n by {
            if j < used.len() {
                assert(used2[j] == used[j]);
            }
        }
        assert forall|j: int| 0 <= j < results2.len() implies #[trigger] results2[j]
            == Ok::<bool, FrameError>(present_dirty(presents[j])) by {
            if j < results.len() {
                assert(results2[j] == results[j]);
                assert(presents.drop_last()[j] == presents[j]);
            }
        }
    }
}

/// Cursor cycling: `N` successful render calls on a fresh ring of `N` slots
/// use slots `0, 1, ..., N - 1` in turn, each exactly once, all succeed, and
/// leave the cursor back at zero.
pub proof fn cursor_cycles(
    n: nat,
    image_count: nat,
    acquires: Seq<AcquireOutcome>,
    presents: Seq<PresentOutcome>,
)
    requires
        0 < n <= usize::MAX,
        acquires.len() == n,
        presents.len() == n,
        forall|j: int|
            0 <= j < n ==> (#[trigger] acquires[j] matches AcquireOutcome::Acquired(i) && i
                < image_count),
        forall|j: int| 0 <= j < n ==> !(#[trigger] presents[j] is Failed),
    ensures
        ({
            let (w, used, results) = run_frames(fresh_ring(n), image_count, acquires, presents);
            &&& w.current == 0
            &&& w.phase is Idle
            &&& used =~= Seq::new(n, |j: int| j as nat)
            &&& forall|j: int| 0 <= j < n ==> #[trigger] results[j] is Ok
        }),
{
    lemma_run_from_fresh(n, image_count, acquires, presents);
    let (w, used, results) = run_frames(fresh_ring(n), image_count, acquires, presents);
    assert(n % n == 0) by (nonlinear_arith)
        requires
            n > 0,
    ;
    assert forall|j: int| 0 <= j < n implies #[trigger] used[j] == j as nat by {
        lemma_small_mod(j as nat, n);
    }
}

/// Dirty propagation: an out-of-date acquire makes the call report a dirty
/// swapchain with nothing submitted (the slot's fence is not handed to any
/// submission, neither submit nor present may follow, and the cursor moves
/// on as after every call);
/// an out-of-date or suboptimal present reports a dirty swapchain after the
/// submission went through and the cursor advanced.
pub proof fn dirty_propagation(
    v: RingView,
    image: u32,
    image_count: nat,
    present: PresentOutcome,
)
    requires
        ring_wf(v),
        v.phase is Idle,
    ensures
        ({
            let (w, r) = render_call(v, AcquireOutcome::OutOfDate, image_count, present);
            &&& r == Ok::<bool, FrameError>(true)
            &&& w.current == (v.current + 1) % v.frames_in_flight
            &&& w.phase is Idle
            &&& w.fences == v.fences.update(v.current as int, FenceState::Claimed)
            &&& submit_spec(w).1 == Err::<u32, FrameError>(FrameError::OutOfOrder)
            &&& present_spec(w, present).1 == Err::<bool, FrameError>(FrameError::OutOfOrder)
        }),
        image < image_count && (present is OutOfDate || present is Suboptimal) ==> ({
            let (w, r) = render_call(v, AcquireOutcome::Acquired(image), image_count, present);
            &&& r == Ok::<bool, FrameError>(true)
            &&& w.fences[v.current as int] == FenceState::Pending
            &&& w.current == (v.current + 1) % v.frames_in_flight
        }),
{
    if image < image_count && (present is OutOfDate || present is Suboptimal) {
        lemma_successful_call(v, image, image_count, present);
    }
}

/// Destroying twice is harmless: only the first call asks for the slots'
/// resources to be released, and no render call can start afterwards.
pub proof fn destroy_idempotent(v: RingView)
    ensures
        destroy_spec(v).1 == !(v.phase is Destroyed),
        !destroy_spec(destroy_spec(v).0).1,
        destroy_spec(destroy_spec(v).0).0 == destroy_spec(v).0,
        begin_spec(destroy_spec(v).0).1 == Err::<FrameStart, FrameError>(FrameError::OutOfOrder),
{
}

} // verus!
