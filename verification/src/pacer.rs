use crate::fence::{FenceView, FrameFence};
use vstd::prelude::*;

verus! {

/// Where the pacer stands in its frame cycle.
///
/// The cycle is `Ready -> Recording -> Recorded -> Ready`, entered from
/// `Uninitialized` once a presentation engine is registered. Resizing is a
/// side excursion taken from `Ready` and finished within the call.
#[derive(Clone, Copy, Debug, PartialEq, Eq, Structural)]
pub enum Phase {
    /// No presentation engine is registered yet. Every frame operation
    /// degrades to a no-op or a descriptive fault; nothing blocks.
    Uninitialized,
    /// Between frames: the next resource set may be acquired.
    Ready,
    /// A resource set has been acquired for exclusive reuse; the frame's
    /// command script may be produced.
    Recording,
    /// The bracketed command script has been handed out; the frame may be
    /// submitted and presented.
    Recorded,
}

/// A fault in how the pacer was driven or configured.
#[derive(Clone, Copy, Debug, PartialEq, Eq, Structural)]
pub enum PacerError {
    /// The operation does not apply in the pacer's current phase.
    WrongPhase,
    /// The requested configuration is unsupported: a zero extent or a zero
    /// in-flight budget.
    UnsupportedConfig,
}

/// A back-buffer size in pixels.
#[derive(Clone, Copy, Debug, PartialEq, Eq, Structural)]
pub struct Extent {
    pub width: u32,
    pub height: u32,
}

/// One step of the command script for a frame. The script brackets the
/// producer's drawing between the two mandatory layout transitions; handing
/// the engine a back buffer left renderable is undefined behaviour at the
/// native boundary, so the bracket is an invariant, not an option.
#[derive(Clone, Copy, Debug, PartialEq, Eq, Structural)]
pub enum RecordStep {
    /// Transition the slot's back buffer into the renderable layout.
    ToRenderable { slot: usize },
    /// Invoke the command producer's recording callback against the bound
    /// target. Drawing and compute only: presentation and fence signalling
    /// belong to the pacer.
    ProducerDraw,
    /// Transition the slot's back buffer back into the presentable layout.
    ToPresentable { slot: usize },
}

/// What [`FramePacer::acquire_frame_resources`] decided.
#[derive(Clone, Copy, Debug, PartialEq, Eq, Structural)]
pub enum AcquireOutcome {
    /// The previous use of resource set `slot` has completed on the engine
    /// timeline: the set may be reset and recorded into, race-free.
    Acquired { slot: usize },
    /// The previous use of the next resource set is still in flight. The
    /// host must wait until the fence reaches `fence_value`, report it
    /// through [`FrameFence::observe_completed`], and ask again.
    MustWait { fence_value: u64 },
}

/// What [`FramePacer::resize`] decided.
#[derive(Clone, Copy, Debug, PartialEq, Eq, Structural)]
pub enum ResizeOutcome {
    /// The requested size equals the current one: nothing was touched and
    /// the host must touch nothing either.
    Unchanged,
    /// Frames are still in flight. The host must wait until the fence
    /// reaches `fence_value`, report it, and ask again; the buffer set was
    /// not touched.
    MustDrain { fence_value: u64 },
    /// The drain precondition held: the slot bookkeeping was reset, and the
    /// host must now release its per-slot views, resize the engine's buffer
    /// set, and recreate the views.
    Resized,
}

/// What the host owes the engine after a submission: execute the closed
/// command list for `slot`, present, and ask the engine to signal
/// `fence_value` when the work drains.
#[derive(Clone, Copy, Debug, PartialEq, Eq, Structural)]
pub struct SubmitTicket {
    pub slot: usize,
    pub fence_value: u64,
}

/// Mathematical image of a [`FramePacer`].
pub ghost struct PacerView {
    pub phase: Phase,
    /// Per resource set, the fence value of its last submitted use; zero if
    /// the set was never used since (re)creation.
    pub slot_fences: Seq<u64>,
    /// The resource set the next frame will reuse.
    pub current: int,
    pub size: Extent,
}

impl PacerView {
    /// Structural invariant: before registration there are no resource sets;
    /// afterwards there is at least one, the cursor stays inside the ring,
    /// and the registered size is non-degenerate.
    pub open spec fn wf(self) -> bool {
        if self.phase == Phase::Uninitialized {
            self.slot_fences.len() == 0 && self.current == 0
        } else {
            &&& 1 <= self.slot_fences.len()
            &&& 0 <= self.current < self.slot_fences.len()
            &&& self.size.width > 0
            &&& self.size.height > 0
        }
    }

    /// Relation to the fence the pacer is driven against: every recorded
    /// last-use value was really submitted.
    pub open spec fn tracks(self, f: FenceView) -> bool {
        forall|i: int| 0 <= i < self.slot_fences.len() ==> self.slot_fences[i] <= f.submitted
    }
}

/// When the next resource set may be acquired: its previous use has
/// completed on the engine timeline.
pub open spec fn acquire_ready(p: PacerView, f: FenceView) -> bool {
    f.completed >= p.slot_fences[p.current]
}

/// Awaiting frame readiness decides whether the host must block; it moves no
/// pacer state.
pub open spec fn spec_await(p: PacerView) -> PacerView {
    p
}

/// Effect of acquiring the current resource set (guarded by [`acquire_ready`]).
pub open spec fn spec_acquire(p: PacerView) -> PacerView {
    PacerView { phase: Phase::Recording, ..p }
}

/// Effect of producing the frame's bracketed command script.
pub open spec fn spec_record(p: PacerView) -> PacerView {
    PacerView { phase: Phase::Recorded, ..p }
}

/// Effect of submitting and presenting on the pacer: the current set's
/// last-use value becomes the newly advanced fence value and the cursor
/// moves one step around the ring.
pub open spec fn spec_submit(p: PacerView, f: FenceView) -> PacerView
    recommends
        f.submitted < u64::MAX,
        1 <= p.slot_fences.len(),
{
    PacerView {
        phase: Phase::Ready,
        slot_fences: p.slot_fences.update(p.current, f.advance().submitted),
        current: if p.current + 1 == p.slot_fences.len() {
            0
        } else {
            p.current + 1
        },
        ..p
    }
}

/// The frame's command script: the producer's drawing bracketed by the two
/// mandatory layout transitions of the target slot.
pub open spec fn record_script(slot: usize) -> Seq<RecordStep> {
    seq![
        RecordStep::ToRenderable { slot },
        RecordStep::ProducerDraw,
        RecordStep::ToPresentable { slot },
    ]
}

/// Paces CPU command recording against a finite ring of per-frame resource
/// sets shared with an asynchronous execution engine.
///
/// The pacer owns only bookkeeping: which resource set a frame may reuse and
/// under which fence value each set was last submitted. It performs no waits
/// and no device calls; its outcomes tell the host what to wait for, and the
/// host reports observed completion values back through the [`FrameFence`]
/// it drives the pacer with.
pub struct FramePacer {
    phase: Phase,
    slot_fences: Vec<u64>,
    current: usize,
    size: Extent,
}

impl View for FramePacer {
    type V = PacerView;

    closed spec fn view(&self) -> PacerView {
        PacerView {
            phase: self.phase,
            slot_fences: self.slot_fences@,
            current: self.current as int,
            size: self.size,
        }
    }
}

impl FramePacer {
    /// A pacer with no presentation engine registered.
    pub fn new() -> (pacer: Self)
        ensures
            pacer@.phase == Phase::Uninitialized,
            pacer@.slot_fences.len() == 0,
            pacer@.current == 0,
            pacer@.wf(),
    {
        FramePacer {
            phase: Phase::Uninitialized,
            slot_fences: Vec::new(),
            current: 0,
            size: Extent { width: 0, height: 0 },
        }
    }

    /// Register the presentation engine's buffer set: the initial size and
    /// the in-flight budget, which fixes the number of per-frame resource
    /// sets. The budget is fixed for the engine's lifetime; changing it
    /// means registering a fresh pacer against a recreated engine.
    pub fn register_engine(&mut self, size: Extent, in_flight_budget: usize) -> (r: Result<
        (),
        PacerError,
    >)
        ensures
            old(self)@.wf() ==> final(self)@.wf(),
            match r {
                Ok(()) => {
                    &&& old(self)@.phase == Phase::Uninitialized
                    &&& 1 <= in_flight_budget
                    &&& size.width > 0
                    &&& size.height > 0
                    &&& final(self)@.phase == Phase::Ready
                    &&& final(self)@.slot_fences.len() == in_flight_budget
                    &&& (forall|i: int|
                        0 <= i < in_flight_budget ==> final(self)@.slot_fences[i] == 0)
                    &&& final(self)@.current == 0
                    &&& final(self)@.size == size
                    &&& final(self)@.wf()
                },
                Err(PacerError::WrongPhase) => {
                    &&& old(self)@.phase != Phase::Uninitialized
                    &&& final(self)@ == old(self)@
                },
                Err(PacerError::UnsupportedConfig) => {
                    &&& old(self)@.phase == Phase::Uninitialized
                    &&& (in_flight_budget == 0 || size.width == 0 || size.height == 0)
                    &&& final(self)@ == old(self)@
                },
            },
    {
        match self.phase {
            Phase::Uninitialized => {
                if in_flight_budget == 0 || size.width == 0 || size.height == 0 {
                    Err(PacerError::UnsupportedConfig)
                } else {
                    self.slot_fences = zeroed(in_flight_budget);
                    self.current = 0;
                    self.size = size;
                    self.phase = Phase::Ready;
                    Ok(())
                }
            },
            _ => Err(PacerError::WrongPhase),
        }
    }

    /// Whether the host must block on the presentation engine's ready signal
    /// before starting this frame. With no engine registered there is
    /// nothing to wait for and the call degrades to a no-op; blocking here,
    /// before input is read and the frame simulated, is what keeps
    /// input-to-photon latency low.
    pub fn await_ready_frame(&self) -> (wait: bool)
        ensures
            wait == (self@.phase == Phase::Ready),
    {
        match self.phase {
            Phase::Ready => true,
            _ => false,
        }
    }

    /// Hand out the next resource set for recording, but only once its
    /// previous use is known to have completed on the engine timeline.
    /// Skipping this guard is a use-after-free on the GPU timeline, so the
    /// set is withheld — `MustWait` — until the fence has been observed to
    /// reach the set's last submitted value.
    pub fn acquire_frame_resources(&mut self, fence: &FrameFence) -> (r: Result<
        AcquireOutcome,
        PacerError,
    >)
        requires
            old(self)@.wf(),
        ensures
            final(self)@.slot_fences == old(self)@.slot_fences,
            final(self)@.current == old(self)@.current,
            final(self)@.size == old(self)@.size,
            final(self)@.wf(),
            match r {
                Ok(AcquireOutcome::Acquired { slot }) => {
                    &&& old(self)@.phase == Phase::Ready
                    &&& acquire_ready(old(self)@, fence@)
                    &&& final(self)@ == spec_acquire(old(self)@)
                    &&& slot == old(self)@.current
                    &&& fence@.completed >= old(self)@.slot_fences[old(self)@.current]
                },
                Ok(AcquireOutcome::MustWait { fence_value }) => {
                    &&& old(self)@.phase == Phase::Ready
                    &&& !acquire_ready(old(self)@, fence@)
                    &&& final(self)@ == old(self)@
                    &&& fence_value == old(self)@.slot_fences[old(self)@.current]
                    &&& fence@.completed < fence_value
                },
                Err(e) => {
                    &&& e == PacerError::WrongPhase
                    &&& old(self)@.phase != Phase::Ready
                    &&& final(self)@ == old(self)@
                },
            },
    {
        match self.phase {
            Phase::Ready => {
                let needed = self.slot_fences[self.current];
                if fence.is_complete(needed) {
                    self.phase = Phase::Recording;
                    Ok(AcquireOutcome::Acquired { slot: self.current })
                } else {
                    Ok(AcquireOutcome::MustWait { fence_value: needed })
                }
            },
            _ => Err(PacerError::WrongPhase),
        }
    }

    /// Produce the frame's command script: the producer's drawing bracketed
    /// by the transition of the target into the renderable layout before and
    /// back into the presentable layout after.
    pub fn record(&mut self) -> (r: Result<Vec<RecordStep>, PacerError>)
        ensures
            final(self)@.slot_fences == old(self)@.slot_fences,
            final(self)@.current == old(self)@.current,
            final(self)@.size == old(self)@.size,
            old(self)@.wf() ==> final(self)@.wf(),
            match r {
                Ok(steps) => {
                    &&& old(self)@.phase == Phase::Recording
                    &&& final(self)@ == spec_record(old(self)@)
                    &&& steps@ == record_script(old(self)@.current as usize)
                },
                Err(e) => {
                    &&& e == PacerError::WrongPhase
                    &&& old(self)@.phase != Phase::Recording
                    &&& final(self)@ == old(self)@
                },
            },
    {
        match self.phase {
            Phase::Recording => {
                let slot = self.current;
                let mut steps: Vec<RecordStep> = Vec::new();
                steps.push(RecordStep::ToRenderable { slot });
                steps.push(RecordStep::ProducerDraw);
                steps.push(RecordStep::ToPresentable { slot });
                self.phase = Phase::Recorded;
                proof {
                    assert(steps@ =~= record_script(slot));
                }
                Ok(steps)
            },
            _ => Err(PacerError::WrongPhase),
        }
    }

    /// Close out the frame: mark the current resource set as last used under
    /// the next fence value, advance the fence, and move the cursor one step
    /// around the ring. The returned ticket is what the host owes the
    /// engine: execute the closed list for `slot`, present, and have the
    /// engine signal `fence_value` when the work drains.
    pub fn submit_and_present(&mut self, fence: &mut FrameFence) -> (r: Result<
        SubmitTicket,
        PacerError,
    >)
        requires
            old(self)@.wf(),
            old(fence)@.wf(),
            old(fence)@.submitted < u64::MAX,
            old(self)@.tracks(old(fence)@),
        ensures
            final(self)@.wf(),
            final(fence)@.wf(),
            final(self)@.tracks(final(fence)@),
            match r {
                Ok(t) => {
                    &&& old(self)@.phase == Phase::Recorded
                    &&& final(self)@ == spec_submit(old(self)@, old(fence)@)
                    &&& final(fence)@ == old(fence)@.advance()
                    &&& final(fence)@.submitted == old(fence)@.submitted + 1
                    &&& t.fence_value == final(fence)@.submitted
                    &&& t.slot == old(self)@.current
                },
                Err(e) => {
                    &&& e == PacerError::WrongPhase
                    &&& old(self)@.phase != Phase::Recorded
                    &&& final(self)@ == old(self)@
                    &&& final(fence)@ == old(fence)@
                },
            },
    {
        match self.phase {
            Phase::Recorded => {
                let v = fence.advance();
                let slot = self.current;
                self.slot_fences[slot] = v;
                self.phase = Phase::Ready;
                let len = self.slot_fences.len();
                self.current = if slot + 1 == len {
                    0
                } else {
                    slot + 1
                };
                Ok(SubmitTicket { slot, fence_value: v })
            },
            _ => Err(PacerError::WrongPhase),
        }
    }

    /// Change the buffer set's size. Identical dimensions are a strict
    /// no-op. Otherwise the buffer set may be touched only once the engine
    /// is idle with respect to every outstanding frame, so while anything is
    /// in flight the answer is `MustDrain` and nothing moves.
    pub fn resize(&mut self, fence: &FrameFence, new_size: Extent) -> (r: Result<
        ResizeOutcome,
        PacerError,
    >)
        requires
            old(self)@.wf(),
            fence@.wf(),
            old(self)@.tracks(fence@),
        ensures
            final(self)@.wf(),
            final(self)@.tracks(fence@),
            final(self)@.phase == old(self)@.phase,
            match r {
                Ok(ResizeOutcome::Unchanged) => {
                    &&& old(self)@.phase == Phase::Ready
                    &&& new_size == old(self)@.size
                    &&& final(self)@ == old(self)@
                },
                Ok(ResizeOutcome::MustDrain { fence_value }) => {
                    &&& old(self)@.phase == Phase::Ready
                    &&& new_size != old(self)@.size
                    &&& new_size.width > 0
                    &&& new_size.height > 0
                    &&& !fence@.idle()
                    &&& fence_value == fence@.submitted
                    &&& final(self)@ == old(self)@
                },
                Ok(ResizeOutcome::Resized) => {
                    &&& old(self)@.phase == Phase::Ready
                    &&& new_size != old(self)@.size
                    &&& new_size.width > 0
                    &&& new_size.height > 0
                    &&& fence@.idle()
                    &&& (forall|i: int|
                        0 <= i < old(self)@.slot_fences.len() ==> old(self)@.slot_fences[i]
                            <= fence@.completed)
                    &&& final(self)@.phase == Phase::Ready
                    &&& final(self)@.size == new_size
                    &&& final(self)@.slot_fences.len() == old(self)@.slot_fences.len()
                    &&& (forall|i: int|
                        0 <= i < final(self)@.slot_fences.len() ==> final(self)@.slot_fences[i]
                            == 0)
                    &&& final(self)@.current == 0
                },
                Err(PacerError::WrongPhase) => {
                    &&& old(self)@.phase != Phase::Ready
                    &&& final(self)@ == old(self)@
                },
                Err(PacerError::UnsupportedConfig) => {
                    &&& old(self)@.phase == Phase::Ready
                    &&& new_size != old(self)@.size
                    &&& (new_size.width == 0 || new_size.height == 0)
                    &&& final(self)@ == old(self)@
                },
            },
    {
        match self.phase {
            Phase::Ready => {
                if new_size.width == self.size.width && new_size.height == self.size.height {
                    Ok(ResizeOutcome::Unchanged)
                } else if new_size.width == 0 || new_size.height == 0 {
                    Err(PacerError::UnsupportedConfig)
                } else if !fence.is_idle() {
                    Ok(ResizeOutcome::MustDrain { fence_value: fence.submitted() })
                } else {
                    let budget = self.slot_fences.len();
                    self.slot_fences = zeroed(budget);
                    self.current = 0;
                    self.size = new_size;
                    Ok(ResizeOutcome::Resized)
                }
            },
            _ => Err(PacerError::WrongPhase),
        }
    }

    /// The current buffer size.
    pub fn size(&self) -> (s: Extent)
        ensures
            s == self@.size,
    {
        self.size
    }

    /// The resource set the next frame will reuse.
    pub fn current_slot(&self) -> (s: usize)
        ensures
            s == self@.current,
    {
        self.current
    }

    /// The in-flight budget: how many frames may be queued ahead of the
    /// engine, one per resource set.
    pub fn in_flight_budget(&self) -> (n: usize)
        ensures
            n == self@.slot_fences.len(),
    {
        self.slot_fences.len()
    }

    /// The pacer's current phase.
    pub fn phase(&self) -> (p: Phase)
        ensures
            p == self@.phase,
    {
        self.phase
    }
}

/// A fresh last-use table: one zero entry per resource set.
fn zeroed(n: usize) -> (v: Vec<u64>)
    ensures
        v@.len() == n,
        forall|i: int| 0 <= i < n ==> v@[i] == 0,
{
    let mut v: Vec<u64> = Vec::new();
    let mut i: usize = 0;
    while i < n
        invariant
            i <= n,
            v@.len() == i,
            forall|j: int| 0 <= j < i ==> v@[j] == 0,
        decreases n - i,
    {
        v.push(0);
        i = i + 1;
    }
    v
}

/// Law: one full frame cycle — `await_ready_frame`, then
/// `acquire_frame_resources`, then `record`, then `submit_and_present` —
/// advances the fence's submitted counter by exactly one, returns the pacer
/// to `Ready`, and preserves every invariant, so cycles compose.
pub proof fn lemma_cycle_submits_exactly_one(p: PacerView, f: FenceView)
    requires
        p.wf(),
        f.wf(),
        p.tracks(f),
        p.phase == Phase::Ready,
        acquire_ready(p, f),
        f.submitted < u64::MAX,
    ensures
        ({
            let p_end = spec_submit(spec_record(spec_acquire(spec_await(p))), f);
            let f_end = f.advance();
            &&& f_end.submitted == f.submitted + 1
            &&& p_end.phase == Phase::Ready
            &&& p_end.wf()
            &&& f_end.wf()
            &&& p_end.tracks(f_end)
        }),
{
}

} // verus!
