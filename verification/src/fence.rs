use vstd::prelude::*;

verus! {

/// Mathematical image of a [`FrameFence`]: how many submissions have been
/// handed to the execution engine, and the highest completion value the engine
/// has been observed to reach.
pub ghost struct FenceView {
    pub submitted: u64,
    pub completed: u64,
}

impl FenceView {
    /// The fence invariant: completion never outruns submission.
    pub open spec fn wf(self) -> bool {
        self.completed <= self.submitted
    }

    /// Effect of taking in a completion report `v`. The completed value only
    /// moves forward, and never past the submission counter: a report that
    /// runs backwards or claims more than was submitted changes nothing.
    pub open spec fn observe(self, v: u64) -> FenceView {
        if v <= self.submitted && self.completed < v {
            FenceView { submitted: self.submitted, completed: v }
        } else {
            self
        }
    }

    /// Effect of registering one more submission.
    pub open spec fn advance(self) -> FenceView
        recommends
            self.submitted < u64::MAX,
    {
        FenceView { submitted: (self.submitted + 1) as u64, completed: self.completed }
    }

    /// The engine has completed everything submitted so far.
    pub open spec fn idle(self) -> bool {
        self.completed == self.submitted
    }
}

/// A monotonically increasing submission counter paired with the last
/// completion value observed from the execution engine.
///
/// The engine signals the real fence; the host reads the signalled value and
/// reports it here through [`FrameFence::observe_completed`]. Work that was
/// submitted under value `v` may reuse its resources only once
/// `completed >= v`.
pub struct FrameFence {
    submitted: u64,
    completed: u64,
}

impl View for FrameFence {
    type V = FenceView;

    closed spec fn view(&self) -> FenceView {
        FenceView { submitted: self.submitted, completed: self.completed }
    }
}

impl FrameFence {
    /// A fresh fence: nothing submitted, nothing completed.
    pub fn new() -> (fence: Self)
        ensures
            fence@.submitted == 0,
            fence@.completed == 0,
            fence@.wf(),
    {
        FrameFence { submitted: 0, completed: 0 }
    }

    /// The value of the last submission, or zero before the first one.
    pub fn submitted(&self) -> (v: u64)
        ensures
            v == self@.submitted,
    {
        self.submitted
    }

    /// The highest completion value observed so far.
    pub fn completed(&self) -> (v: u64)
        ensures
            v == self@.completed,
    {
        self.completed
    }

    /// Register one more submission and return its fence value, which the
    /// host must ask the engine to signal once the work drains.
    pub fn advance(&mut self) -> (v: u64)
        requires
            old(self)@.submitted < u64::MAX,
        ensures
            final(self)@ == old(self)@.advance(),
            v == final(self)@.submitted,
            old(self)@.wf() ==> final(self)@.wf(),
    {
        self.submitted = self.submitted + 1;
        self.submitted
    }

    /// Take in a completion value read back from the engine. The completed
    /// counter only moves forward, and never past the submission counter.
    pub fn observe_completed(&mut self, v: u64)
        ensures
            final(self)@ == old(self)@.observe(v),
            final(self)@.completed >= old(self)@.completed,
            final(self)@.submitted == old(self)@.submitted,
            old(self)@.wf() ==> final(self)@.wf(),
    {
        if v <= self.submitted && self.completed < v {
            self.completed = v;
        }
    }

    /// Whether work submitted under fence value `v` is known to be complete.
    pub fn is_complete(&self, v: u64) -> (r: bool)
        ensures
            r == (v <= self@.completed),
    {
        v <= self.completed
    }

    /// Whether every submission so far is known to be complete.
    pub fn is_idle(&self) -> (r: bool)
        ensures
            r == self@.idle(),
    {
        self.completed == self.submitted
    }
}

} // verus!
