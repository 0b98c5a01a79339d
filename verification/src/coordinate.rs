use vstd::prelude::*;
use vstd::arithmetic::div_mod::{lemma_div_by_multiple, lemma_div_is_ordered};
use vstd::arithmetic::mul::lemma_mul_inequality;

verus! {

/// Coordinates superseding preview requests. Each request gets a fresh
/// generation number; only the most recently issued request counts as
/// current, so a result that arrives late for an earlier request is
/// recognised and dropped instead of overwriting newer preview content.
#[derive(Clone, Copy, Debug, PartialEq, Eq, Structural)]
pub struct PreviewTracker {
    issued: u64,
}

/// One `begin_request` step: the tracker has issued one more request, and
/// `request` is the number it handed out.
pub open spec fn spec_begin_request(
    pre: PreviewTracker,
    post: PreviewTracker,
    request: u64,
) -> bool {
    &&& post.spec_issued() == pre.spec_issued() + 1
    &&& request == pre.spec_issued()
}

impl PreviewTracker {
    /// How many preview requests have been issued.
    pub closed spec fn spec_issued(self) -> u64 {
        self.issued
    }

    /// Whether `request` is the latest request issued.
    pub closed spec fn spec_is_current(self, request: u64) -> bool {
        self.issued > 0 && request == self.issued - 1
    }

    pub fn new() -> (t: Self)
        ensures
            t.spec_issued() == 0,
    {
        PreviewTracker { issued: 0 }
    }

    /// Starts a new preview request, superseding every earlier one, and
    /// hands back its generation number.
    pub fn begin_request(&mut self) -> (request: u64)
        requires
            old(self).spec_issued() < u64::MAX,
        ensures
            spec_begin_request(*old(self), *final(self), request),
            final(self).spec_is_current(request),
    {
        let request = self.issued;
        self.issued = self.issued + 1;
        request
    }

    /// Whether a computation finished for `request` may still be applied,
    /// or has been superseded by a later request.
    pub fn should_apply(&self, request: u64) -> (b: bool)
        ensures
            b == self.spec_is_current(request),
    {
        self.issued > 0 && request == self.issued - 1
    }
}

/// Last request wins: after two preview requests in a row, only the second
/// is current, whatever order their computations finish in — applying
/// results through `should_apply` can never show the first request's
/// preview over the second's.
pub proof fn lemma_latest_preview_wins(
    t0: PreviewTracker,
    t1: PreviewTracker,
    t2: PreviewTracker,
    first: u64,
    second: u64,
)
    requires
        spec_begin_request(t0, t1, first),
        spec_begin_request(t1, t2, second),
    ensures
        t2.spec_is_current(second),
        !t2.spec_is_current(first),
{
}

/// Progress of one export batch: how many of its images have finished.
/// Workers report completions one at a time; the consumer reads the count.
#[derive(Clone, Copy, Debug, PartialEq, Eq, Structural)]
pub struct ProgressTracker {
    completed: u32,
    total: u32,
}

impl ProgressTracker {
    pub closed spec fn spec_completed(self) -> u32 {
        self.completed
    }

    pub closed spec fn spec_total(self) -> u32 {
        self.total
    }

    /// Never more images finished than the batch holds.
    pub closed spec fn wf(self) -> bool {
        self.completed <= self.total
    }

    pub fn new(total: u32) -> (t: Self)
        ensures
            t.wf(),
            t.spec_total() == total,
            t.spec_completed() == 0,
    {
        ProgressTracker { completed: 0, total }
    }

    /// Records one finished image.
    pub fn record_completed(&mut self)
        requires
            old(self).wf(),
            old(self).spec_completed() < old(self).spec_total(),
        ensures
            final(self).wf(),
            final(self).spec_total() == old(self).spec_total(),
            final(self).spec_completed() == old(self).spec_completed() + 1,
    {
        self.completed = self.completed + 1;
    }

    /// Whether the whole batch has finished.
    pub fn is_complete(&self) -> (b: bool)
        requires
            self.wf(),
        ensures
            b == (self.spec_completed() == self.spec_total()),
    {
        self.completed >= self.total
    }

    pub fn completed(&self) -> (c: u32)
        ensures
            c == self.spec_completed(),
    {
        self.completed
    }

    pub fn total(&self) -> (t: u32)
        ensures
            t == self.spec_total(),
    {
        self.total
    }

    /// Completion as a whole percentage for a progress display; an empty
    /// batch counts as fully done.
    pub fn percent_complete(&self) -> (p: u32)
        requires
            self.wf(),
        ensures
            self.spec_total() > 0 ==> p == (self.spec_completed() * 100) / (
            self.spec_total() as int),
            self.spec_total() == 0 ==> p == 100,
            p <= 100,
    {
        if self.total == 0 {
            100
        } else {
            proof {
                let c = self.completed as int;
                let t = self.total as int;
                assert(c * 100 <= u64::MAX) by (nonlinear_arith)
                    requires
                        0 <= c < 0x1_0000_0000,
                ;
                lemma_mul_inequality(c, t, 100);
                assert(t * 100 == 100 * t) by (nonlinear_arith);
                lemma_div_is_ordered(c * 100, 100 * t, t);
                lemma_div_by_multiple(100, t);
            }
            (((self.completed as u64) * 100) / (self.total as u64)) as u32
        }
    }
}

} // verus!
