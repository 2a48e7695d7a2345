use vstd::prelude::*;

verus! {

/// A semaphore-gated admission window over a queue of pending operations:
/// a fixed number of operations may be in flight at once; a new one is
/// admitted only when the window has room, and a completion frees a slot.
///
/// This is the model behind every bounded fan-out of the pipeline — the
/// page fetches, the child-room fetches and the policy updates. The driver
/// holds one dispatcher per fan-out and steps it at each dispatch and each
/// completion; `wf` is established by `new` and preserved by every step, so
/// the in-flight count can never exceed the window.
pub struct BoundedDispatcher {
    pub limit: usize,
    pub pending: usize,
    pub in_flight: usize,
}

impl BoundedDispatcher {
    /// The dispatcher's invariant: the window is positive and the in-flight
    /// count never exceeds it.
    pub open spec fn wf(&self) -> bool {
        1 <= self.limit && self.in_flight <= self.limit
    }

    /// A window of `limit` slots over `total` pending operations.
    pub fn new(limit: usize, total: usize) -> (d: BoundedDispatcher)
        requires
            1 <= limit,
        ensures
            d.wf(),
            d.limit == limit,
            d.pending == total,
            d.in_flight == 0,
    {
        BoundedDispatcher { limit, pending: total, in_flight: 0 }
    }

    /// Whether another operation may be admitted: something is pending and
    /// the window has a free slot.
    pub fn can_dispatch(&self) -> (r: bool)
        ensures
            r == (self.pending > 0 && self.in_flight < self.limit),
    {
        self.pending > 0 && self.in_flight < self.limit
    }

    /// Admits one pending operation into the window. Even right after the
    /// admission the in-flight count stays within the window.
    pub fn dispatch(&mut self)
        requires
            old(self).wf(),
            old(self).pending > 0,
            old(self).in_flight < old(self).limit,
        ensures
            final(self).wf(),
            final(self).limit == old(self).limit,
            final(self).pending == old(self).pending - 1,
            final(self).in_flight == old(self).in_flight + 1,
            final(self).in_flight <= final(self).limit,
    {
        self.pending = self.pending - 1;
        self.in_flight = self.in_flight + 1;
    }

    /// Records one completion, freeing a slot of the window.
    pub fn complete(&mut self)
        requires
            old(self).wf(),
            old(self).in_flight > 0,
        ensures
            final(self).wf(),
            final(self).limit == old(self).limit,
            final(self).pending == old(self).pending,
            final(self).in_flight == old(self).in_flight - 1,
    {
        self.in_flight = self.in_flight - 1;
    }

    /// Whether the fan-out has drained completely.
    pub fn is_done(&self) -> (r: bool)
        ensures
            r == (self.pending == 0 && self.in_flight == 0),
    {
        self.pending == 0 && self.in_flight == 0
    }
}

} // verus!
