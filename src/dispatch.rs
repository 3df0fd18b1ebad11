use vstd::prelude::*;

verus! {

/// The bounded queue through which remote increments leave the control loop.
///
/// Submitting never waits: a write is queued while there is room and dropped
/// when there is none, which bounds the work a burst of events can create.
/// Workers take the oldest write first. Nothing here feeds back into the log.
pub struct DispatchQueue {
    pending: Vec<u8>,
    capacity: usize,
}

impl View for DispatchQueue {
    type V = Seq<u8>;

    closed spec fn view(&self) -> Seq<u8> {
        self.pending@
    }
}

impl DispatchQueue {
    /// How many writes may wait at once.
    pub closed spec fn bound(&self) -> nat {
        self.capacity as nat
    }

    pub open spec fn wf(&self) -> bool {
        self@.len() <= self.bound()
    }

    /// An empty queue with room for `capacity` writes.
    pub fn new(capacity: usize) -> (r: DispatchQueue)
        ensures
            r@ == Seq::<u8>::empty(),
            r.bound() == capacity as nat,
            r.wf(),
    {
        DispatchQueue { pending: Vec::new(), capacity }
    }

    /// Queues the increment of `category` if there is room, without waiting
    /// either way; the result says whether it was queued.
    pub fn submit(&mut self, category: u8) -> (accepted: bool)
        requires
            old(self).wf(),
        ensures
            accepted == (old(self)@.len() < old(self).bound()),
            final(self)@ == if accepted {
                old(self)@.push(category)
            } else {
                old(self)@
            },
            final(self).bound() == old(self).bound(),
            final(self).wf(),
    {
        if self.pending.len() < self.capacity {
            self.pending.push(category);
            true
        } else {
            false
        }
    }

    /// Hands the oldest queued write to a worker, if any is waiting.
    pub fn take(&mut self) -> (r: Option<u8>)
        requires
            old(self).wf(),
        ensures
            old(self)@.len() == 0 ==> r is None && final(self)@ == old(self)@,
            old(self)@.len() > 0 ==> r == Some(old(self)@[0]) && final(self)@ == old(self)@.drop_first(),
            final(self).bound() == old(self).bound(),
            final(self).wf(),
    {
        if self.pending.len() == 0 {
            None
        } else {
            Some(self.pending.remove(0))
        }
    }

    /// How many writes are waiting.
    pub fn len(&self) -> (r: usize)
        ensures
            r == self@.len(),
    {
        self.pending.len()
    }

    pub fn is_empty(&self) -> (r: bool)
        ensures
            r == (self@.len() == 0),
    {
        self.pending.len() == 0
    }
}

} // verus!
