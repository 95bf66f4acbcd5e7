//! The bounded FIFO of intents between the producers and the worker.

use vstd::prelude::*;

use crate::intent::Intent;

verus! {

/// Why a submission was refused. Refusals are recoverable for the producers —
/// they log and drop — and never block the render path.
#[derive(Clone, Copy, PartialEq, Eq, Structural, Debug)]
pub enum SubmitError {
    /// The queue already holds `capacity` intents.
    Full,
    /// The queue was closed for shutdown.
    Closed,
}

/// A bounded, ordered queue of intents. Producers submit at the back, the one
/// worker pops from the front: intents come out strictly in submission order,
/// with no reordering and no deduplication.
pub struct CommandQueue {
    items: Vec<Intent>,
    capacity: usize,
    closed: bool,
}

impl CommandQueue {
    /// The pending intents, oldest first.
    pub closed spec fn spec_items(&self) -> Seq<Intent> {
        self.items@
    }

    /// The bound the queue was created with.
    pub closed spec fn spec_capacity(&self) -> int {
        self.capacity as int
    }

    /// Whether the queue was closed for shutdown.
    pub closed spec fn spec_closed(&self) -> bool {
        self.closed
    }

    /// The queue never holds more than its capacity.
    pub open spec fn wf(&self) -> bool {
        self.spec_items().len() <= self.spec_capacity()
    }

    /// An empty, open queue with the given bound.
    pub fn new(capacity: usize) -> (q: CommandQueue)
        ensures
            q.spec_items() == Seq::<Intent>::empty(),
            q.spec_capacity() == capacity as int,
            !q.spec_closed(),
            q.wf(),
    {
        CommandQueue { items: Vec::new(), capacity, closed: false }
    }

    /// Non-blocking submission at the back. A full or closed queue refuses
    /// the intent and is left exactly as it was; the caller logs and drops.
    pub fn submit(&mut self, intent: Intent) -> (r: Result<(), SubmitError>)
        ensures
            old(self).spec_closed() ==> r == Err::<(), SubmitError>(SubmitError::Closed),
            !old(self).spec_closed() && old(self).spec_items().len() >= old(self).spec_capacity()
                ==> r == Err::<(), SubmitError>(SubmitError::Full),
            r is Ok <==> !old(self).spec_closed() && old(self).spec_items().len()
                < old(self).spec_capacity(),
            r is Ok ==> final(self).spec_items() == old(self).spec_items().push(intent),
            r is Err ==> final(self).spec_items() == old(self).spec_items(),
            final(self).spec_capacity() == old(self).spec_capacity(),
            final(self).spec_closed() == old(self).spec_closed(),
            old(self).wf() ==> final(self).wf(),
    {
        if self.closed {
            Err(SubmitError::Closed)
        } else if self.items.len() >= self.capacity {
            Err(SubmitError::Full)
        } else {
            self.items.push(intent);
            Ok(())
        }
    }

    /// Take the oldest pending intent, if any. Only the worker calls this.
    pub fn pop(&mut self) -> (r: Option<Intent>)
        ensures
            old(self).spec_items().len() == 0 ==> r is None,
            old(self).spec_items().len() == 0 ==> final(self).spec_items()
                == old(self).spec_items(),
            old(self).spec_items().len() > 0 ==> r == Some(old(self).spec_items()[0]),
            old(self).spec_items().len() > 0 ==> final(self).spec_items()
                == old(self).spec_items().drop_first(),
            final(self).spec_capacity() == old(self).spec_capacity(),
            final(self).spec_closed() == old(self).spec_closed(),
            old(self).wf() ==> final(self).wf(),
    {
        if self.items.len() == 0 {
            None
        } else {
            let intent = self.items.remove(0);
            proof {
                assert(old(self).spec_items().remove(0) =~= old(self).spec_items().drop_first());
            }
            Some(intent)
        }
    }

    /// Close the queue: every later submission fails, and a drained, closed
    /// queue is the worker's signal to stop.
    pub fn close(&mut self)
        ensures
            final(self).spec_closed(),
            final(self).spec_items() == old(self).spec_items(),
            final(self).spec_capacity() == old(self).spec_capacity(),
    {
        self.closed = true;
    }

    /// How many intents are pending.
    pub fn len(&self) -> (n: usize)
        ensures
            n == self.spec_items().len(),
    {
        self.items.len()
    }

    pub fn is_closed(&self) -> (b: bool)
        ensures
            b == self.spec_closed(),
    {
        self.closed
    }

    pub fn capacity(&self) -> (c: usize)
        ensures
            c as int == self.spec_capacity(),
    {
        self.capacity
    }
}

} // verus!
