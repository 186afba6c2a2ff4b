//! A bounded, first-in-first-out event queue.
//!
//! This is the model of the producer-to-coordinator channel: capacity-bounded,
//! order-preserving, and lossless for every value it has accepted. A send
//! against a full queue is refused and the value dropped, mirroring the
//! fire-and-forget send policy of the producers; a receive yields exactly the
//! oldest accepted value.

use vstd::prelude::*;

verus! {

/// A bounded FIFO queue of events.
pub struct EventQueue<T> {
    buf: Vec<T>,
    cap: usize,
}

impl<T> EventQueue<T> {
    /// The pending events, oldest first.
    pub closed spec fn view(&self) -> Seq<T> {
        self.buf@
    }

    /// The fixed capacity the queue was created with.
    pub closed spec fn capacity(&self) -> nat {
        self.cap as nat
    }

    /// The queue never holds more than its capacity.
    pub closed spec fn wf(&self) -> bool {
        self.buf@.len() <= self.cap
    }

    /// A well-formed queue holds at most its capacity.
    pub proof fn lemma_wf_len(&self)
        requires
            self.wf(),
        ensures
            self@.len() <= self.capacity(),
    {
    }

    /// An empty queue with the given capacity.
    pub fn new(capacity: usize) -> (q: EventQueue<T>)
        ensures
            q.wf(),
            q@ == Seq::<T>::empty(),
            q.capacity() == capacity,
    {
        EventQueue { buf: Vec::new(), cap: capacity }
    }

    /// How many events are pending.
    pub fn len(&self) -> (n: usize)
        ensures
            n == self@.len(),
    {
        self.buf.len()
    }

    /// Accept `value` at the back if there is room; refuse (and drop it)
    /// otherwise. Returns whether the value was accepted.
    pub fn send(&mut self, value: T) -> (accepted: bool)
        requires
            old(self).wf(),
        ensures
            final(self).wf(),
            final(self).capacity() == old(self).capacity(),
            accepted == (old(self)@.len() < old(self).capacity()),
            accepted ==> final(self)@ == old(self)@.push(value),
            !accepted ==> final(self)@ == old(self)@,
    {
        if self.buf.len() < self.cap {
            self.buf.push(value);
            true
        } else {
            false
        }
    }

    /// Take the oldest pending event, if any.
    pub fn recv(&mut self) -> (r: Option<T>)
        requires
            old(self).wf(),
        ensures
            final(self).wf(),
            final(self).capacity() == old(self).capacity(),
            old(self)@.len() == 0 ==> (r is None && final(self)@ == old(self)@),
            old(self)@.len() > 0 ==> (r == Some(old(self)@[0]) && final(self)@ == old(self)@.drop_first()),
    {
        if self.buf.len() > 0 {
            let v = self.buf.remove(0);
            proof {
                assert(self.buf@ =~= old(self).buf@.drop_first());
            }
            Some(v)
        } else {
            None
        }
    }

    /// Drain the queue: every accepted event comes back out, exactly once and
    /// in the order it was accepted.
    pub fn drain(&mut self) -> (out: Vec<T>)
        requires
            old(self).wf(),
        ensures
            final(self).wf(),
            final(self).capacity() == old(self).capacity(),
            out@ == old(self)@,
            final(self)@ == Seq::<T>::empty(),
    {
        let mut out: Vec<T> = Vec::new();
        loop
            invariant
                self.wf(),
                self.capacity() == old(self).capacity(),
                out@ + self@ == old(self)@,
            ensures
                self.wf(),
                self.capacity() == old(self).capacity(),
                out@ == old(self)@,
                self@.len() == 0,
            decreases self@.len(),
        {
            match self.recv() {
                Some(v) => {
                    out.push(v);
                    proof {
                        assert(out@ + self@ =~= old(self)@);
                    }
                }
                None => {
                    proof {
                        assert(out@ =~= out@ + self@);
                    }
                    break;
                }
            }
        }
        proof {
            assert(self@ =~= Seq::<T>::empty());
        }
        out
    }
}

} // verus!
