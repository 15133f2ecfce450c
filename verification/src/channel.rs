//! A bounded FIFO channel of byte buffers: the substrate-agnostic model of the
//! two channels that carry buffers between the stages. Send and receive are
//! non-blocking here; a send that a blocking substrate would suspend is
//! rejected and hands the buffer back, so the caller sees exactly the point
//! where backpressure takes hold.

use vstd::prelude::*;

verus! {

/// A bounded FIFO queue of owned byte buffers.
pub struct BoundedChannel {
    buffers: Vec<Vec<u8>>,
    capacity: usize,
}

impl BoundedChannel {
    /// The queued buffers, oldest first.
    pub closed spec fn contents(self) -> Seq<Seq<u8>> {
        Seq::new(self.buffers@.len(), |i: int| self.buffers@[i]@)
    }

    /// The fixed capacity the channel was created with.
    pub closed spec fn cap(self) -> nat {
        self.capacity as nat
    }

    /// Occupancy never exceeds the fixed capacity.
    pub closed spec fn well_formed(self) -> bool {
        self.contents().len() <= self.cap()
    }

    /// An empty channel of the given capacity.
    pub fn new(capacity: usize) -> (c: Self)
        ensures
            c.contents() =~= Seq::<Seq<u8>>::empty(),
            c.cap() == capacity,
            c.well_formed(),
    {
        BoundedChannel { buffers: Vec::new(), capacity }
    }

    /// How many buffers are queued.
    pub fn len(&self) -> (n: usize)
        ensures
            n == self.contents().len(),
    {
        self.buffers.len()
    }

    /// The fixed capacity.
    pub fn capacity(&self) -> (n: usize)
        ensures
            n == self.cap(),
    {
        self.capacity
    }

    /// Bounded send: the buffer is queued behind all earlier ones exactly when
    /// the channel has a free slot; a full channel rejects the send and hands
    /// the buffer back unchanged, which is where a blocking substrate would
    /// suspend the sender.
    pub fn send(&mut self, buf: Vec<u8>) -> (r: Result<(), Vec<u8>>)
        requires
            old(self).well_formed(),
        ensures
            final(self).well_formed(),
            final(self).cap() == old(self).cap(),
            old(self).contents().len() < old(self).cap() ==> {
                &&& r is Ok
                &&& final(self).contents() == old(self).contents().push(buf@)
            },
            old(self).contents().len() >= old(self).cap() ==> {
                &&& (r matches Err(b) && b@ == buf@)
                &&& *final(self) == *old(self)
            },
    {
        if self.buffers.len() < self.capacity {
            self.buffers.push(buf);
            proof {
                assert(self.contents() =~= old(self).contents().push(buf@));
            }
            Ok(())
        } else {
            Err(buf)
        }
    }

    /// Receive: the oldest queued buffer, or `None` on an empty channel, which
    /// is where a blocking substrate would suspend the receiver.
    pub fn recv(&mut self) -> (r: Option<Vec<u8>>)
        requires
            old(self).well_formed(),
        ensures
            final(self).well_formed(),
            final(self).cap() == old(self).cap(),
            old(self).contents().len() == 0 ==> r is None && *final(self) == *old(self),
            old(self).contents().len() > 0 ==> {
                &&& (r matches Some(b) && b@ == old(self).contents()[0])
                &&& final(self).contents() == old(self).contents().drop_first()
            },
    {
        if self.buffers.len() == 0 {
            None
        } else {
            let buf = self.buffers.remove(0);
            proof {
                assert(self.contents() =~= old(self).contents().drop_first());
            }
            Some(buf)
        }
    }
}

/// No unbounded growth: a well-formed channel never holds more buffers than
/// its fixed capacity.
pub proof fn lemma_no_unbounded_growth(c: BoundedChannel)
    requires
        c.well_formed(),
    ensures
        c.contents().len() <= c.cap(),
{
}

} // verus!
