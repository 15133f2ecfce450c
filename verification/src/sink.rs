//! The abstract output sink the writer stage delivers buffers to, and the
//! partial-write loop that guarantees every byte of a buffer reaches it.

use vstd::prelude::*;

verus! {

/// Why a full write ended early.
#[derive(Clone, Copy, Debug, PartialEq, Eq, Structural)]
pub enum WriteError {
    /// The sink reported a failure (for example a broken pipe); fatal for the
    /// pipeline, never retried.
    SinkFailed,
    /// The sink accepted zero bytes, so the write loop could make no progress.
    ZeroWrite,
}

/// An abstract writable destination. A call may accept fewer bytes than
/// offered; the caller loops. `delivered` is the sink's whole history: every
/// byte it has accepted, in order.
pub trait Sink {
    /// All bytes the sink has accepted so far, in order.
    spec fn delivered(&self) -> Seq<u8>;

    /// Whether the sink is sure to make progress: a reliable sink never
    /// fails, accepts at least one byte of any nonempty offer, and stays
    /// reliable.
    spec fn reliable(&self) -> bool;

    /// Offer `data[offset..]`; the sink accepts some prefix of it and reports
    /// how long that prefix was. A failing call accepts nothing.
    fn write(&mut self, data: &Vec<u8>, offset: usize) -> (r: Result<usize, ()>)
        requires
            offset <= data@.len(),
        ensures
            match r {
                Ok(n) => {
                    &&& offset + n <= data@.len()
                    &&& final(self).delivered() == old(self).delivered() + data@.subrange(
                        offset as int,
                        offset + n,
                    )
                },
                Err(_) => final(self).delivered() == old(self).delivered(),
            },
            old(self).reliable() ==> final(self).reliable(),
            old(self).reliable() ==> (r matches Ok(n) && (offset < data@.len() ==> n >= 1)),
    ;
}

/// Write completeness: on success, every byte of the buffer has been
/// delivered to the sink exactly once and in order, however short the sink's
/// individual writes were. On failure, exactly some prefix of the buffer was
/// delivered.
pub fn write_full<S: Sink>(sink: &mut S, data: &Vec<u8>) -> (r: Result<(), WriteError>)
    ensures
        r is Ok ==> final(sink).delivered() == old(sink).delivered() + data@,
        r is Err ==> exists|k: int|
            0 <= k <= data@.len() && final(sink).delivered() == old(sink).delivered()
                + data@.subrange(0, k),
        old(sink).reliable() ==> r is Ok && final(sink).reliable(),
{
    let mut offset: usize = 0;
    proof {
        assert(sink.delivered() =~= old(sink).delivered() + data@.subrange(0, 0));
    }
    while offset < data.len()
        invariant
            offset <= data@.len(),
            sink.delivered() == old(sink).delivered() + data@.subrange(0, offset as int),
            old(sink).reliable() ==> sink.reliable(),
        decreases data@.len() - offset,
    {
        match sink.write(data, offset) {
            Ok(n) => {
                if n == 0 {
                    proof {
                        assert(sink.delivered() =~= old(sink).delivered() + data@.subrange(
                            0,
                            offset as int,
                        ));
                    }
                    return Err(WriteError::ZeroWrite);
                }
                proof {
                    assert(old(sink).delivered() + data@.subrange(0, offset as int) + data@.subrange(
                        offset as int,
                        offset + n,
                    ) =~= old(sink).delivered() + data@.subrange(0, offset + n));
                }
                offset = offset + n;
            },
            Err(_) => {
                return Err(WriteError::SinkFailed);
            },
        }
    }
    proof {
        assert(data@.subrange(0, data@.len() as int) =~= data@);
    }
    Ok(())
}

/// A sink that appends into a vector, accepting at most `max_per_write` bytes
/// per call: short writes become observable, and a zero limit models a sink
/// that stalls without accepting anything.
pub struct VecSink {
    /// Every byte accepted so far, in order.
    pub data: Vec<u8>,
    /// The most bytes one `write` call will accept.
    pub max_per_write: usize,
}

impl Sink for VecSink {
    open spec fn delivered(&self) -> Seq<u8> {
        self.data@
    }

    open spec fn reliable(&self) -> bool {
        self.max_per_write >= 1
    }

    fn write(&mut self, data: &Vec<u8>, offset: usize) -> (r: Result<usize, ()>) {
        let len = data.len();
        let remaining = len - offset;
        let n = if remaining < self.max_per_write {
            remaining
        } else {
            self.max_per_write
        };
        let mut i: usize = 0;
        proof {
            assert(self.data@ =~= old(self).data@ + data@.subrange(offset as int, offset as int));
        }
        while i < n
            invariant
                i <= n,
                len == data@.len(),
                offset + n <= len,
                self.data@ == old(self).data@ + data@.subrange(offset as int, offset + i),
                self.max_per_write == old(self).max_per_write,
            decreases n - i,
        {
            let b = data[offset + i];
            self.data.push(b);
            proof {
                assert(old(self).data@ + data@.subrange(offset as int, offset + i) + seq![b]
                    =~= old(self).data@ + data@.subrange(offset as int, offset + i + 1));
            }
            i = i + 1;
        }
        Ok(n)
    }
}

/// A sink whose every write fails — the shape of a pipe already broken. It
/// never accepts a byte.
pub struct BrokenSink {
}

impl Sink for BrokenSink {
    open spec fn delivered(&self) -> Seq<u8> {
        Seq::empty()
    }

    open spec fn reliable(&self) -> bool {
        false
    }

    fn write(&mut self, data: &Vec<u8>, offset: usize) -> (r: Result<usize, ()>) {
        Err(())
    }
}

} // verus!
