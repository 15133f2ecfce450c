//! The coordinator: the pair of bounded channels through which a fixed pool of
//! buffers circulates between the generator and the writer, together with one
//! step of each stage. The model is substrate-agnostic: an operation that a
//! blocking substrate would suspend on reports so and changes nothing, so the
//! suspension points of the protocol are exactly visible in the contracts.

use vstd::prelude::*;
use vstd::seq_lib::lemma_flatten_concat;
use crate::buffer::{all_zero, create_buffer, fill_from, make_vec_len};
use crate::channel::BoundedChannel;
use crate::sink::{Sink, WriteError, write_full};
use crate::transform::{all_printable, lemma_transform_printable, transform_seq, u8_to_ascii};

verus! {

/// The buffer pool and its two bounded channels. Buffers only ever move
/// between the empty channel, the filled channel, and the hands of a stage.
pub struct Pipeline {
    empty_channel: BoundedChannel,
    filled_channel: BoundedChannel,
    buffer_size: usize,
    pool_size: usize,
    held: usize,
}

impl Pipeline {
    /// The buffers queued in the empty channel, oldest first.
    pub closed spec fn empty_contents(self) -> Seq<Seq<u8>> {
        self.empty_channel.contents()
    }

    /// The buffers queued in the filled channel, oldest first.
    pub closed spec fn filled_contents(self) -> Seq<Seq<u8>> {
        self.filled_channel.contents()
    }

    /// The fixed byte size every circulating buffer has.
    pub closed spec fn buffer_size(self) -> nat {
        self.buffer_size as nat
    }

    /// The configured number of buffers in circulation.
    pub closed spec fn pool_size(self) -> nat {
        self.pool_size as nat
    }

    /// How many buffers a stage has taken out and not yet handed back.
    pub closed spec fn held(self) -> nat {
        self.held as nat
    }

    /// The pool invariant: both channels carry the configured capacity, the
    /// buffers in flight add up to the pool size, every circulating buffer is
    /// full-sized, and a buffer in the filled channel is already transformed
    /// into the output alphabet.
    pub closed spec fn well_formed(self) -> bool {
        &&& self.empty_channel.well_formed()
        &&& self.filled_channel.well_formed()
        &&& self.empty_channel.cap() == self.pool_size
        &&& self.filled_channel.cap() == self.pool_size
        &&& self.empty_channel.contents().len() + self.filled_channel.contents().len()
            + self.held == self.pool_size
        &&& forall|i: int|
            0 <= i < self.empty_channel.contents().len() ==> (
            #[trigger] self.empty_channel.contents()[i]).len() == self.buffer_size
        &&& forall|i: int|
            0 <= i < self.filled_channel.contents().len() ==> (
            #[trigger] self.filled_channel.contents()[i]).len() == self.buffer_size
                && all_printable(self.filled_channel.contents()[i])
    }

    /// Startup seeding: the empty channel holds exactly `pool_size` buffers of
    /// `buffer_size` bytes each, all default-initialized; the filled channel is
    /// empty and no stage holds anything. No allocation happens after this.
    pub fn new(pool_size: usize, buffer_size: usize) -> (p: Pipeline)
        ensures
            p.well_formed(),
            p.pool_size() == pool_size,
            p.buffer_size() == buffer_size,
            p.held() == 0,
            p.filled_contents().len() == 0,
            p.empty_contents().len() == pool_size,
            forall|i: int|
                0 <= i < pool_size ==> (#[trigger] p.empty_contents()[i]).len() == buffer_size
                    && all_zero(p.empty_contents()[i]),
    {
        let mut empty_channel = BoundedChannel::new(pool_size);
        let filled_channel = BoundedChannel::new(pool_size);
        let mut i: usize = 0;
        while i < pool_size
            invariant
                i <= pool_size,
                empty_channel.well_formed(),
                empty_channel.cap() == pool_size,
                empty_channel.contents().len() == i,
                forall|j: int|
                    0 <= j < i ==> (#[trigger] empty_channel.contents()[j]).len() == buffer_size
                        && all_zero(empty_channel.contents()[j]),
            decreases pool_size - i,
        {
            let buf = create_buffer(buffer_size);
            match empty_channel.send(buf) {
                Ok(()) => {},
                Err(_) => {
                    proof {
                        assert(false);
                    }
                },
            }
            i = i + 1;
        }
        Pipeline { empty_channel, filled_channel, buffer_size, pool_size, held: 0 }
    }

    /// Take the oldest empty buffer; `None`, changing nothing, exactly when no
    /// empty buffer is ready — where a blocking generator would suspend. The
    /// buffer handed out is always full-sized.
    pub fn acquire_empty(&mut self) -> (r: Option<Vec<u8>>)
        requires
            old(self).well_formed(),
        ensures
            final(self).well_formed(),
            final(self).pool_size() == old(self).pool_size(),
            final(self).buffer_size() == old(self).buffer_size(),
            final(self).filled_contents() == old(self).filled_contents(),
            old(self).empty_contents().len() == 0 ==> r is None && *final(self) == *old(self),
            old(self).empty_contents().len() > 0 ==> {
                &&& (r matches Some(b) && b@ == old(self).empty_contents()[0] && b@.len() == old(
                    self,
                ).buffer_size())
                &&& final(self).empty_contents() == old(self).empty_contents().drop_first()
                &&& final(self).held() == old(self).held() + 1
            },
    {
        match self.empty_channel.recv() {
            None => None,
            Some(b) => {
                self.held = self.held + 1;
                Some(b)
            },
        }
    }

    /// Hand a filled, transformed buffer to the writer's channel. A stage that
    /// holds a pool buffer can always submit it: conservation keeps a slot
    /// free, so the bounded send is never rejected here.
    pub fn submit_filled(&mut self, buf: Vec<u8>)
        requires
            old(self).well_formed(),
            old(self).held() >= 1,
            buf@.len() == old(self).buffer_size(),
            all_printable(buf@),
        ensures
            final(self).well_formed(),
            final(self).pool_size() == old(self).pool_size(),
            final(self).buffer_size() == old(self).buffer_size(),
            final(self).empty_contents() == old(self).empty_contents(),
            final(self).filled_contents() == old(self).filled_contents().push(buf@),
            final(self).held() == old(self).held() - 1,
    {
        match self.filled_channel.send(buf) {
            Ok(()) => {
                self.held = self.held - 1;
            },
            Err(_) => {
                proof {
                    assert(false);
                }
            },
        }
    }

    /// Take the oldest filled buffer; `None`, changing nothing, exactly when no
    /// filled buffer is ready — where the blocking writer would suspend. The
    /// buffer is full-sized and already inside the output alphabet.
    pub fn acquire_filled(&mut self) -> (r: Option<Vec<u8>>)
        requires
            old(self).well_formed(),
        ensures
            final(self).well_formed(),
            final(self).pool_size() == old(self).pool_size(),
            final(self).buffer_size() == old(self).buffer_size(),
            final(self).empty_contents() == old(self).empty_contents(),
            old(self).filled_contents().len() == 0 ==> r is None && *final(self) == *old(self),
            old(self).filled_contents().len() > 0 ==> {
                &&& (r matches Some(b) && b@ == old(self).filled_contents()[0] && b@.len() == old(
                    self,
                ).buffer_size() && all_printable(b@))
                &&& final(self).filled_contents() == old(self).filled_contents().drop_first()
                &&& final(self).held() == old(self).held() + 1
            },
    {
        match self.filled_channel.recv() {
            None => None,
            Some(b) => {
                self.held = self.held + 1;
                Some(b)
            },
        }
    }

    /// Return a delivered buffer to the pool for reuse; like submission, this
    /// can never be rejected while conservation holds.
    pub fn return_empty(&mut self, buf: Vec<u8>)
        requires
            old(self).well_formed(),
            old(self).held() >= 1,
            buf@.len() == old(self).buffer_size(),
        ensures
            final(self).well_formed(),
            final(self).pool_size() == old(self).pool_size(),
            final(self).buffer_size() == old(self).buffer_size(),
            final(self).filled_contents() == old(self).filled_contents(),
            final(self).empty_contents() == old(self).empty_contents().push(buf@),
            final(self).held() == old(self).held() - 1,
    {
        match self.empty_channel.send(buf) {
            Ok(()) => {
                self.held = self.held - 1;
            },
            Err(_) => {
                proof {
                    assert(false);
                }
            },
        }
    }

    /// How many buffers the empty channel holds.
    pub fn empty_len(&self) -> (n: usize)
        ensures
            n == self.empty_contents().len(),
    {
        self.empty_channel.len()
    }

    /// How many buffers the filled channel holds.
    pub fn filled_len(&self) -> (n: usize)
        ensures
            n == self.filled_contents().len(),
    {
        self.filled_channel.len()
    }

    /// How many buffers the stages currently hold.
    pub fn held_count(&self) -> (n: usize)
        ensures
            n == self.held(),
    {
        self.held
    }

    /// One generator iteration: take an empty buffer, overwrite it with the
    /// given raw bytes — the pseudo-random input, supplied by the caller so
    /// that the step is specified for every possible draw — map them into the
    /// printable alphabet in place, and submit the result. Returns `false`,
    /// changing nothing, exactly when no empty buffer is ready: the point
    /// where a blocking generator suspends until the writer returns a buffer.
    pub fn generator_step(&mut self, raw: &Vec<u8>) -> (progressed: bool)
        requires
            old(self).well_formed(),
            raw@.len() == old(self).buffer_size(),
        ensures
            final(self).well_formed(),
            final(self).pool_size() == old(self).pool_size(),
            final(self).buffer_size() == old(self).buffer_size(),
            final(self).held() == old(self).held(),
            progressed == (old(self).empty_contents().len() > 0),
            !progressed ==> *final(self) == *old(self),
            progressed ==> {
                &&& final(self).empty_contents() == old(self).empty_contents().drop_first()
                &&& final(self).filled_contents() == old(self).filled_contents().push(
                    transform_seq(raw@),
                )
            },
    {
        let buffer_size = self.buffer_size;
        match self.acquire_empty() {
            None => false,
            Some(mut buf) => {
                make_vec_len(&mut buf, buffer_size);
                fill_from(&mut buf, raw);
                u8_to_ascii(&mut buf);
                proof {
                    lemma_transform_printable(raw@);
                }
                self.submit_filled(buf);
                true
            },
        }
    }

    /// One writer iteration: take the oldest filled buffer, deliver every one
    /// of its bytes to the sink in order, and return the buffer to the pool.
    /// `Ok(false)`, changing nothing, exactly when no filled buffer is ready —
    /// where the blocking writer suspends. A sink error is surfaced at once,
    /// never retried; the pipeline is expected to stop, and the buffer stays
    /// with the writer, abandoned in flight.
    pub fn writer_step<S: Sink>(&mut self, sink: &mut S) -> (r: Result<bool, WriteError>)
        requires
            old(self).well_formed(),
        ensures
            final(self).well_formed(),
            final(self).pool_size() == old(self).pool_size(),
            final(self).buffer_size() == old(self).buffer_size(),
            old(self).filled_contents().len() == 0 ==> r == Ok::<bool, WriteError>(false)
                && *final(self) == *old(self) && final(sink).delivered() == old(sink).delivered(),
            old(self).filled_contents().len() > 0 ==> r != Ok::<bool, WriteError>(false),
            old(self).filled_contents().len() > 0 && old(sink).reliable() ==> r == Ok::<
                bool,
                WriteError,
            >(true),
            old(sink).reliable() ==> final(sink).reliable(),
            r == Ok::<bool, WriteError>(true) ==> {
                &&& final(sink).delivered() == old(sink).delivered() + old(
                    self,
                ).filled_contents()[0]
                &&& final(self).filled_contents() == old(self).filled_contents().drop_first()
                &&& final(self).empty_contents() == old(self).empty_contents().push(
                    old(self).filled_contents()[0],
                )
                &&& final(self).held() == old(self).held()
            },
            r is Err ==> {
                &&& final(self).filled_contents() == old(self).filled_contents().drop_first()
                &&& final(self).empty_contents() == old(self).empty_contents()
                &&& final(self).held() == old(self).held() + 1
                &&& exists|k: int|
                    0 <= k <= old(self).filled_contents()[0].len() && final(sink).delivered()
                        == old(sink).delivered() + old(self).filled_contents()[0].subrange(0, k)
            },
    {
        match self.acquire_filled() {
            None => Ok(false),
            Some(buf) => {
                match write_full(sink, &buf) {
                    Ok(()) => {
                        self.return_empty(buf);
                        Ok(true)
                    },
                    Err(e) => Err(e),
                }
            },
        }
    }
}

/// Conservation: at every instant the buffers queued in the two channels plus
/// those held by a stage add up to the configured pool size; no buffer is
/// created or lost after startup.
pub proof fn lemma_conservation(p: Pipeline)
    requires
        p.well_formed(),
    ensures
        p.empty_contents().len() + p.filled_contents().len() + p.held() == p.pool_size(),
{
}

/// No unbounded growth: neither channel's occupancy ever exceeds the pool
/// size, which is each channel's fixed capacity.
pub proof fn lemma_bounded_occupancy(p: Pipeline)
    requires
        p.well_formed(),
    ensures
        p.empty_contents().len() <= p.pool_size(),
        p.filled_contents().len() <= p.pool_size(),
{
}

/// Backpressure: when the writer makes no progress, the generator can take at
/// most the buffers initially ready in the empty channel before its next
/// acquisition reports that it must suspend.
pub proof fn lemma_backpressure(p: Pipeline)
    requires
        p.well_formed(),
        p.held() == 0,
        p.filled_contents().len() == p.pool_size(),
    ensures
        p.empty_contents().len() == 0,
{
}

/// Order preservation: a sink that holds, in order, the flattening of a
/// history of whole buffers holds, after one more whole buffer, the
/// flattening of that history extended by that buffer. Together with the
/// writer-step contract this says the sink sees the direct concatenation of
/// the filled buffers in the order the generator submitted them.
pub proof fn lemma_order_preservation(delivered: Seq<u8>, history: Seq<Seq<u8>>, b: Seq<u8>)
    requires
        delivered == history.flatten(),
    ensures
        delivered + b == history.push(b).flatten(),
{
    assert(history.push(b) =~= history + seq![b]);
    lemma_flatten_concat(history, seq![b]);
    seq![b].lemma_flatten_one_element();
    assert(history.push(b).flatten() =~= delivered + b);
}

} // verus!
