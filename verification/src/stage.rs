//! The stages over the real substrate: crossbeam's bounded channels carry the
//! pool buffers between the threads, a xorshift generator seeded from the
//! operating system's entropy source supplies the raw bytes, and the writer
//! delivers each filled buffer to an abstract sink. Each function here is one
//! iteration of a stage's unbounded loop; the caller loops (and may yield the
//! scheduler between iterations), so a disconnection — the only channel
//! failure — ends the loop.

use vstd::prelude::*;
use crate::buffer::{create_buffer, make_vec_len};
use crate::sink::{Sink, WriteError, write_full};
use crate::transform::u8_to_ascii;

verus! {

/// The fixed byte size of every circulating buffer.
pub const BUFFER_SIZE: usize = 65536;

/// How many buffers each reserved processing unit contributes to the pool.
pub const BUFFERS_PER_CPU: usize = 2;

/// The most processing units the pipeline will occupy.
pub const MAX_CPUS: usize = 4;

#[verifier::external_type_specification]
#[verifier::external_body]
#[verifier::reject_recursive_types(T)]
pub struct ExSender<T>(crossbeam_channel::Sender<T>);

#[verifier::external_type_specification]
#[verifier::external_body]
#[verifier::reject_recursive_types(T)]
pub struct ExReceiver<T>(crossbeam_channel::Receiver<T>);

#[verifier::external_type_specification]
#[verifier::external_body]
pub struct ExXorShiftRng(rand_xorshift::XorShiftRng);

/// Relies on crossbeam_channel::Sender::send: blocks while the channel is
/// full; fails only when the receiving side has disconnected, and the error
/// then carries the original message, which is handed back here.
#[verifier::external_body]
fn send_buffer(tx: &crossbeam_channel::Sender<Vec<u8>>, buf: Vec<u8>) -> (r: Result<(), Vec<u8>>)
    ensures
        r matches Err(b) ==> b@ == buf@,
{
    tx.send(buf).map_err(|e| e.0)
}

/// Relies on crossbeam_channel::Receiver::recv: blocks until a message is
/// ready; fails only when the channel is empty and the sending side has
/// disconnected.
#[verifier::external_body]
fn recv_buffer(rx: &crossbeam_channel::Receiver<Vec<u8>>) -> (r: Option<Vec<u8>>) {
    rx.recv().ok()
}

/// Relies on rand::rngs::OsRng, the operating system's entropy source: one
/// unpredictable 64-bit seed per call, nothing promisable about its value.
/// Panics if the entropy source itself fails, which the design treats as
/// fatal for the stage that was starting.
#[verifier::external_body]
fn os_seed() -> u64 {
    rand::Rng::gen(&mut rand::rngs::OsRng)
}

/// Relies on rand::SeedableRng::seed_from_u64 for rand_xorshift::XorShiftRng:
/// builds a generator state from one 64-bit seed.
#[verifier::external_body]
fn seed_generator(seed: u64) -> rand_xorshift::XorShiftRng {
    <rand_xorshift::XorShiftRng as rand::SeedableRng>::seed_from_u64(seed)
}

/// Relies on rand::RngCore::fill_bytes for rand_xorshift::XorShiftRng: every
/// byte of the slice is overwritten with pseudo-random data; the length of
/// the buffer cannot change through the slice.
#[verifier::external_body]
fn fill_random(rng: &mut rand_xorshift::XorShiftRng, buf: &mut Vec<u8>)
    ensures
        final(buf)@.len() == old(buf)@.len(),
{
    rand::RngCore::fill_bytes(rng, buf.as_mut_slice())
}

/// Relies on num_cpus::get, whose documentation promises it always returns at
/// least 1.
#[verifier::external_body]
fn cpu_count() -> (r: usize)
    ensures
        r >= 1,
{
    num_cpus::get()
}

/// A fresh generator state, seeded once from the operating system's entropy
/// source; each generator instance gets its own, so streams are uncorrelated.
pub fn new_generator() -> rand_xorshift::XorShiftRng {
    let seed = os_seed();
    seed_generator(seed)
}

/// How the pipeline is laid across the machine.
pub struct PipelineLayout {
    /// Processing units occupied, capped so the pipeline does not take the
    /// whole machine.
    pub cpu_amount: usize,
    /// Total buffers in circulation: a fixed share per occupied unit.
    pub buffer_amount: usize,
    /// Concurrent generator instances; one unit stays reserved for the
    /// writer, and at most one generator runs.
    pub generator_amount: usize,
}

/// The sizing rule applied to a machine with `cpus` processing units.
pub fn plan_layout(cpus: usize) -> (l: PipelineLayout)
    requires
        cpus >= 1,
    ensures
        l.cpu_amount == if cpus < MAX_CPUS { cpus as int } else { MAX_CPUS as int },
        1 <= l.cpu_amount <= MAX_CPUS,
        l.buffer_amount == l.cpu_amount * BUFFERS_PER_CPU,
        l.generator_amount == if l.cpu_amount - 1 < 1 { l.cpu_amount - 1 } else { 1int },
        l.generator_amount <= 1,
{
    let cpu_amount = if cpus < MAX_CPUS { cpus } else { MAX_CPUS };
    let buffer_amount = cpu_amount * BUFFERS_PER_CPU;
    let reserve = cpu_amount - 1;
    let generator_amount = if reserve < 1 { reserve } else { 1 };
    PipelineLayout { cpu_amount, buffer_amount, generator_amount }
}

/// The layout for this machine, from the detected number of processing units.
pub fn plan_pipeline() -> (l: PipelineLayout)
    ensures
        1 <= l.cpu_amount <= MAX_CPUS,
        l.buffer_amount == l.cpu_amount * BUFFERS_PER_CPU,
        l.generator_amount <= 1,
{
    let cpus = cpu_count();
    plan_layout(cpus)
}

/// Startup seeding over the real substrate: sends `buffer_amount` fresh
/// default-initialized buffers of `buffer_size` bytes into the empty-buffer
/// channel. Fails only if the receiving side has already disconnected.
pub fn create_initial_buffers(
    buf_tx: &crossbeam_channel::Sender<Vec<u8>>,
    buffer_amount: usize,
    buffer_size: usize,
) -> (r: Result<(), ()>) {
    let mut i: usize = 0;
    while i < buffer_amount
        decreases buffer_amount - i,
    {
        let buf = create_buffer(buffer_size);
        match send_buffer(buf_tx, buf) {
            Ok(()) => {},
            Err(_) => {
                return Err(());
            },
        }
        i = i + 1;
    }
    Ok(())
}

/// One generator iteration over the real substrate: wait for an empty buffer,
/// grow it to full size if it ever arrived short, overwrite it with
/// pseudo-random bytes, map them into the printable alphabet in place, and
/// submit it. Returns `false` when a channel has disconnected — the pipeline
/// is shutting down and the caller's loop ends.
pub fn generate_ascii(
    buf_rx: &crossbeam_channel::Receiver<Vec<u8>>,
    ascii_tx: &crossbeam_channel::Sender<Vec<u8>>,
    rng: &mut rand_xorshift::XorShiftRng,
) -> (r: bool) {
    match recv_buffer(buf_rx) {
        None => false,
        Some(mut buf) => {
            make_vec_len(&mut buf, BUFFER_SIZE);
            fill_random(rng, &mut buf);
            u8_to_ascii(&mut buf);
            match send_buffer(ascii_tx, buf) {
                Ok(()) => true,
                Err(_) => false,
            }
        },
    }
}

/// One writer iteration over the real substrate: wait for a filled buffer,
/// deliver every one of its bytes to the sink in order, and hand the buffer
/// back for reuse. `Ok(false)` when the filled channel has disconnected;
/// a sink error is surfaced at once and never retried. A whole buffer is
/// delivered contiguously before the next one is considered.
pub fn output_ascii<S: Sink>(
    ascii_rx: &crossbeam_channel::Receiver<Vec<u8>>,
    buf_tx: &crossbeam_channel::Sender<Vec<u8>>,
    sink: &mut S,
) -> (r: Result<bool, WriteError>)
    ensures
        r == Ok::<bool, WriteError>(false) ==> final(sink).delivered() == old(sink).delivered(),
        r == Ok::<bool, WriteError>(true) ==> exists|b: Seq<u8>|
            final(sink).delivered() == old(sink).delivered() + b,
        old(sink).reliable() ==> r is Ok && final(sink).reliable(),
{
    match recv_buffer(ascii_rx) {
        None => Ok(false),
        Some(buf) => {
            match write_full(sink, &buf) {
                Ok(()) => {
                    // The bytes are delivered either way; if the pool channel
                    // has disconnected, the next receive reports the shutdown.
                    let _ = send_buffer(buf_tx, buf);
                    Ok(true)
                },
                Err(e) => Err(e),
            }
        },
    }
}

} // verus!
