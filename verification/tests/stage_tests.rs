use ascii_pipeline::sink::{VecSink, WriteError};
use ascii_pipeline::stage::{
    BUFFER_SIZE, create_initial_buffers, generate_ascii, new_generator, output_ascii, plan_layout,
    plan_pipeline,
};

#[test]
fn one_full_cycle_over_the_real_channels() {
    let (ascii_tx, ascii_rx) = crossbeam_channel::bounded::<Vec<u8>>(2);
    let (buf_tx, buf_rx) = crossbeam_channel::bounded::<Vec<u8>>(2);
    assert_eq!(create_initial_buffers(&buf_tx, 2, BUFFER_SIZE), Ok(()));
    assert_eq!(buf_rx.len(), 2);

    let mut rng = new_generator();
    assert!(generate_ascii(&buf_rx, &ascii_tx, &mut rng));
    assert_eq!(buf_rx.len(), 1);
    assert_eq!(ascii_rx.len(), 1);

    let mut sink = VecSink { data: Vec::new(), max_per_write: 4096 };
    assert_eq!(output_ascii(&ascii_rx, &buf_tx, &mut sink), Ok(true));
    // The whole buffer reached the sink, transformed into the output alphabet.
    assert_eq!(sink.data.len(), BUFFER_SIZE);
    assert!(sink.data.iter().all(|b| (32..=124).contains(b)));
    // The random fill really happened: a buffer left untouched would have
    // been all zeroes and so all map to code 32.
    assert!(sink.data.iter().any(|b| *b != 32));
    // The buffer came back for reuse.
    assert_eq!(buf_rx.len(), 2);
    assert_eq!(ascii_rx.len(), 0);
}

#[test]
fn short_seeded_buffer_is_grown_to_full_size() {
    let (ascii_tx, ascii_rx) = crossbeam_channel::bounded::<Vec<u8>>(1);
    let (buf_tx, buf_rx) = crossbeam_channel::bounded::<Vec<u8>>(1);
    // Seed one undersized buffer: the generator's defensive resize restores
    // the full size before filling.
    assert_eq!(create_initial_buffers(&buf_tx, 1, 16), Ok(()));
    let mut rng = new_generator();
    assert!(generate_ascii(&buf_rx, &ascii_tx, &mut rng));
    let filled = ascii_rx.recv().unwrap();
    assert_eq!(filled.len(), BUFFER_SIZE);
    assert!(filled.iter().all(|b| (32..=124).contains(b)));
}

#[test]
fn generator_stops_when_the_pool_channel_disconnects() {
    let (ascii_tx, _ascii_rx) = crossbeam_channel::bounded::<Vec<u8>>(1);
    let (buf_tx, buf_rx) = crossbeam_channel::bounded::<Vec<u8>>(1);
    drop(buf_tx);
    let mut rng = new_generator();
    assert!(!generate_ascii(&buf_rx, &ascii_tx, &mut rng));
}

#[test]
fn writer_stops_when_the_filled_channel_disconnects() {
    let (ascii_tx, ascii_rx) = crossbeam_channel::bounded::<Vec<u8>>(1);
    let (buf_tx, _buf_rx) = crossbeam_channel::bounded::<Vec<u8>>(1);
    drop(ascii_tx);
    let mut sink = VecSink { data: Vec::new(), max_per_write: 8 };
    assert_eq!(output_ascii(&ascii_rx, &buf_tx, &mut sink), Ok(false));
    assert!(sink.data.is_empty());
}

#[test]
fn writer_surfaces_a_stalled_sink_over_the_real_channels() {
    let (ascii_tx, ascii_rx) = crossbeam_channel::bounded::<Vec<u8>>(1);
    let (buf_tx, _buf_rx) = crossbeam_channel::bounded::<Vec<u8>>(1);
    ascii_tx.send(vec![40u8; 8]).unwrap();
    let mut sink = VecSink { data: Vec::new(), max_per_write: 0 };
    assert_eq!(output_ascii(&ascii_rx, &buf_tx, &mut sink), Err(WriteError::ZeroWrite));
}

#[test]
fn seeding_fails_when_the_channel_is_disconnected() {
    let (buf_tx, buf_rx) = crossbeam_channel::bounded::<Vec<u8>>(4);
    drop(buf_rx);
    assert_eq!(create_initial_buffers(&buf_tx, 4, 8), Err(()));
}

#[test]
fn layout_reserves_a_unit_for_the_writer() {
    let single = plan_layout(1);
    assert_eq!(single.cpu_amount, 1);
    assert_eq!(single.buffer_amount, 2);
    assert_eq!(single.generator_amount, 0);

    let dual = plan_layout(2);
    assert_eq!(dual.cpu_amount, 2);
    assert_eq!(dual.buffer_amount, 4);
    assert_eq!(dual.generator_amount, 1);

    let many = plan_layout(64);
    assert_eq!(many.cpu_amount, 4);
    assert_eq!(many.buffer_amount, 8);
    assert_eq!(many.generator_amount, 1);
}

#[test]
fn planned_pipeline_respects_the_caps() {
    let l = plan_pipeline();
    assert!((1..=4).contains(&l.cpu_amount));
    assert_eq!(l.buffer_amount, l.cpu_amount * 2);
    assert!(l.generator_amount <= 1);
}
