use ascii_pipeline::sink::{BrokenSink, Sink, VecSink, WriteError, write_full};

#[test]
fn write_full_delivers_every_byte_through_short_writes() {
    // Write completeness: the bytes delivered across all partial-write loop
    // iterations equal exactly the buffer, nothing omitted or duplicated.
    let data: Vec<u8> = (0..10u8).collect();
    let mut sink = VecSink { data: Vec::new(), max_per_write: 3 };
    assert_eq!(write_full(&mut sink, &data), Ok(()));
    assert_eq!(sink.data, data);
}

#[test]
fn write_full_with_generous_sink() {
    let data = vec![65u8, 66, 67];
    let mut sink = VecSink { data: Vec::new(), max_per_write: 100 };
    assert_eq!(write_full(&mut sink, &data), Ok(()));
    assert_eq!(sink.data, data);
}

#[test]
fn write_full_of_empty_buffer() {
    let mut sink = VecSink { data: Vec::new(), max_per_write: 0 };
    assert_eq!(write_full(&mut sink, &Vec::new()), Ok(()));
    assert!(sink.data.is_empty());
}

#[test]
fn write_full_appends_to_earlier_deliveries() {
    let mut sink = VecSink { data: vec![1u8, 2], max_per_write: 1 };
    assert_eq!(write_full(&mut sink, &vec![3u8, 4]), Ok(()));
    assert_eq!(sink.data, vec![1u8, 2, 3, 4]);
}

#[test]
fn stalled_sink_is_reported_as_zero_write() {
    let data = vec![1u8, 2, 3];
    let mut sink = VecSink { data: Vec::new(), max_per_write: 0 };
    assert_eq!(write_full(&mut sink, &data), Err(WriteError::ZeroWrite));
    assert!(sink.data.is_empty());
}

#[test]
fn failing_sink_is_reported_as_sink_failure() {
    let data = vec![1u8, 2, 3];
    let mut sink = BrokenSink {};
    assert_eq!(write_full(&mut sink, &data), Err(WriteError::SinkFailed));
}

#[test]
fn vec_sink_takes_short_writes_at_its_limit() {
    let data: Vec<u8> = (10..20u8).collect();
    let mut sink = VecSink { data: Vec::new(), max_per_write: 4 };
    assert_eq!(sink.write(&data, 0), Ok(4));
    assert_eq!(sink.write(&data, 4), Ok(4));
    assert_eq!(sink.write(&data, 8), Ok(2));
    assert_eq!(sink.data, data);
}
