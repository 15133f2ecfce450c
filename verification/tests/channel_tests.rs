use ascii_pipeline::channel::BoundedChannel;

#[test]
fn channel_is_fifo() {
    let mut c = BoundedChannel::new(3);
    assert!(c.send(vec![1u8]).is_ok());
    assert!(c.send(vec![2u8]).is_ok());
    assert!(c.send(vec![3u8]).is_ok());
    assert_eq!(c.recv(), Some(vec![1u8]));
    assert_eq!(c.recv(), Some(vec![2u8]));
    assert_eq!(c.recv(), Some(vec![3u8]));
    assert_eq!(c.recv(), None);
}

#[test]
fn send_past_capacity_is_rejected_until_a_slot_frees() {
    let mut c = BoundedChannel::new(2);
    assert_eq!(c.capacity(), 2);
    assert!(c.send(vec![1u8]).is_ok());
    assert!(c.send(vec![2u8]).is_ok());
    assert_eq!(c.len(), 2);
    // Occupancy is at the bound: the next send is rejected and hands the
    // buffer back unchanged.
    let rejected = c.send(vec![9u8, 9]);
    assert_eq!(rejected, Err(vec![9u8, 9]));
    assert_eq!(c.len(), 2);
    // A receive frees one slot and the same buffer then goes through.
    assert_eq!(c.recv(), Some(vec![1u8]));
    assert!(c.send(vec![9u8, 9]).is_ok());
    assert_eq!(c.len(), 2);
}

#[test]
fn recv_on_empty_channel_returns_none() {
    let mut c = BoundedChannel::new(1);
    assert_eq!(c.recv(), None);
    assert_eq!(c.len(), 0);
}

#[test]
fn zero_capacity_channel_rejects_every_send() {
    let mut c = BoundedChannel::new(0);
    assert_eq!(c.send(vec![5u8]), Err(vec![5u8]));
}
