use ascii_pipeline::buffer::{create_buffer, fill_from, make_vec_len};

#[test]
fn create_buffer_is_default_initialized() {
    let buf = create_buffer(16);
    assert_eq!(buf.len(), 16);
    assert!(buf.iter().all(|b| *b == 0));
}

#[test]
fn create_buffer_empty() {
    let buf = create_buffer(0);
    assert!(buf.is_empty());
}

#[test]
fn make_vec_len_grows_short_vector_with_defaults() {
    let mut v = vec![7u8, 8];
    make_vec_len(&mut v, 5);
    assert_eq!(v, vec![7u8, 8, 0, 0, 0]);
}

#[test]
fn make_vec_len_keeps_long_vector() {
    let mut v = vec![1u8, 2, 3];
    make_vec_len(&mut v, 2);
    assert_eq!(v, vec![1u8, 2, 3]);
}

#[test]
fn make_vec_len_keeps_exact_vector() {
    let mut v = vec![9u8, 9];
    make_vec_len(&mut v, 2);
    assert_eq!(v, vec![9u8, 9]);
}

#[test]
fn fill_from_overwrites_in_place() {
    let mut v = vec![0u8; 4];
    fill_from(&mut v, &vec![4u8, 3, 2, 1]);
    assert_eq!(v, vec![4u8, 3, 2, 1]);
}
