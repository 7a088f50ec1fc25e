use racebuf::RaceBuf;

#[test]
fn filled_buffer_reads_fill_value() {
    let buf = RaceBuf::new_with_value(5, 42u32);
    for i in 0..5 {
        assert_eq!(buf.get(i), Some(42u32));
    }
    assert_eq!(buf.get(5), None);
    assert_eq!(buf.get(1000), None);
    assert_eq!(buf.get(usize::MAX), None);
}

#[test]
fn empty_buffer_has_no_elements() {
    let buf = RaceBuf::new_with_value(0, 9u8);
    assert_eq!(buf.len(), 0);
    assert_eq!(buf.get(0), None);
}

#[test]
fn new_matches_new_with_value_default() {
    let a: RaceBuf<i64> = RaceBuf::new(4);
    let b = RaceBuf::new_with_value(4, 0i64);
    assert_eq!(a.len(), b.len());
    for i in 0..4 {
        assert_eq!(a.get(i), b.get(i));
        assert_eq!(a.get(i), Some(0i64));
    }
}

#[test]
fn set_then_get_round_trip() {
    let mut buf = RaceBuf::new_with_value(6, 0u16);
    buf.set(0, 11);
    buf.set(3, 33);
    buf.set(5, 55);
    assert_eq!(buf.get(0), Some(11));
    assert_eq!(buf.get(3), Some(33));
    assert_eq!(buf.get(5), Some(55));
}

#[test]
fn out_of_range_set_is_a_no_op() {
    let mut buf = RaceBuf::new_with_value(3, 7i32);
    buf.set(1, 8);
    buf.set(3, 99);
    buf.set(usize::MAX, 99);
    assert_eq!(buf.get(0), Some(7));
    assert_eq!(buf.get(1), Some(8));
    assert_eq!(buf.get(2), Some(7));
    assert_eq!(buf.get(3), None);
    assert_eq!(buf.len(), 3);
}

#[test]
fn len_is_invariant_across_calls() {
    let mut buf = RaceBuf::new_with_value(8, 1u64);
    assert_eq!(buf.len(), 8);
    for i in 0..20 {
        buf.set(i, i as u64);
        let _ = buf.get(i);
        assert_eq!(buf.len(), 8);
    }
}

#[test]
fn from_vec_into_inner_round_trip() {
    let original = vec![1u8, 2, 3, 4];
    let buf = RaceBuf::from_vec(original.clone());
    assert_eq!(buf.len(), 4);
    assert_eq!(buf.get(2), Some(3));
    let back = buf.into_inner();
    assert_eq!(back, original);
}

#[test]
fn unchecked_access_round_trip() {
    let mut buf = RaceBuf::new_with_value(4, 0u32);
    buf.set_unchecked(2, 17);
    assert_eq!(buf.get_unchecked(2), 17);
    assert_eq!(buf.get_unchecked(0), 0);
    assert_eq!(buf.get(2), Some(17));
}

#[test]
fn scenario_fill_write_and_read() {
    let mut buf = RaceBuf::new_with_value(4, 0i32);
    buf.set(2, 99);
    assert_eq!(buf.get(0), Some(0));
    assert_eq!(buf.get(2), Some(99));
    assert_eq!(buf.get(4), None);
}

#[test]
fn scenario_default_construction() {
    let buf: RaceBuf<i32> = RaceBuf::new(3);
    assert_eq!(buf.get(0), Some(0));
    assert_eq!(buf.len(), 3);
}
