use vecrec::vec_rec::{VecRec, MAX_LEN};

fn record_from(values: &[i64]) -> VecRec {
    let mut v = VecRec::new(values.len() as i64).expect("creation must succeed");
    for (i, &x) in values.iter().enumerate() {
        assert_eq!(v.set_vec_element(i as i64, x), 1);
    }
    v
}

#[test]
fn create_zero_length_succeeds() {
    let v = VecRec::new(0).expect("length 0 must succeed");
    assert_eq!(v.vec_length(), 0);
}

#[test]
fn create_initializes_elements_to_zero() {
    let v = VecRec::new(4).expect("creation must succeed");
    for i in 0..4 {
        let mut out: i64 = -1;
        assert_eq!(v.get_vec_element(i, &mut out), 1);
        assert_eq!(out, 0);
    }
}

#[test]
fn create_overflowing_size_reports_failure() {
    assert!(VecRec::new(MAX_LEN + 1).is_none());
    assert!(VecRec::new(i64::MAX).is_none());
}

#[test]
fn set_then_get_round_trips() {
    let mut v = VecRec::new(3).expect("creation must succeed");
    assert_eq!(v.set_vec_element(0, 10), 1);
    assert_eq!(v.set_vec_element(1, -20), 1);
    assert_eq!(v.set_vec_element(2, i64::MIN), 1);
    let mut out: i64 = 0;
    assert_eq!(v.get_vec_element(0, &mut out), 1);
    assert_eq!(out, 10);
    assert_eq!(v.get_vec_element(1, &mut out), 1);
    assert_eq!(out, -20);
    assert_eq!(v.get_vec_element(2, &mut out), 1);
    assert_eq!(out, i64::MIN);
}

#[test]
fn get_out_of_bounds_fails_and_leaves_dest() {
    let v = record_from(&[1, 2, 3]);
    let mut out: i64 = 99;
    assert_eq!(v.get_vec_element(-1, &mut out), 0);
    assert_eq!(out, 99);
    assert_eq!(v.get_vec_element(3, &mut out), 0);
    assert_eq!(out, 99);
    assert_eq!(v.get_vec_element(i64::MAX, &mut out), 0);
    assert_eq!(out, 99);
    assert_eq!(v.get_vec_element(i64::MIN, &mut out), 0);
    assert_eq!(out, 99);
}

#[test]
fn set_out_of_bounds_fails_and_leaves_contents() {
    let mut v = record_from(&[1, 2, 3]);
    assert_eq!(v.set_vec_element(-1, 42), 0);
    assert_eq!(v.set_vec_element(3, 42), 0);
    assert_eq!(v.set_vec_element(i64::MAX, 42), 0);
    assert_eq!(v.get_vec_start(), &[1, 2, 3]);
}

#[test]
fn zero_length_accessors_fail_on_every_index() {
    let mut v = VecRec::new(0).expect("length 0 must succeed");
    let mut out: i64 = 7;
    assert_eq!(v.get_vec_element(0, &mut out), 0);
    assert_eq!(out, 7);
    assert_eq!(v.set_vec_element(0, 5), 0);
    assert_eq!(v.get_vec_element(-1, &mut out), 0);
    assert_eq!(v.set_vec_element(1, 5), 0);
    assert_eq!(v.vec_length(), 0);
}

#[test]
fn vec_length_reports_creation_length() {
    let v = VecRec::new(5).expect("creation must succeed");
    assert_eq!(v.vec_length(), 5);
}

#[test]
fn get_vec_start_views_whole_buffer() {
    let v = record_from(&[9, -8, 7]);
    let s = v.get_vec_start();
    assert_eq!(s.len(), 3);
    assert_eq!(s, &[9, -8, 7]);
    let empty = VecRec::new(0).expect("length 0 must succeed");
    assert_eq!(empty.get_vec_start().len(), 0);
}
