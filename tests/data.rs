use x264_framing::{Data, Priority};

fn sample() -> Data {
    Data::from_raw_parts(vec![1, 2, 3, 4, 5, 6], vec![3, 0, 2], &[2, 1, 3]).unwrap()
}

#[test]
fn priority_codes_map_to_classes() {
    assert_eq!(Priority::from_ref_idc(0), Priority::Disposable);
    assert_eq!(Priority::from_ref_idc(1), Priority::Low);
    assert_eq!(Priority::from_ref_idc(2), Priority::High);
    assert_eq!(Priority::from_ref_idc(3), Priority::Highest);
}

#[test]
fn unknown_priority_codes_are_highest() {
    assert_eq!(Priority::from_ref_idc(-1), Priority::Highest);
    assert_eq!(Priority::from_ref_idc(4), Priority::Highest);
    assert_eq!(Priority::from_ref_idc(i32::MAX), Priority::Highest);
}

#[test]
fn empty_view_has_empty_entirety() {
    let d = Data::new();
    assert_eq!(d.len(), 0);
    assert!(d.entirety().is_empty());
}

#[test]
fn empty_raw_parts_give_empty_view() {
    let d = Data::from_raw_parts(vec![], vec![], &[]).unwrap();
    assert_eq!(d.len(), 0);
    assert!(d.entirety().is_empty());
}

#[test]
fn single_unit_entirety_is_its_payload() {
    let mut d = Data::new();
    d.push(2, &[0, 0, 0, 1, 0x67]);
    assert_eq!(d.len(), 1);
    assert_eq!(d.entirety(), &[0, 0, 0, 1, 0x67]);
    assert_eq!(d.unit(0).payload(), d.entirety());
    assert_eq!(d.unit(0).priority(), Priority::High);
}

#[test]
fn units_are_cut_in_order() {
    let d = sample();
    assert_eq!(d.len(), 3);
    assert_eq!(d.unit(0).payload(), &[1, 2]);
    assert_eq!(d.unit(0).priority(), Priority::Highest);
    assert_eq!(d.unit(1).payload(), &[3]);
    assert_eq!(d.unit(1).priority(), Priority::Disposable);
    assert_eq!(d.unit(2).payload(), &[4, 5, 6]);
    assert_eq!(d.unit(2).priority(), Priority::High);
}

#[test]
fn entirety_spans_all_units() {
    let d = sample();
    assert_eq!(d.entirety(), &[1, 2, 3, 4, 5, 6]);
}

#[test]
fn empty_units_keep_their_place() {
    let d = Data::from_raw_parts(vec![7, 8], vec![1, 1, 1], &[0, 2, 0]).unwrap();
    assert_eq!(d.len(), 3);
    assert!(d.unit(0).payload().is_empty());
    assert_eq!(d.unit(1).payload(), &[7, 8]);
    assert!(d.unit(2).payload().is_empty());
    assert_eq!(d.entirety(), &[7, 8]);
}

#[test]
fn raw_parts_reject_sizes_that_miss_the_chunk() {
    assert!(Data::from_raw_parts(vec![1, 2, 3], vec![0, 0], &[1, 1]).is_none());
    assert!(Data::from_raw_parts(vec![1, 2, 3], vec![0, 0], &[2, 2]).is_none());
    assert!(Data::from_raw_parts(vec![1], vec![0], &[usize::MAX]).is_none());
}

#[test]
fn raw_parts_reject_a_code_count_mismatch() {
    assert!(Data::from_raw_parts(vec![1, 2], vec![0], &[1, 1]).is_none());
    assert!(Data::from_raw_parts(vec![1, 2], vec![0, 1, 2], &[1, 1]).is_none());
}

#[test]
fn pushed_units_concatenate() {
    let mut d = Data::new();
    d.push(0, &[9, 9]);
    d.push(1, &[]);
    d.push(7, &[5]);
    assert_eq!(d.len(), 3);
    assert_eq!(d.entirety(), &[9, 9, 5]);
    assert_eq!(d.unit(2).payload(), &[5]);
    assert_eq!(d.unit(2).priority(), Priority::Highest);
    assert_eq!(d.unit(1).priority(), Priority::Low);
}

#[test]
fn unit_as_ref_is_its_payload() {
    let d = sample();
    let u = d.unit(2);
    let bytes: &[u8] = u.as_ref();
    assert_eq!(bytes, &[4, 5, 6]);
}
