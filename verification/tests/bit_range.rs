use zk_constraints::bit_range::BitRange;

#[test]
fn new_accepts_up_to_64() {
    assert_eq!(BitRange::new(0).map(|b| b.to_usize()), Some(0));
    assert_eq!(BitRange::new(64).map(|b| b.to_usize()), Some(64));
    assert_eq!(BitRange::new(17).map(|b| b.to_usize()), Some(17));
}

#[test]
fn new_rejects_above_64() {
    assert!(BitRange::new(65).is_none());
    assert!(BitRange::new(usize::MAX).is_none());
}

#[test]
fn max_is_64() {
    assert_eq!(BitRange::max().to_usize(), 64);
    assert_eq!(Some(BitRange::max()), BitRange::new(64));
}

#[test]
fn converts_into_usize() {
    let n: usize = BitRange::new(33).unwrap().into();
    assert_eq!(n, 33);
    assert_eq!(usize::from(BitRange::max()), 64);
}
