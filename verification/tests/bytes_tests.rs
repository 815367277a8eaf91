use nesrs::hw::bytes::{copy_bytes, copy_range, zeros};

#[test]
fn copy_range_takes_the_middle() {
    let src: Vec<u8> = (0..10).collect();
    assert_eq!(copy_range(&src, 3, 4), vec![3, 4, 5, 6]);
    assert_eq!(copy_range(&src, 0, 10), src);
    assert_eq!(copy_range(&src, 10, 0), Vec::<u8>::new());
    assert_eq!(copy_range(&src, 9, 1), vec![9]);
}

#[test]
fn copy_bytes_copies_all() {
    let src: Vec<u8> = vec![7, 8, 9];
    assert_eq!(copy_bytes(&src), src);
    assert_eq!(copy_bytes(&[]), Vec::<u8>::new());
}

#[test]
fn zeros_are_zeros() {
    assert_eq!(zeros(0), Vec::<u8>::new());
    assert_eq!(zeros(5), vec![0, 0, 0, 0, 0]);
    assert_eq!(zeros(0x2000).len(), 0x2000);
}
