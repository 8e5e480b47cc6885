use bmp::decoder::bit_index;

#[test]
fn test_calculate_bit_index() {
    let bytes = vec![0b1000_0001, 0b1111_0001];

    let mut bi = bit_index(&bytes, 1, 15);
    assert_eq!(bi.next(), Some(1));
    assert_eq!(bi.next(), Some(0));
    assert_eq!(bi.next(), Some(0));
    assert_eq!(bi.next(), Some(0));
    assert_eq!(bi.next(), Some(0));
    assert_eq!(bi.next(), Some(0));
    assert_eq!(bi.next(), Some(0));
    assert_eq!(bi.next(), Some(1));
    assert_eq!(bi.next(), Some(1));
    assert_eq!(bi.next(), Some(1));
    assert_eq!(bi.next(), Some(1));
    assert_eq!(bi.next(), Some(1));
    assert_eq!(bi.next(), Some(0));
    assert_eq!(bi.next(), Some(0));
    assert_eq!(bi.next(), Some(0));
    assert_eq!(bi.next(), None);
    assert_eq!(bi.next(), None);

    let mut bi = bit_index(&bytes, 4, 4);
    assert_eq!(bi.next(), Some(0b1000));
    assert_eq!(bi.next(), Some(0b0001));
    assert_eq!(bi.next(), Some(0b1111));
    assert_eq!(bi.next(), Some(0b0001));
    assert_eq!(bi.next(), None);

    let mut bi = bit_index(&bytes, 8, 2);
    assert_eq!(bi.next(), Some(0b1000_0001));
    assert_eq!(bi.next(), Some(0b1111_0001));
    assert_eq!(bi.next(), None);
}

#[test]
fn bit_index_ends_at_the_data_boundary() {
    let bytes = vec![0b1010_0000];

    // The requested count exceeds what one byte holds: the cursor ends at
    // the boundary and never resumes.
    let mut bi = bit_index(&bytes, 8, 5);
    assert_eq!(bi.next(), Some(0b1010_0000));
    assert_eq!(bi.next(), None);
    assert_eq!(bi.next(), None);
    assert_eq!(bi.next(), None);

    let mut bi = bit_index(&bytes, 4, 9);
    assert_eq!(bi.next(), Some(0b1010));
    assert_eq!(bi.next(), Some(0b0000));
    assert_eq!(bi.next(), None);
    assert_eq!(bi.next(), None);

    // A zero count yields nothing at all.
    let mut bi = bit_index(&bytes, 1, 0);
    assert_eq!(bi.next(), None);
    assert_eq!(bi.next(), None);
}
