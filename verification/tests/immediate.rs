use smith_address::Immediate;

#[test]
fn empty_address_contract() {
    let e = Immediate::empty();
    assert_eq!(e.auxiliary().len(), 0);
    let raw = e.as_bytes();
    for i in 0..31 {
        assert_eq!(raw[i], 0);
    }
    assert_eq!(raw[31], 0x01);
    assert!(Immediate::from_bytes(raw).is_some());
}

#[test]
fn worked_example_short_string() {
    let data = b"Hello, world!";
    assert_eq!(data.len(), 13);
    let im = Immediate::from_auxiliary(data).unwrap();
    let raw = im.as_bytes();
    assert_eq!(&raw[0..13], data.as_slice());
    for i in 13..31 {
        assert_eq!(raw[i], 0);
    }
    assert_eq!(raw[31], (13 << 2) | 1);
    assert_eq!(raw[31], 0x35);
    let back = Immediate::from_bytes(raw).unwrap();
    assert_eq!(back.auxiliary(), data.as_slice());
}

#[test]
fn round_trip_each_length() {
    for len in 0..=31usize {
        let data: Vec<u8> = (0..len).map(|i| (i as u8).wrapping_mul(7).wrapping_add(3)).collect();
        let im = Immediate::from_auxiliary(&data).unwrap();
        let back = Immediate::from_bytes(im.as_bytes()).unwrap();
        assert_eq!(back.auxiliary(), &data[..]);
    }
}

#[test]
fn oversize_rejected() {
    let data = [0xAAu8; 32];
    assert!(Immediate::from_auxiliary(&data).is_none());
    let long = "a".repeat(57);
    assert_eq!(long.len(), 57);
    assert!(Immediate::from_auxiliary(long.as_bytes()).is_none());
}

#[test]
fn malformed_tag_reserved_bits_rejected() {
    let mut raw = [0u8; 32];
    raw[31] = 0b0000_0011;
    assert!(Immediate::from_bytes(&raw).is_none());
}

#[test]
fn malformed_nonzero_padding_rejected() {
    let mut raw = [0u8; 32];
    raw[31] = (2 << 2) | 1;
    raw[0] = 1;
    raw[1] = 2;
    raw[5] = 7;
    assert!(Immediate::from_bytes(&raw).is_none());
    raw[5] = 0;
    assert!(Immediate::from_bytes(&raw).is_some());
}

#[test]
fn unchecked_decode_matches_checked() {
    let im = Immediate::from_auxiliary(b"abc").unwrap();
    let fast = Immediate::from_bytes_unchecked(im.as_bytes());
    assert_eq!(fast.as_bytes(), im.as_bytes());
    assert_eq!(fast.auxiliary(), b"abc".as_slice());
}

#[test]
fn mutation_keeps_length_and_other_bytes() {
    let im0 = Immediate::from_auxiliary(b"abcde").unwrap();
    let mut im = im0;
    im.auxiliary_mut(2, b'X');
    assert_eq!(im.auxiliary(), b"abXde".as_slice());
    assert_eq!(im.auxiliary().len(), im0.auxiliary().len());
    let raw0 = im0.as_bytes();
    let raw1 = im.as_bytes();
    for i in 0..32 {
        if i == 2 {
            assert_eq!(raw1[i], b'X');
        } else {
            assert_eq!(raw1[i], raw0[i]);
        }
    }
}
