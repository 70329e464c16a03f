use bardecoder::chomp::Chomp;

#[test]
pub fn empty() {
    let mut chomp = Chomp::new(vec![]);

    assert_eq!(None, chomp.chomp(4));
}

#[test]
pub fn nibbles() {
    let mut chomp = Chomp::new(vec![0b11000100]);

    assert_eq!(Some(0b11), chomp.chomp(2));
    assert_eq!(Some(0b0001), chomp.chomp(4));
    assert_eq!(Some(0b0), chomp.chomp(1));

    assert_eq!(None, chomp.chomp(2));
}

#[test]
pub fn chomp() {
    let mut chomp = Chomp::new(vec![0b11000100, 0b10101010]);

    assert_eq!(Some(0b110001), chomp.chomp(6));
    assert_eq!(Some(0b001010), chomp.chomp(6));
    assert_eq!(None, chomp.chomp(6));
    assert_eq!(Some(0b1010), chomp.chomp(4));
    assert_eq!(None, chomp.chomp(4));
}

#[test]
pub fn chomp_on_border() {
    let mut chomp = Chomp::new(vec![0b11000100, 0b10101010]);

    assert_eq!(Some(0b110001), chomp.chomp(6));
    assert_eq!(Some(0b00), chomp.chomp(2));
    assert_eq!(Some(0b1010), chomp.chomp(4));
    assert_eq!(Some(0b1010), chomp.chomp(4));
    assert_eq!(None, chomp.chomp(4));
}

#[test]
pub fn chomp_u16() {
    let mut chomp = Chomp::new(vec![0b11000100, 0b10101010]);

    assert_eq!(Ok(0b110001001010), chomp.chomp_or_u16(12, ()));
    assert_eq!(Some(0b1010), chomp.chomp(4));
    assert_eq!(None, chomp.chomp(4));
}

#[test]
pub fn chomp_a_lot() {
    let mut chomp = Chomp::new(vec![
        0b11000100, 0b10101010, 0b11000100, 0b10101010, 0b11000100, 0b10101010,
    ]);

    assert_eq!(Some(0b110001), chomp.chomp(6));
    assert_eq!(Some(0b00101010), chomp.chomp(8));
    assert_eq!(Some(0b10110001), chomp.chomp(8));
    assert_eq!(Some(0b00101010), chomp.chomp(8));
    assert_eq!(Some(0b10110001), chomp.chomp(8));
    assert_eq!(Some(0b00101010), chomp.chomp(8));
    assert_eq!(None, chomp.chomp(8));
}
