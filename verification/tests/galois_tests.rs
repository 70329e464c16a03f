use bardecoder::galois::{EXP4, LOG4};
use bardecoder::galois::{EXP8, LOG8};
use bardecoder::galois::{GF4, GF8};

#[test]
pub fn test_gf8_add() {
    // zero
    assert_eq!(GF8(0).add(GF8(123)), GF8(123));

    // inverse sub
    assert_eq!(GF8(40).add(GF8(193)), GF8(233));

    // commutativity
    assert_eq!(GF8(40).add(GF8(193)), GF8(193).add(GF8(40)));

    // associativity
    assert_eq!(
        (GF8(40).add(GF8(193))).add(GF8(78)),
        GF8(40).add(GF8(193).add(GF8(78)))
    );
}

#[test]
pub fn test_gf8_sub() {
    // zero
    assert_eq!(GF8(123).sub(GF8(123)), GF8(0));

    // inverse add
    assert_eq!(GF8(233).sub(GF8(193)), GF8(40));
    assert_eq!(GF8(233).sub(GF8(40)), GF8(193));
}

#[test]
pub fn test_gf8_mul() {
    // zero
    assert_eq!(GF8(40).mul(GF8(0)), GF8(0));
    assert_eq!(GF8(0).mul(GF8(40)), GF8(0));

    // unit
    assert_eq!(GF8(40).mul(GF8(1)), GF8(40));
    assert_eq!(GF8(1).mul(GF8(40)), GF8(40));

    // inverse div
    assert_eq!(GF8(40).mul(GF8(193)), GF8(67));

    // commutativity
    assert_eq!(GF8(40).mul(GF8(193)), GF8(193).mul(GF8(40)));

    // associativity
    assert_eq!(
        (GF8(40).mul(GF8(193))).mul(GF8(78)),
        GF8(40).mul(GF8(193).mul(GF8(78)))
    );

    // distributivity
    assert_eq!(
        GF8(40).mul(GF8(193).add(GF8(78))),
        GF8(40).mul(GF8(193)).add(GF8(40).mul(GF8(78)))
    );
}

#[test]
pub fn test_gf8_div() {
    // unit
    assert_eq!(GF8(40).div(GF8(40)), GF8(1));
    assert_eq!(GF8(40).div(GF8(1)), GF8(40));

    // inverse mul
    assert_eq!(GF8(67).div(GF8(193)), GF8(40));
    assert_eq!(GF8(67).div(GF8(40)), GF8(193));
}

#[test]
pub fn test_gf4_add() {
    // zero
    assert_eq!(GF4(0).add(GF4(5)), GF4(5));

    // inverse sub
    assert_eq!(GF4(3).add(GF4(7)), GF4(4));

    // commutativity
    assert_eq!(GF4(5).add(GF4(9)), GF4(9).add(GF4(5)));

    // associativity
    assert_eq!(
        (GF4(3).add(GF4(9))).add(GF4(10)),
        GF4(3).add(GF4(9).add(GF4(10)))
    );
}

#[test]
pub fn test_gf4_sub() {
    // zero
    assert_eq!(GF4(5).sub(GF4(5)), GF4(0));

    // inverse add
    assert_eq!(GF4(4).sub(GF4(3)), GF4(7));
    assert_eq!(GF4(4).sub(GF4(7)), GF4(3));
}

#[test]
pub fn test_gf4_mul() {
    // zero
    assert_eq!(GF4(4).mul(GF4(0)), GF4(0));
    assert_eq!(GF4(0).mul(GF4(4)), GF4(0));

    // unit
    assert_eq!(GF4(4).mul(GF4(1)), GF4(4));
    assert_eq!(GF4(1).mul(GF4(4)), GF4(4));

    // inverse div
    assert_eq!(GF4(7).mul(GF4(3)), GF4(9));

    // commutativity
    assert_eq!(GF4(2).mul(GF4(9)), GF4(9).mul(GF4(2)));

    // associativity
    assert_eq!((GF4(2).mul(GF4(9))).mul(GF4(13)), GF4(2).mul(GF4(9).mul(GF4(13))));

    // distributivity
    assert_eq!(
        GF4(2).mul(GF4(5).add(GF4(11))),
        GF4(2).mul(GF4(5)).add(GF4(2).mul(GF4(11)))
    );
}

#[test]
pub fn test_gf4_div() {
    // unit
    assert_eq!(GF4(4).div(GF4(4)), GF4(1));
    assert_eq!(GF4(4).div(GF4(1)), GF4(4));

    // inverse mul
    assert_eq!(GF4(9).div(GF4(7)), GF4(3));
    assert_eq!(GF4(9).div(GF4(3)), GF4(7));
}

#[test]
pub fn test_gf8_tables_invert() {
    for a in 1..=255u16 {
        assert_eq!(EXP8[LOG8[a as usize] as usize], a as u8);
    }
    assert_eq!(EXP8[255], 0);
}

#[test]
pub fn test_gf4_tables_invert() {
    for a in 1..16u8 {
        assert_eq!(EXP4[LOG4[a as usize] as usize], a);
    }
    assert_eq!(EXP4[15], 0);
}
