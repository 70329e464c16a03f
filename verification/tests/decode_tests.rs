use bardecoder::blockinfo::BlockInfo;
use bardecoder::blocks::{alignment_location, is_data, AlignmentLocation};
use bardecoder::correct::{correct, correct_with_error_count};
use bardecoder::data::data;
use bardecoder::decoder::{qr_decode, qr_decode_with_info};
use bardecoder::format::qrmask;
use bardecoder::galois::{EXP8, GF8};
use bardecoder::qr::{ECLevel, QRData, QRError, QRInfo};

/// Reed-Solomon error correction codewords: the remainder of the data
/// polynomial times `x^ec_len` divided by the generator polynomial.
fn rs_ec_codewords(data: &[u8], ec_len: usize) -> Vec<u8> {
    // generator polynomial, monic, descending coefficients
    let mut gen: Vec<u8> = vec![1];
    for i in 0..ec_len {
        let root = EXP8[i];
        let mut next = gen.clone();
        next.push(0);
        for j in 1..=gen.len() {
            next[j] = GF8(next[j]).add(GF8(root).mul(GF8(gen[j - 1]))).0;
        }
        gen = next;
    }

    let mut rem: Vec<u8> = vec![0; ec_len];
    for &d in data {
        let factor = GF8(rem[0] ^ d);
        rem.remove(0);
        rem.push(0);
        for j in 0..ec_len {
            rem[j] = GF8(rem[j]).add(factor.mul(GF8(gen[j + 1]))).0;
        }
    }
    rem
}

/// The positions of format copy A, in reading order.
fn format_copy_a() -> Vec<(u32, u32)> {
    let mut pos = Vec::new();
    for x in 0..9 {
        if x != 6 {
            pos.push((x, 8));
        }
    }
    for y in (0..8).rev() {
        if y != 6 {
            pos.push((8, y));
        }
    }
    pos
}

/// The positions of format copy B, in reading order, for the given side.
fn format_copy_b(side: u32) -> Vec<(u32, u32)> {
    let mut pos = Vec::new();
    for j in 0..7 {
        pos.push((8, side - 1 - j));
    }
    for x in side - 8..side {
        pos.push((x, 8));
    }
    pos
}

/// The data module positions of a symbol in zig-zag walk order.
fn walk_positions(qr: &QRData, loc: &AlignmentLocation) -> Vec<(u32, u32)> {
    let side = qr.side;
    let mut pos = Vec::new();
    let mut x = side - 1;
    loop {
        let adjusted = if x < 6 { x + 1 } else { x };
        let upward = (side - 1 - adjusted) % 4 == 0;
        let ys: Vec<u32> = if upward {
            (0..side).rev().collect()
        } else {
            (0..side).collect()
        };
        for y in ys {
            if is_data(qr, loc, x, y) {
                pos.push((x, y));
            }
            if is_data(qr, loc, x - 1, y) {
                pos.push((x - 1, y));
            }
        }
        if x == 1 {
            break;
        }
        x -= 2;
        if x == 6 {
            x = 5;
        }
    }
    pos
}

const FORMAT_MASK: [u8; 15] = [1, 0, 1, 0, 1, 0, 0, 0, 0, 0, 1, 0, 0, 1, 0];

/// Build the module grid of a version 1 symbol at level MEDIUM with data
/// mask 0, carrying the given codewords.
fn build_v1_medium_mask0(codewords: &[u8]) -> QRData {
    let side = 21u32;
    let mut pixels = vec![255u8; (side * side) as usize];
    let mut set_dark = |p: &mut Vec<u8>, x: u32, y: u32, dark: bool| {
        p[(y * side + x) as usize] = if dark { 0 } else { 255 };
    };

    // format information: level MEDIUM (00) and mask 0 (000) encode to the
    // all-zero word, so the stored bits are exactly the format mask
    let geometry = QRData::new(vec![255u8; (side * side) as usize], 1);
    for (j, (x, y)) in format_copy_a().into_iter().enumerate() {
        set_dark(&mut pixels, x, y, FORMAT_MASK[j] == 1);
    }
    for (j, (x, y)) in format_copy_b(side).into_iter().enumerate() {
        set_dark(&mut pixels, x, y, FORMAT_MASK[j] == 1);
    }

    // data modules in walk order, with mask 0 applied
    let loc = alignment_location(1).unwrap();
    let positions = walk_positions(&geometry, &loc);
    assert_eq!(positions.len(), codewords.len() * 8);
    for (k, (x, y)) in positions.into_iter().enumerate() {
        let bit = (codewords[k / 8] >> (7 - k % 8)) & 1;
        let mask_bit = if (x + y) % 2 == 0 { 1 } else { 0 };
        set_dark(&mut pixels, x, y, (bit ^ mask_bit) == 1);
    }

    QRData::new(pixels, 1)
}

/// The 26 codewords of a version 1 MEDIUM symbol spelling "01234567" in
/// numeric mode.
fn codewords_01234567() -> Vec<u8> {
    let data_codewords: Vec<u8> = vec![
        0x10, 0x20, 0x0C, 0x56, 0x61, 0x80, 0xEC, 0x11, 0xEC, 0x11, 0xEC, 0x11, 0xEC, 0x11, 0xEC,
        0x11,
    ];
    let ec = rs_ec_codewords(&data_codewords, 10);
    let mut all = data_codewords;
    all.extend(ec);
    all
}

#[test]
fn test_synthetic_symbol_round_trip() {
    // a synthetically generated symbol decodes back to its payload
    let qr = build_v1_medium_mask0(&codewords_01234567());
    let (text, info) = qr_decode_with_info(Ok(qr)).unwrap();
    assert_eq!(text, "01234567");
    assert_eq!(
        info,
        QRInfo { version: 1, ec_level: ECLevel::MEDIUM, total_data: 128, errors: 0 }
    );
}

#[test]
fn test_repeated_decode_identical() {
    // decoding the same module grid twice returns identical results
    let qr1 = build_v1_medium_mask0(&codewords_01234567());
    let qr2 = build_v1_medium_mask0(&codewords_01234567());
    let first = qr_decode_with_info(Ok(qr1)).unwrap();
    let second = qr_decode_with_info(Ok(qr2)).unwrap();
    assert_eq!(first, second);
}

#[test]
fn test_corrupted_symbol_corrected() {
    // a symbol with a few wrong codewords still decodes, and the bit
    // errors are counted
    let mut codewords = codewords_01234567();
    codewords[2] ^= 0b0101_0000;
    codewords[20] ^= 0b0000_0011;
    let qr = build_v1_medium_mask0(&codewords);
    let (text, info) = qr_decode_with_info(Ok(qr)).unwrap();
    assert_eq!(text, "01234567");
    assert_eq!(info.errors, 4);
}

#[test]
fn test_format_copy_a_corrupted_uses_copy_b() {
    // five wrong bits overwhelm the BCH correction of copy A, so the
    // format information is read from copy B
    let mut qr = build_v1_medium_mask0(&codewords_01234567());
    for (x, y) in format_copy_a().into_iter().take(5) {
        let idx = (y * 21 + x) as usize;
        qr.data[idx] = if qr.data[idx] == 0 { 255 } else { 0 };
    }
    let (text, info) = qr_decode_with_info(Ok(qr)).unwrap();
    assert_eq!(text, "01234567");
    assert_eq!(info.ec_level, ECLevel::MEDIUM);
}

#[test]
fn test_format_few_flips_corrected() {
    // two wrong format bits are within the reach of the BCH correction
    let mut qr = build_v1_medium_mask0(&codewords_01234567());
    for (x, y) in format_copy_a().into_iter().take(2) {
        let idx = (y * 21 + x) as usize;
        qr.data[idx] = if qr.data[idx] == 0 { 255 } else { 0 };
    }
    let (text, _) = qr_decode_with_info(Ok(qr)).unwrap();
    assert_eq!(text, "01234567");
}

#[test]
fn test_clean_block_unchanged() {
    // a block with zero bit errors has all syndromes zero: correction
    // returns it unchanged and counts no errors
    let block = codewords_01234567();
    let bi = BlockInfo::new(1, 26, 16, 4);
    let corrected = correct(block.clone(), &bi).unwrap();
    assert_eq!(corrected, block);
    let (corrected2, errors) = correct_with_error_count(block.clone(), &bi).unwrap();
    assert_eq!(corrected2, block);
    assert_eq!(errors, 0);
}

#[test]
fn test_error_propagated() {
    let err = QRError { msg: String::from("upstream failure") };
    let r = qr_decode(Err(err.clone()));
    assert_eq!(r, Err(err));
}

#[test]
fn test_data_empty_stream() {
    assert_eq!(data(vec![], 1).unwrap(), "");
}

#[test]
fn test_data_terminator_only() {
    assert_eq!(data(vec![0b0000_0000], 1).unwrap(), "");
}

#[test]
fn test_data_unsupported_mode() {
    // mode 0011 is not implemented
    assert!(data(vec![0b0011_0000], 1).is_err());
}

#[test]
fn test_data_numeric_single_digit() {
    // numeric segment of one digit: the digit comes in four bits
    assert_eq!(data(vec![16, 5, 192], 1).unwrap(), "7");
}

#[test]
fn test_data_numeric_wide_group() {
    // a ten-bit group over 999 renders every decimal digit it holds
    assert_eq!(data(vec![16, 15, 255], 1).unwrap(), "1023");
}

#[test]
fn test_data_alphanumeric() {
    assert_eq!(data(vec![32, 41, 206, 231, 33, 0], 1).unwrap(), "AC-42");
}

#[test]
fn test_data_eight_bit() {
    // byte mode, length 4, "Ver1"
    let mut bits = String::new();
    bits.push_str("0100");
    bits.push_str("00000100");
    for b in b"Ver1" {
        bits.push_str(&format!("{:08b}", b));
    }
    bits.push_str("0000");
    while bits.len() % 8 != 0 {
        bits.push('0');
    }
    let bytes: Vec<u8> = (0..bits.len() / 8)
        .map(|i| u8::from_str_radix(&bits[8 * i..8 * i + 8], 2).unwrap())
        .collect();
    assert_eq!(data(bytes, 1).unwrap(), "Ver1");
}

#[test]
fn test_data_exhausted_stream() {
    // a numeric segment whose length field runs past the data
    assert!(data(vec![0b0001_0000], 1).is_err());
}

#[test]
fn test_all_light_grid_is_error() {
    // a blank grid holds no valid symbol: a typed error, never a crash
    let qr = QRData::new(vec![255u8; 21 * 21], 1);
    assert!(qr_decode(Ok(qr)).is_err());
}

#[test]
fn test_qrmask_unmasks_checkerboard() {
    // on an all-dark grid, taking mask 0 back out gives the checkerboard
    let qr = QRData::new(vec![0u8; 21 * 21], 1);
    assert_eq!(qrmask(&qr, 0, 10, 10), 0);
    assert_eq!(qrmask(&qr, 0, 10, 11), 1);
    assert_eq!(qrmask(&qr, 0, 11, 10), 1);
    assert_eq!(qrmask(&qr, 0, 11, 11), 0);
}

#[test]
fn test_format_reads_level_and_mask() {
    // the synthetic symbol carries level MEDIUM and mask 0
    let qr = build_v1_medium_mask0(&codewords_01234567());
    let (level, mask) = bardecoder::format::format(&qr).unwrap();
    assert_eq!(level, ECLevel::MEDIUM);
    assert_eq!(mask, 0);
}
