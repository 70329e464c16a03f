use bardecoder::blockinfo::block_info;
use bardecoder::blocks::{alignment_location, is_alignment_coord, is_data};
use bardecoder::qr::{ECLevel, QRData};

#[test]
pub fn test_alignment_locs() {
    let al = alignment_location(36).unwrap();
    let side = 4 * 36 + 17;

    for x in 0..side {
        if (x >= 4 && x <= 8)
            || (x >= 22 && x <= 26)
            || (x >= 48 && x <= 52)
            || (x >= 74 && x <= 78)
            || (x >= 100 && x <= 104)
            || (x >= 126 && x <= 130)
            || (x >= 152 && x <= 156)
        {
            assert!(is_alignment_coord(&al, x));
        } else {
            assert!(!is_alignment_coord(&al, x));
        }
    }
}

#[test]
pub fn blocks_test_alignment_locs() {
    let al = alignment_location(36).unwrap();
    let side = 4 * 36 + 17;

    for x in 0..side {
        if (x >= 4 && x <= 8)
            || (x >= 22 && x <= 26)
            || (x >= 48 && x <= 52)
            || (x >= 74 && x <= 78)
            || (x >= 100 && x <= 104)
            || (x >= 126 && x <= 130)
            || (x >= 152 && x <= 156)
        {
            assert!(is_alignment_coord(&al, x));
        } else {
            assert!(!is_alignment_coord(&al, x));
        }
    }
}

#[test]
pub fn block_info_sums_match_capacity() {

    // the codeword capacity of a version is the same whatever the level,
    // and data plus error correction space never exceeds a block
    let levels = [ECLevel::LOW, ECLevel::MEDIUM, ECLevel::QUARTILE, ECLevel::HIGH];
    for version in 1..=40u32 {
        let mut totals = Vec::new();
        for level in &levels {
            let bi = block_info(version, level).unwrap();
            let total: u32 = bi.iter().map(|b| b.total_per as u32).sum();
            let data: u32 = bi.iter().map(|b| b.data_per as u32).sum();
            assert!(data < total);
            for b in &bi {
                assert!(b.data_per >= 1);
                assert!(b.data_per < b.total_per);
                assert!(2 * b.ec_cap as u32 <= (b.total_per - b.data_per) as u32);
            }
            totals.push(total);
        }
        assert!(totals.iter().all(|t| *t == totals[0]));
    }

    // spot checks against the published data codeword capacities
    let data_sum = |version: u32, level: &ECLevel| -> u32 {
        block_info(version, level).unwrap().iter().map(|b| b.data_per as u32).sum()
    };
    assert_eq!(data_sum(1, &ECLevel::LOW), 19);
    assert_eq!(data_sum(1, &ECLevel::MEDIUM), 16);
    assert_eq!(data_sum(1, &ECLevel::QUARTILE), 13);
    assert_eq!(data_sum(1, &ECLevel::HIGH), 9);
    assert_eq!(data_sum(3, &ECLevel::LOW), 55);
    assert_eq!(data_sum(40, &ECLevel::LOW), 2956);
    assert_eq!(data_sum(40, &ECLevel::HIGH), 1276);
}

#[test]
pub fn block_info_unknown_version() {

    assert!(block_info(0, &ECLevel::LOW).is_err());
    assert!(block_info(41, &ECLevel::HIGH).is_err());
}

#[test]
pub fn alignment_unknown_version() {
    assert!(alignment_location(0).is_err());
    assert!(alignment_location(41).is_err());
}

#[test]
pub fn alignment_known_versions() {
    for version in 1..=40u32 {
        assert!(alignment_location(version).is_ok(), "version {}", version);
    }
    let al = alignment_location(21).unwrap();
    assert_eq!((al.start, al.step), (28, 22));
    let al = alignment_location(30).unwrap();
    assert_eq!((al.start, al.step), (26, 26));
}

#[test]
pub fn module_walk_visits_all_data_bits() {

    // for every version, the count of data modules is the codeword
    // capacity of the version in bits, plus a remainder below eight
    for version in 1..=40u32 {
        let side = 4 * version + 17;
        let data = QRData::new(vec![255u8; (side * side) as usize], version);
        let loc = alignment_location(version).unwrap();

        let mut count: u32 = 0;
        for x in 0..side {
            for y in 0..side {
                if is_data(&data, &loc, x, y) {
                    count += 1;
                }
            }
        }

        let bi = block_info(version, &ECLevel::LOW).unwrap();
        let total: u32 = bi.iter().map(|b| b.total_per as u32).sum();
        assert!(8 * total <= count, "version {}", version);
        assert!(count < 8 * total + 8, "version {}", version);
    }
}
