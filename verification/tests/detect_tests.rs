use bardecoder::detect::QRFinderPattern;

#[test]
fn finder_ratios_accepted() {
    // a clean 1-1-3-1-1 run pattern at module size 2
    let p = QRFinderPattern(0, 0, 2, 2, 6, 2, 2);
    assert!(p.looks_like_finder());
}

#[test]
fn finder_ratios_with_tolerance() {
    // runs off by less than two thirds of a module still pass
    let p = QRFinderPattern(9, 9, 10, 12, 31, 10, 11);
    assert!(p.looks_like_finder());
}

#[test]
fn finder_ratios_rejected() {
    // a middle run far from three modules fails
    let p = QRFinderPattern(0, 0, 2, 2, 2, 2, 2);
    assert!(!p.looks_like_finder());

    // a total under seven pixels fails
    let p = QRFinderPattern(0, 0, 1, 1, 2, 1, 1);
    assert!(!p.looks_like_finder());
}

#[test]
fn slide_shifts_runs() {
    let mut p = QRFinderPattern(1, 2, 3, 4, 5, 6, 7);
    p.slide();
    assert_eq!(p, QRFinderPattern(2, 3, 4, 5, 6, 7, 1));
}

#[test]
fn slide_merges_noise() {
    // the current run is under a tenth of the one before it, and this is
    // not the first switch: the runs merge and the window slides back
    let mut p = QRFinderPattern(9, 8, 7, 6, 5, 50, 4);
    p.slide();
    assert_eq!(p, QRFinderPattern(0, 9, 8, 7, 6, 5, 54));
}

#[test]
fn slide_keeps_first_switch() {
    // a short run after a large quiet zone is no noise: it slides normally
    let mut p = QRFinderPattern(0, 0, 0, 0, 0, 50, 4);
    p.slide();
    assert_eq!(p, QRFinderPattern(0, 0, 0, 0, 50, 4, 1));
}
