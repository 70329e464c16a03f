use bardecoder::prepare::{BlockedMean, GrayGrid};

fn threshold(grid: GrayGrid) -> GrayGrid {
    BlockedMean::new(5, 7).threshold_grid(&grid)
}

#[test]
fn uniform_image_goes_dark() {
    // every pixel equals its window mean, so nothing exceeds it
    let g = threshold(GrayGrid::new(10, 10, vec![200u8; 100]));
    assert_eq!(g.width, 10);
    assert_eq!(g.height, 10);
    assert!(g.data.iter().all(|p| *p == 0));
}

#[test]
fn black_image_stays_dark() {
    let g = threshold(GrayGrid::new(8, 8, vec![0u8; 64]));
    assert!(g.data.iter().all(|p| *p == 0));
}

#[test]
fn bright_pixel_on_black_goes_light() {
    // a lone bright pixel exceeds the mean of its window
    let mut data = vec![0u8; 64];
    data[8 * 3 + 3] = 200;
    let g = threshold(GrayGrid::new(8, 8, data));
    assert_eq!(g.data[8 * 3 + 3], 255);
    assert_eq!(g.data[0], 0);
}

#[test]
fn binarization_is_monotone_under_fixed_means() {
    // brightening one pixel of an image never turns lit output pixels off
    // at that pixel when the window means stay put; with a single bright
    // pixel against black the effect is directly visible
    let mut dim = vec![0u8; 64];
    dim[10] = 100;
    let mut bright = vec![0u8; 64];
    bright[10] = 240;
    let g_dim = threshold(GrayGrid::new(8, 8, dim));
    let g_bright = threshold(GrayGrid::new(8, 8, bright));
    assert_eq!(g_dim.data[10], 255);
    assert_eq!(g_bright.data[10], 255);
}

#[test]
fn smaller_than_one_block_is_one_block() {
    // a 3 x 3 image with one block of pixels: the lone bright pixel wins
    let mut data = vec![10u8; 9];
    data[4] = 250;
    let g = threshold(GrayGrid::new(3, 3, data));
    assert_eq!(g.data[4], 255);
    assert_eq!(g.data[0], 0);
}

#[test]
fn empty_grid_is_empty() {
    let g = threshold(GrayGrid::new(0, 0, vec![]));
    assert_eq!(g.width, 0);
    assert_eq!(g.height, 0);
    assert!(g.data.is_empty());
}
