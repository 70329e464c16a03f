//! Reducing a grayscale grid to black and white with block-local mean
//! thresholds.

use vstd::arithmetic::mul::{lemma_mul_inequality, lemma_mul_is_distributive_add_other_way};
use vstd::prelude::*;

verus! {

/// Prepare the source image for data extraction, for example by reducing
/// it to black and white.
pub trait Prepare<IMG, PREPD> {
    /// Does the actual preparing
    fn prepare(&self, source: IMG) -> PREPD;
}

/// Reduce an image to a black and white form.
pub trait Threshold<G, T> {
    /// Does the actual thresholding
    fn to_threshold(&self, grayscale: G) -> T;
}

/// Turn a source image into grayscale.
pub trait Grayscale<S, G> {
    /// Does the actual conversion
    fn to_grayscale(&self, source: S) -> G;
}

/// Grayscale conversion by taking the luminance of each pixel; the pixel
/// work happens in the caller's image library, so this type only names
/// the stage.
pub struct ToLuma {}

impl ToLuma {
    /// Construct a new ToLuma
    pub fn new() -> (r: ToLuma)
        ensures
            r == (ToLuma {  }),
    {
        ToLuma {  }
    }
}

/// A grayscale pixel grid, one luminance byte per pixel in row major
/// order.
#[derive(Debug, Clone)]
pub struct GrayGrid {
    /// Width in pixels
    pub width: u32,
    /// Height in pixels
    pub height: u32,
    /// Luminance bytes, `width * height` of them, row major
    pub data: Vec<u8>,
}

impl GrayGrid {
    /// One byte per pixel, and sides small enough that luminance sums fit
    /// the machine comfortably.
    pub open spec fn wf(&self) -> bool {
        &&& self.data@.len() == self.width * self.height
        &&& self.width <= 0xFFFFFF
        &&& self.height <= 0xFFFFFF
    }

    /// The luminance of the pixel in column `x`, row `y`.
    pub open spec fn lum(&self, x: int, y: int) -> int {
        self.data@[y * self.width + x] as int
    }

    /// Build a grid from its luminance bytes.
    pub fn new(width: u32, height: u32, data: Vec<u8>) -> (r: GrayGrid)
        requires
            data@.len() == width * height,
            width <= 0xFFFFFF,
            height <= 0xFFFFFF,
        ensures
            r.wf(),
            r == (GrayGrid { width, height, data }),
    {
        GrayGrid { width, height, data }
    }

    /// Read the pixel in column `x`, row `y`.
    pub fn get(&self, x: u32, y: u32) -> (r: u8)
        requires
            self.wf(),
            x < self.width,
            y < self.height,
        ensures
            r == self.lum(x as int, y as int),
    {
        let n = self.data.len();
        proof {
            lemma_row_major_bound(self.width as int, self.height as int, x as int, y as int);
            assert(y * self.width + x < n);
        }
        self.data[y as usize * self.width as usize + x as usize]
    }
}

/// A pixel of a row major grid lies within it.
proof fn lemma_row_major_bound(width: int, height: int, x: int, y: int)
    by (nonlinear_arith)
    requires
        0 <= x < width <= 0x1000000,
        0 <= y < height <= 0x1000000,
    ensures
        0 <= y * width + x < width * height,
        y * width + x < 0x1_0000_0000_0000,
{
}

/// Sum of the luminances of pixel columns `[x0, x1)` in row `y`.
pub open spec fn row_sum(g: &GrayGrid, x0: int, x1: int, y: int) -> int
    decreases x1 - x0,
{
    if x1 <= x0 {
        0
    } else {
        row_sum(g, x0, x1 - 1, y) + g.lum(x1 - 1, y)
    }
}

/// Sum of the luminances of the pixel rectangle `[x0, x1) x [y0, y1)`.
pub open spec fn rect_sum(g: &GrayGrid, x0: int, x1: int, y0: int, y1: int) -> int
    decreases y1 - y0,
{
    if y1 <= y0 {
        0
    } else {
        rect_sum(g, x0, x1, y0, y1 - 1) + row_sum(g, x0, x1, y1 - 1)
    }
}

/// Number of pixels of the rectangle `[x0, x1) x [y0, y1)`, written as a
/// repeated sum of its row widths.
pub open spec fn rect_count(x0: int, x1: int, y0: int, y1: int) -> int
    decreases y1 - y0,
{
    if y1 <= y0 || x1 <= x0 {
        0
    } else {
        rect_count(x0, x1, y0, y1 - 1) + (x1 - x0)
    }
}

/// First pixel column of the threshold window of block column `bx`.
pub open spec fn window_x0(bs: int, stride: int, bx: int) -> int {
    if bx <= stride {
        0
    } else {
        (bx - stride) * bs
    }
}

/// One-past-last pixel column of the threshold window of block column
/// `bx` in a grid `limit` pixels wide with `bmax` its highest block
/// index.
pub open spec fn window_x1(bs: int, stride: int, bx: int, bmax: int, limit: int) -> int {
    let upper = if bx + stride < bmax {
        bx + stride
    } else {
        bmax
    };
    if (upper + 1) * bs < limit {
        (upper + 1) * bs
    } else {
        limit
    }
}

/// Luminance sum of the threshold window of the block at `(bx, by)`.
pub open spec fn window_total(g: &GrayGrid, bs: int, stride: int, bx: int, by: int) -> int {
    let bw = g.width as int / bs;
    let bh = g.height as int / bs;
    rect_sum(
        g,
        window_x0(bs, stride, bx),
        window_x1(bs, stride, bx, bw, g.width as int),
        window_x0(bs, stride, by),
        window_x1(bs, stride, by, bh, g.height as int),
    )
}

/// Pixel count of the threshold window of the block at `(bx, by)`.
pub open spec fn window_count(g: &GrayGrid, bs: int, stride: int, bx: int, by: int) -> int {
    let bw = g.width as int / bs;
    let bh = g.height as int / bs;
    rect_count(
        window_x0(bs, stride, bx),
        window_x1(bs, stride, bx, bw, g.width as int),
        window_x0(bs, stride, by),
        window_x1(bs, stride, by, bh, g.height as int),
    )
}

/// The black and white value of a pixel against its window: light when
/// the luminance exceeds the window mean, written without division as
/// `lum * count > total`.
pub open spec fn thresholded(lum: int, total: int, count: int) -> u8 {
    if lum * count > total {
        255u8
    } else {
        0u8
    }
}

/// Binarization is monotone in the luminance: against the same window
/// sums, a pixel at least as bright as a light pixel is light.
pub proof fn lemma_binarize_monotone(p1: int, p2: int, total: int, count: int)
    requires
        0 <= p1 <= p2,
        0 <= count,
    ensures
        thresholded(p1, total, count) == 255 ==> thresholded(p2, total, count) == 255,
{
    lemma_mul_inequality(p1, p2, count);
}

/// A window mean of 255 blackens every pixel, and over a window mean of
/// zero a pixel is light exactly when it is not black itself.
pub proof fn lemma_binarize_extremes(p: int, total: int, count: int)
    requires
        0 <= p <= 255,
        1 <= count,
    ensures
        total == 255 * count ==> thresholded(p, total, count) == 0,
        total == 0 ==> (thresholded(p, total, count) == 255 <==> p > 0),
{
    lemma_mul_inequality(p, 255, count);
    assert(p >= 1 && count >= 1 ==> p * count >= 1) by (nonlinear_arith);
    assert(p == 0 ==> p * count == 0) by (nonlinear_arith);
}

/// Reduce the image to black and white by block-local mean thresholds:
/// cut the image into blocks, average the luminance over a window of
/// blocks around each block, and keep a pixel light only when it is
/// brighter than the mean over its block's window.
pub struct BlockedMean {
    /// Width in pixels of each block
    pub block_size: u32,
    /// Width in blocks of each window of blocks
    pub block_mean_size: u32,
}

impl BlockedMean {
    /// The stage is usable: neither measure is zero.
    pub open spec fn wf(&self) -> bool {
        self.block_size >= 1 && self.block_mean_size >= 1
    }

    /// Construct a new BlockedMean
    ///
    /// # Arguments
    ///
    /// * `block_size`: width in pixels of each block
    /// * `block_mean_size`: width in blocks of each window of blocks
    pub fn new(block_size: u32, block_mean_size: u32) -> (r: BlockedMean)
        requires
            block_size >= 1,
            block_mean_size >= 1,
        ensures
            r.wf(),
            r == (BlockedMean { block_size, block_mean_size }),
    {
        BlockedMean { block_size, block_mean_size }
    }

    /// Threshold the grid: the result has the same dimensions, every
    /// pixel either 0 or 255, and each pixel compares its luminance
    /// against the mean over its block's window.
    pub fn threshold_grid(&self, grayscale: &GrayGrid) -> (r: GrayGrid)
        requires
            self.wf(),
            grayscale.wf(),
        ensures
            r.wf(),
            r.width == grayscale.width,
            r.height == grayscale.height,
            forall|x: int, y: int|
                0 <= x < grayscale.width && 0 <= y < grayscale.height ==> #[trigger] r.lum(x, y)
                    == thresholded(
                    grayscale.lum(x, y),
                    window_total(
                        grayscale,
                        self.block_size as int,
                        spec_stride(self.block_mean_size as int),
                        x / self.block_size as int,
                        y / self.block_size as int,
                    ),
                    window_count(
                        grayscale,
                        self.block_size as int,
                        spec_stride(self.block_mean_size as int),
                        x / self.block_size as int,
                        y / self.block_size as int,
                    ),
                ),
    {
        let bs = self.block_size;
        let stride = (self.block_mean_size - 1) / 2;
        let w = grayscale.width;
        let h = grayscale.height;
        let bw = w / bs;
        let bh = h / bs;

        let means = window_sums(grayscale, bs, stride, bw, bh);

        let mut out: Vec<u8> = Vec::new();
        let mut y: u32 = 0;
        while y < h
            invariant
                self.wf(),
                grayscale.wf(),
                bs == self.block_size,
                stride == spec_stride(self.block_mean_size as int),
                w == grayscale.width,
                h == grayscale.height,
                bw == w / bs,
                bh == h / bs,
                means@.len() == (bw + 1) * (bh + 1),
                forall|ux: int, uy: int|
                    0 <= ux <= bw && 0 <= uy <= bh ==> (#[trigger] means@[uy * (bw + 1) + ux]).0
                        == window_total(grayscale, bs as int, stride as int, ux, uy) && means@[uy
                        * (bw + 1) + ux].1 == window_count(grayscale, bs as int, stride as int, ux, uy),
                y <= h,
                out@.len() == y * w,
                forall|px: int, py: int|
                    0 <= px < w && 0 <= py < y ==> #[trigger] out@[py * w + px] == thresholded(
                        grayscale.lum(px, py),
                        window_total(grayscale, bs as int, stride as int, px / bs as int, py / bs as int),
                        window_count(grayscale, bs as int, stride as int, px / bs as int, py / bs as int),
                    ),
            decreases h - y,
        {
            let mut x: u32 = 0;
            while x < w
                invariant
                    self.wf(),
                    grayscale.wf(),
                    bs == self.block_size,
                    stride == spec_stride(self.block_mean_size as int),
                    w == grayscale.width,
                    h == grayscale.height,
                    bw == w / bs,
                    bh == h / bs,
                    means@.len() == (bw + 1) * (bh + 1),
                    forall|ux: int, uy: int|
                        0 <= ux <= bw && 0 <= uy <= bh ==> (#[trigger] means@[uy * (bw + 1)
                            + ux]).0 == window_total(grayscale, bs as int, stride as int, ux, uy)
                            && means@[uy * (bw + 1) + ux].1 == window_count(grayscale, bs as int, stride as int, ux, uy),
                    y < h,
                    x <= w,
                    out@.len() == y * w + x,
                    forall|px: int, py: int|
                        0 <= px < w && 0 <= py < y ==> #[trigger] out@[py * w + px] == thresholded(
                            grayscale.lum(px, py),
                            window_total(grayscale, bs as int, stride as int, px / bs as int, py / bs as int),
                            window_count(grayscale, bs as int, stride as int, px / bs as int, py / bs as int),
                        ),
                    forall|px: int|
                        0 <= px < x ==> #[trigger] out@[y * w + px] == thresholded(
                            grayscale.lum(px, y as int),
                            window_total(grayscale, bs as int, stride as int, px / bs as int, y as int / bs as int),
                            window_count(grayscale, bs as int, stride as int, px / bs as int, y as int / bs as int),
                        ),
                decreases w - x,
            {
                let bx = x / bs;
                let by = y / bs;
                proof {
                    lemma_block_bounds(w as int, bs as int, x as int);
                    lemma_block_bounds(h as int, bs as int, y as int);
                    lemma_pair_index_bound(bw as int, bh as int, bx as int, by as int);
                }
                let ml = means.len();
                proof {
                    assert(by * (bw + 1) + bx < ml);
                }
                let (wt, wc) = means[by as usize * (bw as usize + 1) + bx as usize];
                let p = grayscale.get(x, y);
                proof {
                    lemma_window_count_bound(grayscale, bs as int, stride as int, bx as int, by as int);
                    assert((p as int) * (wc as int) <= 255 * 0x1_0000_0000_0000) by (nonlinear_arith)
                        requires
                            p <= 255,
                            0 <= wc <= 0x1_0000_0000_0000,
                    ;
                }
                let v: u8 = if (p as u64) * wc > wt {
                    255
                } else {
                    0
                };
                proof {
                    assert forall|px2: int, py2: int| 0 <= px2 < w && 0 <= py2 < y implies #[trigger] (
                    py2 * w + px2) < y * w + x by {
                        lemma_mul_inequality(py2 + 1, y as int, w as int);
                        lemma_mul_is_distributive_add_other_way(w as int, py2, 1);
                    }
                }
                out.push(v);
                proof {
                    lemma_row_major_bound(w as int, h as int, x as int, y as int);
                    assert(out@.len() == y * w + x + 1);
                }
                x += 1;
            }
            proof {
                lemma_mul_is_distributive_add_other_way(w as int, y as int, 1);
            }
            y += 1;
        }

        proof {
            vstd::arithmetic::mul::lemma_mul_is_commutative(h as int, w as int);
            assert forall|px: int, py: int| 0 <= px < w && 0 <= py < h implies 0 <= #[trigger] (py
                * w + px) < out@.len() by {
                lemma_row_major_bound(w as int, h as int, px, py);
            }
        }
        GrayGrid { width: w, height: h, data: out }
    }
}

/// The stride of the window: half the window measure, rounded down.
pub open spec fn spec_stride(block_mean_size: int) -> int {
    (block_mean_size - 1) / 2
}

/// A block coordinate of an in-range pixel is at most the top block
/// index, which itself is at most the pixel limit.
proof fn lemma_block_bounds(limit: int, bs: int, v: int)
    by (nonlinear_arith)
    requires
        0 <= v < limit,
        bs >= 1,
    ensures
        0 <= v / bs <= limit / bs,
        limit / bs <= limit,
{
}

/// A block pair index lies within the block map.
proof fn lemma_pair_index_bound(bw: int, bh: int, bx: int, by: int)
    by (nonlinear_arith)
    requires
        0 <= bx <= bw <= 0x1000000,
        0 <= by <= bh <= 0x1000000,
    ensures
        0 <= by * (bw + 1) + bx < (bw + 1) * (bh + 1),
        (bw + 1) * (bh + 1) <= 0x4_0000_0000_0000,
{
}

/// Row sums are at most 255 per pixel.
proof fn lemma_row_sum_bound(g: &GrayGrid, x0: int, x1: int, y: int)
    ensures
        0 <= row_sum(g, x0, x1, y) <= 255 * (if x1 <= x0 {
            0int
        } else {
            x1 - x0
        }),
    decreases x1 - x0,
{
    if x1 > x0 {
        lemma_row_sum_bound(g, x0, x1 - 1, y);
    }
}

/// Rectangle sums are at most 255 per pixel, and counts at most a full
/// grid row per row.
proof fn lemma_rect_bounds(g: &GrayGrid, x0: int, x1: int, y0: int, y1: int)
    requires
        x1 - x0 <= 0x1000000,
    ensures
        0 <= rect_count(x0, x1, y0, y1),
        rect_count(x0, x1, y0, y1) <= (if y1 <= y0 {
            0int
        } else {
            (y1 - y0) * 0x1000000
        }),
        0 <= rect_sum(g, x0, x1, y0, y1) <= 255 * rect_count(x0, x1, y0, y1),
    decreases y1 - y0,
{
    if y1 > y0 {
        lemma_rect_bounds(g, x0, x1, y0, y1 - 1);
        lemma_row_sum_bound(g, x0, x1, y1 - 1);
    }
}

/// The window of a block holds at most the whole grid.
proof fn lemma_window_count_bound(g: &GrayGrid, bs: int, stride: int, bx: int, by: int)
    requires
        g.wf(),
        bs >= 1,
        stride >= 0,
        bx >= 0,
        by >= 0,
    ensures
        0 <= window_count(g, bs, stride, bx, by) <= 0x1_0000_0000_0000,
        0 <= window_total(g, bs, stride, bx, by) <= 255 * window_count(g, bs, stride, bx, by),
{
    let x0 = window_x0(bs, stride, bx);
    let x1 = window_x1(bs, stride, bx, g.width as int / bs as int, g.width as int);
    let y0 = window_x0(bs, stride, by);
    let y1 = window_x1(bs, stride, by, g.height as int / bs as int, g.height as int);
    assert(x1 <= g.width as int && y1 <= g.height as int);
    assert(x0 >= 0 && y0 >= 0) by (nonlinear_arith)
        requires
            bs >= 1,
            stride >= 0,
            bx >= 0,
            by >= 0,
            x0 == window_x0(bs, stride, bx),
            y0 == window_x0(bs, stride, by),
    ;
    lemma_rect_bounds(g, x0, x1, y0, y1);
}

/// Compute the window sums of every block: entry `by * (bw + 1) + bx`
/// holds the luminance total and the pixel count of the window of block
/// `(bx, by)`.
fn window_sums(g: &GrayGrid, bs: u32, stride: u32, bw: u32, bh: u32) -> (r: Vec<(u64, u64)>)
    requires
        g.wf(),
        bs >= 1,
        stride <= 0x7FFF_FFFF,
        bw == g.width / bs,
        bh == g.height / bs,
    ensures
        r@.len() == (bw + 1) * (bh + 1),
        forall|ux: int, uy: int|
            0 <= ux <= bw && 0 <= uy <= bh ==> (#[trigger] r@[uy * (bw + 1) + ux]).0
                == window_total(g, bs as int, stride as int, ux, uy) && r@[uy * (bw + 1) + ux].1
                == window_count(g, bs as int, stride as int, ux, uy),
{
    let mut r: Vec<(u64, u64)> = Vec::new();
    let mut by: u32 = 0;
    while by <= bh
        invariant
            g.wf(),
            bs >= 1,
            stride <= 0x7FFF_FFFF,
            bw == g.width / bs,
            bh == g.height / bs,
            by <= bh + 1,
            r@.len() == by * (bw + 1),
            forall|ux: int, uy: int|
                0 <= ux <= bw && 0 <= uy < by ==> (#[trigger] r@[uy * (bw + 1) + ux]).0
                    == window_total(g, bs as int, stride as int, ux, uy) && r@[uy * (bw + 1)
                    + ux].1 == window_count(g, bs as int, stride as int, ux, uy),
        decreases bh + 1 - by,
    {
        let mut bx: u32 = 0;
        while bx <= bw
            invariant
                g.wf(),
                bs >= 1,
                stride <= 0x7FFF_FFFF,
                bw == g.width / bs,
                bh == g.height / bs,
                by <= bh,
                bx <= bw + 1,
                r@.len() == by * (bw + 1) + bx,
                forall|ux: int, uy: int|
                    0 <= ux <= bw && 0 <= uy < by ==> (#[trigger] r@[uy * (bw + 1) + ux]).0
                        == window_total(g, bs as int, stride as int, ux, uy) && r@[uy * (bw + 1)
                        + ux].1 == window_count(g, bs as int, stride as int, ux, uy),
                forall|ux: int|
                    0 <= ux < bx ==> (#[trigger] r@[by * (bw + 1) + ux]).0 == window_total(
                        g,
                        bs as int,
                        stride as int,
                        ux,
                        by as int,
                    ) && r@[by * (bw + 1) + ux].1 == window_count(g, bs as int, stride as int, ux, by as int),
            decreases bw + 1 - bx,
        {
            proof {
                assert forall|ux: int, uy: int| 0 <= ux <= bw && 0 <= uy < by implies #[trigger] (
                uy * (bw + 1) + ux) < by * (bw + 1) by {
                    lemma_mul_inequality(uy + 1, by as int, bw as int + 1);
                    lemma_mul_is_distributive_add_other_way(bw as int + 1, uy, 1);
                }
            }
            let entry = one_window(g, bs, stride, bw, bh, bx, by);
            r.push(entry);
            bx += 1;
        }
        proof {
            lemma_mul_is_distributive_add_other_way(bw as int + 1, by as int, 1);
        }
        by += 1;
    }
    proof {
        vstd::arithmetic::mul::lemma_mul_is_commutative(bh as int + 1, bw as int + 1);
        assert forall|ux: int, uy: int| 0 <= ux <= bw && 0 <= uy <= bh implies 0 <= #[trigger] (uy
            * (bw + 1) + ux) < r@.len() by {
            lemma_pair_index_bound(bw as int, bh as int, ux, uy);
        }
    }
    r
}

/// Sum one block's window directly over its pixel rectangle.
fn one_window(g: &GrayGrid, bs: u32, stride: u32, bw: u32, bh: u32, bx: u32, by: u32) -> (r: (
    u64,
    u64,
))
    requires
        g.wf(),
        bs >= 1,
        stride <= 0x7FFF_FFFF,
        bw == g.width / bs,
        bh == g.height / bs,
        bx <= bw,
        by <= bh,
    ensures
        r.0 == window_total(g, bs as int, stride as int, bx as int, by as int),
        r.1 == window_count(g, bs as int, stride as int, bx as int, by as int),
{
    proof {
        lemma_window_nonempty(bs as int, stride as int, bx as int, bw as int, g.width as int);
        lemma_window_nonempty(bs as int, stride as int, by as int, bh as int, g.height as int);
    }
    let x0 = window_start(bs, stride, bx);
    let x1 = window_end(bs, stride, bx, bw, g.width);
    let y0 = window_start(bs, stride, by);
    let y1 = window_end(bs, stride, by, bh, g.height);

    let mut total: u64 = 0;
    let mut count: u64 = 0;
    let mut y: u32 = y0;
    while y < y1
        invariant
            g.wf(),
            x0 == window_x0(bs as int, stride as int, bx as int),
            x1 == window_x1(bs as int, stride as int, bx as int, g.width as int / bs as int, g.width as int),
            y0 == window_x0(bs as int, stride as int, by as int),
            y1 == window_x1(bs as int, stride as int, by as int, g.height as int / bs as int, g.height as int),
            x0 <= x1 <= g.width,
            y0 <= y <= y1 <= g.height,
            total == rect_sum(g, x0 as int, x1 as int, y0 as int, y as int),
            count == rect_count(x0 as int, x1 as int, y0 as int, y as int),
            count <= 0x1_0000_0000_0000,
            total <= 255 * count,
        decreases y1 - y,
    {
        let mut x: u32 = x0;
        let ghost row_base = total as int;
        let ghost cnt_base = count as int;
        while x < x1
            invariant
                g.wf(),
                x0 <= x <= x1 <= g.width,
                y < g.height,
                total == row_base + row_sum(g, x0 as int, x as int, y as int),
                row_base <= 255 * cnt_base,
                count == cnt_base + (x - x0),
                cnt_base <= 0x1_0000_0000_0000,
                total <= 255 * count,
            decreases x1 - x,
        {
            let p = g.get(x, y);
            total = total + p as u64;
            count = count + 1;
            x += 1;
        }
        proof {
            lemma_rect_bounds(g, x0 as int, x1 as int, y0 as int, y + 1);
            assert((y + 1 - y0) * 0x1000000 <= 0x1_0000_0000_0000) by (nonlinear_arith)
                requires
                    y + 1 - y0 <= 0x1000000,
            ;
            if x1 > x0 {
                assert(rect_count(x0 as int, x1 as int, y0 as int, y + 1) == rect_count(
                    x0 as int,
                    x1 as int,
                    y0 as int,
                    y as int,
                ) + (x1 - x0));
            } else {
                assert(row_sum(g, x0 as int, x1 as int, y as int) == 0);
            }
        }
        y += 1;
    }
    (total, count)
}

/// The window of a block within the grid is a nonempty-ordered pixel
/// range inside the grid.
proof fn lemma_window_nonempty(bs: int, stride: int, b: int, bmax: int, limit: int)
    by (nonlinear_arith)
    requires
        bs >= 1,
        stride >= 0,
        0 <= b <= bmax,
        bmax == limit / bs,
        limit >= 0,
    ensures
        0 <= window_x0(bs, stride, b),
        window_x0(bs, stride, b) <= window_x1(bs, stride, b, bmax, limit),
        window_x1(bs, stride, b, bmax, limit) <= limit,
        b * bs <= limit,
{
}

/// First pixel column of the window of block column `b`.
fn window_start(bs: u32, stride: u32, b: u32) -> (r: u32)
    requires
        bs >= 1,
        b * bs <= 0xFFFFFF,
    ensures
        r == window_x0(bs as int, stride as int, b as int),
        r <= 0xFFFFFF,
{
    if b <= stride {
        0
    } else {
        proof {
            assert(0 <= (b - stride) * bs <= b * bs) by (nonlinear_arith)
                requires
                    b > stride,
                    bs >= 1,
            ;
        }
        let r64 = (b - stride) as u64 * bs as u64;
        r64 as u32
    }
}

/// One-past-last pixel column of the window of block column `b`.
fn window_end(bs: u32, stride: u32, b: u32, bmax: u32, limit: u32) -> (r: u32)
    requires
        bs >= 1,
        b <= 0xFFFFFF,
        bmax <= 0xFFFFFF,
        stride <= 0x7FFF_FFFF,
        limit <= 0xFFFFFF,
    ensures
        r == window_x1(bs as int, stride as int, b as int, bmax as int, limit as int),
        r <= limit,
{
    let upper = if b + (stride as u32) < bmax {
        b + stride
    } else {
        bmax
    };
    proof {
        assert((upper + 1) * bs <= 0x100_0000_FFFF_FFFFint) by (nonlinear_arith)
            requires
                upper <= 0x1000000,
                1 <= bs <= 0xFFFF_FFFF,
        ;
    }
    let r64 = (upper as u64 + 1) * bs as u64;
    if r64 < limit as u64 {
        r64 as u32
    } else {
        limit
    }
}

impl Prepare<GrayGrid, GrayGrid> for BlockedMean {
    fn prepare(&self, source: GrayGrid) -> GrayGrid {
        if self.block_size >= 1 && self.block_mean_size >= 1 && source.wf_exec() {
            self.threshold_grid(&source)
        } else {
            GrayGrid { width: 0, height: 0, data: Vec::new() }
        }
    }
}

impl Threshold<GrayGrid, GrayGrid> for BlockedMean {
    fn to_threshold(&self, grayscale: GrayGrid) -> GrayGrid {
        self.prepare(grayscale)
    }
}

impl GrayGrid {
    /// Check at run time that the grid is well formed.
    pub fn wf_exec(&self) -> (r: bool)
        ensures
            r == self.wf(),
    {
        if self.width > 0xFFFFFF || self.height > 0xFFFFFF {
            return false;
        }
        proof {
            assert(self.width * self.height <= 0x1_0000_0000_0000) by (nonlinear_arith)
                requires
                    self.width <= 0x1000000,
                    self.height <= 0x1000000,
            ;
        }
        self.data.len() as u64 == self.width as u64 * self.height as u64
    }
}

} // verus!
