//! The run-length window of the finder pattern line scan.
//!
//! A scan keeps the lengths of the last seven alternating light and dark
//! runs. The ratio tests against fractions of the estimated module size
//! are carried out in exact integer arithmetic: each comparison is
//! multiplied through by its denominator, so no rounding enters.

use vstd::prelude::*;

verus! {

/// Scan a prepared image for QR finder patterns line by line.
///
/// The scan itself walks pixels and pixel coordinates; the run-length
/// window it drives is [`QRFinderPattern`].
pub struct LineScan {}

impl LineScan {
    /// Construct a new LineScan
    pub fn new() -> (r: LineScan)
        ensures
            r == (LineScan {  }),
    {
        LineScan {  }
    }
}

/// The lengths of the last seven alternating runs of a scan line, the
/// current run last.
#[derive(Debug, Clone, Copy, PartialEq, Eq, Structural)]
pub struct QRFinderPattern(pub u32, pub u32, pub u32, pub u32, pub u32, pub u32, pub u32);

impl QRFinderPattern {
    /// An empty run window.
    pub fn new() -> (r: QRFinderPattern)
        ensures
            r == QRFinderPattern(0, 0, 0, 0, 0, 0, 0),
    {
        QRFinderPattern(0, 0, 0, 0, 0, 0, 0)
    }

    /// The window after a color switch. A current run shorter than a
    /// tenth of the one before it, when it is not the first switch, is
    /// noise: the two runs merge and the window slides back. Otherwise
    /// the oldest run falls out and a fresh run of one pixel starts.
    pub open spec fn spec_slide(self) -> QRFinderPattern {
        if 10 * self.6 < self.5 && self.4 != 0 {
            QRFinderPattern(0, self.0, self.1, self.2, self.3, self.4, (self.6 + self.5) as u32)
        } else {
            QRFinderPattern(self.1, self.2, self.3, self.4, self.5, self.6, 1)
        }
    }

    /// Slide the window at a color switch.
    pub fn slide(&mut self)
        requires
            old(self).5 + old(self).6 <= u32::MAX,
        ensures
            *final (self) == old(self).spec_slide(),
    {
        if (self.6 as u64) * 10 < self.5 as u64 && self.4 != 0 {
            // we slid last time because the pixels inverted, but it was
            // only for a few pixels: likely just noise in the image, so
            // revert the previous slide and merge the noise into the
            // previous run. The first switch is kept, since that may just
            // be a large quiet zone.
            self.6 += self.5;
            self.5 = self.4;
            self.4 = self.3;
            self.3 = self.2;
            self.2 = self.1;
            self.1 = self.0;
            self.0 = 0;
        } else {
            // the pixels inverted: slide the pattern down and start a new
            // count in the last position
            self.0 = self.1;
            self.1 = self.2;
            self.2 = self.3;
            self.3 = self.4;
            self.4 = self.5;
            self.5 = self.6;
            self.6 = 1;
        }
    }

    /// The total length of the last five runs.
    pub open spec fn spec_total(self) -> int {
        self.2 + self.3 + self.4 + self.5 + self.6
    }

    /// The window shows the 1-1-3-1-1 run ratios of a finder pattern:
    /// with the module size estimated as a seventh of the five-run total,
    /// each outer run sits within two thirds of a module of one module,
    /// and the middle run within two thirds of a module of three modules.
    /// Multiplied through by the denominator 21, a run `e` passes when
    /// `3 * |total - 7 * e|` is at most `2 * total`, and the middle run
    /// when `3 * |3 * total - 7 * e|` is at most `2 * total`.
    pub open spec fn spec_looks_like_finder(self) -> bool {
        let total = self.spec_total();
        &&& total >= 7
        &&& 3 * abs_diff(total, 7 * self.2) <= 2 * total
        &&& 3 * abs_diff(total, 7 * self.3) <= 2 * total
        &&& 3 * abs_diff(3 * total, 7 * self.4) <= 2 * total
        &&& 3 * abs_diff(total, 7 * self.5) <= 2 * total
        &&& 3 * abs_diff(total, 7 * self.6) <= 2 * total
    }

    /// Whether the window looks like a finder pattern.
    pub fn looks_like_finder(&self) -> (r: bool)
        ensures
            r == self.spec_looks_like_finder(),
    {
        let total: u64 = self.2 as u64 + self.3 as u64 + self.4 as u64 + self.5 as u64
            + self.6 as u64;

        if total < 7 {
            return false;
        }

        if !run_within(total, total, self.2) {
            return false;
        }

        if !run_within(total, total, self.3) {
            return false;
        }

        if !run_within(total, 3 * total, self.4) {
            return false;
        }

        if !run_within(total, total, self.5) {
            return false;
        }

        run_within(total, total, self.6)
    }
}

/// The absolute difference of two integers.
pub open spec fn abs_diff(a: int, b: int) -> int {
    if a >= b {
        a - b
    } else {
        b - a
    }
}

/// Whether a run length sits within two thirds of a module of its target
/// length, all scaled by the five-run total: `3 * |target - 7 * run|`
/// at most `2 * total`.
fn run_within(total: u64, target: u64, run: u32) -> (r: bool)
    requires
        total <= 0x14_0000_0000u64,
        target <= 3 * total,
    ensures
        r == (3 * abs_diff(target as int, 7 * run) <= 2 * total),
{
    let seven_run = 7 * (run as u64);
    let diff = if target >= seven_run {
        target - seven_run
    } else {
        seven_run - target
    };
    3 * diff <= 2 * total
}

} // verus!
