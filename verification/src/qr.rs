//! Shared data types of the QR decoding pipeline.

use vstd::prelude::*;

verus! {

/// Error raised while decoding a QR symbol, with a detail message.
#[derive(Debug, Clone, PartialEq, Eq)]
pub struct QRError {
    /// Detail message
    pub msg: String,
}

/// Error correction level of a QR symbol.
#[derive(Debug, Clone, Copy, PartialEq, Eq, Structural)]
pub enum ECLevel {
    LOW,
    MEDIUM,
    QUARTILE,
    HIGH,
}

/// Information about a decoded QR symbol.
#[derive(Debug, Clone, PartialEq, Eq, Structural)]
pub struct QRInfo {
    /// Version of the QR symbol, 1 being the smallest, 40 the largest
    pub version: u32,
    /// Error correction level of the QR symbol
    pub ec_level: ECLevel,
    /// Number of data codeword bits in the QR symbol
    pub total_data: u32,
    /// Number of bits that had to be corrected, in data or error
    /// correction codewords alike
    pub errors: u32,
}

/// Module grid sampled from the source image.
///
/// The grid is stored as one byte per module in row major order, value 0
/// for a dark module and 255 for a light one. Reading through [`QRData::index`]
/// inverts the convention: 1 for dark (byte 0) and 0 for light.
#[derive(Debug, Clone)]
pub struct QRData {
    /// Module bytes, `side * side` entries in row major order.
    pub data: Vec<u8>,
    /// Version of the QR symbol, 1 being the smallest, 40 the largest
    pub version: u32,
    /// Side of the QR square, in modules
    pub side: u32,
}

impl QRData {
    /// The grid is well formed: a known version, the side that belongs to
    /// it, and one byte per module.
    pub open spec fn wf(&self) -> bool {
        &&& 1 <= self.version <= 40
        &&& self.side == 4 * self.version + 17
        &&& self.data@.len() == self.side * self.side
    }

    /// The bit stored for the module in column `x`, row `y`: 1 for dark, 0 for light.
    pub open spec fn bit_at(&self, x: int, y: int) -> u8 {
        if self.data@[y * self.side + x] == 0 {
            1u8
        } else {
            0u8
        }
    }

    /// Build a grid from its module bytes; the side follows from the version.
    pub fn new(data: Vec<u8>, version: u32) -> (r: QRData)
        requires
            1 <= version <= 40,
            data@.len() == (4 * version + 17) * (4 * version + 17),
        ensures
            r.wf(),
            r.data == data,
            r.version == version,
            r.side == 4 * version + 17,
    {
        QRData { data, version, side: 4 * version + 17 }
    }

    /// Check at run time that the grid is well formed.
    pub fn wf_exec(&self) -> (r: bool)
        ensures
            r == self.wf(),
    {
        if !(1 <= self.version && self.version <= 40) {
            return false;
        }
        if self.side != 4 * self.version + 17 {
            return false;
        }
        proof {
            assert(self.side * self.side <= 31329) by (nonlinear_arith)
                requires
                    self.side <= 177,
            ;
        }
        self.data.len() == self.side as usize * self.side as usize
    }

    /// Read the module in column `x`, row `y`: 1 for dark, 0 for light.
    pub fn index(&self, x: u32, y: u32) -> (r: u8)
        requires
            self.wf(),
            x < self.side,
            y < self.side,
        ensures
            r == self.bit_at(x as int, y as int),
    {
        proof {
            assert(y * self.side + x < self.side * self.side && self.side * self.side <= 31329)
                by (nonlinear_arith)
                requires
                    y < self.side,
                    x < self.side,
                    self.side <= 177,
            ;
        }
        let pixel = self.data[y as usize * self.side as usize + x as usize];
        if pixel == 0 {
            1
        } else {
            0
        }
    }
}

} // verus!
