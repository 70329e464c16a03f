//! Block structure of a QR symbol, by version and error correction level.

use crate::qr::{ECLevel, QRError};
use vstd::prelude::*;

verus! {

/// Shape of one group of Reed-Solomon blocks: how many blocks, and how
/// many codewords, data codewords and correctable errors each block has.
#[derive(Debug, Clone, Copy, PartialEq, Eq, Structural)]
pub struct BlockInfo {
    /// Number of blocks of this shape
    pub block_count: u8,
    /// Codewords per block, data and error correction together
    pub total_per: u8,
    /// Data codewords per block
    pub data_per: u8,
    /// Number of codeword errors the block can correct
    pub ec_cap: u8,
}

impl BlockInfo {
    /// A block shape that the later stages can work with: at least one
    /// block, data before error correction, and syndrome space for twice
    /// the correctable errors.
    pub open spec fn wf(&self) -> bool {
        &&& 1 <= self.block_count
        &&& 1 <= self.data_per < self.total_per
        &&& 1 <= self.ec_cap
        &&& 2 * self.ec_cap <= self.total_per - self.data_per
    }

    /// Check at run time that the block shape is workable.
    pub fn wf_exec(&self) -> (r: bool)
        ensures
            r == self.wf(),
    {
        1 <= self.block_count && 1 <= self.data_per && self.data_per < self.total_per && 1
            <= self.ec_cap && 2 * self.ec_cap as u32 <= self.total_per as u32
            - self.data_per as u32
    }

    /// Build a block shape from its four counts.
    pub fn new(block_count: u8, total_per: u8, data_per: u8, ec_cap: u8) -> (r: BlockInfo)
        ensures
            r == (BlockInfo { block_count, total_per, data_per, ec_cap }),
    {
        BlockInfo { block_count, total_per, data_per, ec_cap }
    }
}

/// Number of codewords in a symbol of the given version, over all its blocks.
pub open spec fn total_codewords(version: int) -> int {
    if version == 1 {
        26
    } else
    if version == 2 {
        44
    } else
    if version == 3 {
        70
    } else
    if version == 4 {
        100
    } else
    if version == 5 {
        134
    } else
    if version == 6 {
        172
    } else
    if version == 7 {
        196
    } else
    if version == 8 {
        242
    } else
    if version == 9 {
        292
    } else
    if version == 10 {
        346
    } else
    if version == 11 {
        404
    } else
    if version == 12 {
        466
    } else
    if version == 13 {
        532
    } else
    if version == 14 {
        581
    } else
    if version == 15 {
        655
    } else
    if version == 16 {
        733
    } else
    if version == 17 {
        815
    } else
    if version == 18 {
        901
    } else
    if version == 19 {
        991
    } else
    if version == 20 {
        1085
    } else
    if version == 21 {
        1156
    } else
    if version == 22 {
        1258
    } else
    if version == 23 {
        1364
    } else
    if version == 24 {
        1474
    } else
    if version == 25 {
        1588
    } else
    if version == 26 {
        1706
    } else
    if version == 27 {
        1828
    } else
    if version == 28 {
        1921
    } else
    if version == 29 {
        2051
    } else
    if version == 30 {
        2185
    } else
    if version == 31 {
        2323
    } else
    if version == 32 {
        2465
    } else
    if version == 33 {
        2611
    } else
    if version == 34 {
        2761
    } else
    if version == 35 {
        2876
    } else
    if version == 36 {
        3034
    } else
    if version == 37 {
        3196
    } else
    if version == 38 {
        3362
    } else
    if version == 39 {
        3532
    } else
    if version == 40 {
        3706
    } else {
        0
    }
}

/// Number of modules of a symbol that carry data: the side-squared grid
/// less the finder patterns with their separators, the timing patterns,
/// the format information with the dark module, the version information
/// blocks of versions 7 and up, and the alignment patterns outside the
/// timing rows.
pub open spec fn data_modules(version: int) -> int {
    let side = 4 * version + 17;
    let coords = version / 7 + 2;
    let alignment = if version == 1 {
        0int
    } else {
        25 * (coords * coords - 3) - 10 * (coords - 2)
    };
    let version_info = if version >= 7 {
        36int
    } else {
        0int
    };
    side * side - 192 - 2 * (side - 16) - 31 - version_info - alignment
}

/// The codewords of every version fill its data modules: eight bits each,
/// with fewer than eight bits left over.
pub proof fn lemma_codewords_fill_data_modules()
    ensures
        forall|v: int|
            1 <= v <= 40 ==> 8 * #[trigger] total_codewords(v) <= data_modules(v) < 8
                * total_codewords(v) + 8,
{
    assert forall|v: int| 1 <= v <= 40 implies 8 * #[trigger] total_codewords(v) <= data_modules(
        v,
    ) < 8 * total_codewords(v) + 8 by {
        assert(8 * total_codewords(1) <= data_modules(1) < 8 * total_codewords(1) + 8)
            by (nonlinear_arith);
        assert(8 * total_codewords(2) <= data_modules(2) < 8 * total_codewords(2) + 8)
            by (nonlinear_arith);
        assert(8 * total_codewords(3) <= data_modules(3) < 8 * total_codewords(3) + 8)
            by (nonlinear_arith);
        assert(8 * total_codewords(4) <= data_modules(4) < 8 * total_codewords(4) + 8)
            by (nonlinear_arith);
        assert(8 * total_codewords(5) <= data_modules(5) < 8 * total_codewords(5) + 8)
            by (nonlinear_arith);
        assert(8 * total_codewords(6) <= data_modules(6) < 8 * total_codewords(6) + 8)
            by (nonlinear_arith);
        assert(8 * total_codewords(7) <= data_modules(7) < 8 * total_codewords(7) + 8)
            by (nonlinear_arith);
        assert(8 * total_codewords(8) <= data_modules(8) < 8 * total_codewords(8) + 8)
            by (nonlinear_arith);
        assert(8 * total_codewords(9) <= data_modules(9) < 8 * total_codewords(9) + 8)
            by (nonlinear_arith);
        assert(8 * total_codewords(10) <= data_modules(10) < 8 * total_codewords(10) + 8)
            by (nonlinear_arith);
        assert(8 * total_codewords(11) <= data_modules(11) < 8 * total_codewords(11) + 8)
            by (nonlinear_arith);
        assert(8 * total_codewords(12) <= data_modules(12) < 8 * total_codewords(12) + 8)
            by (nonlinear_arith);
        assert(8 * total_codewords(13) <= data_modules(13) < 8 * total_codewords(13) + 8)
            by (nonlinear_arith);
        assert(8 * total_codewords(14) <= data_modules(14) < 8 * total_codewords(14) + 8)
            by (nonlinear_arith);
        assert(8 * total_codewords(15) <= data_modules(15) < 8 * total_codewords(15) + 8)
            by (nonlinear_arith);
        assert(8 * total_codewords(16) <= data_modules(16) < 8 * total_codewords(16) + 8)
            by (nonlinear_arith);
        assert(8 * total_codewords(17) <= data_modules(17) < 8 * total_codewords(17) + 8)
            by (nonlinear_arith);
        assert(8 * total_codewords(18) <= data_modules(18) < 8 * total_codewords(18) + 8)
            by (nonlinear_arith);
        assert(8 * total_codewords(19) <= data_modules(19) < 8 * total_codewords(19) + 8)
            by (nonlinear_arith);
        assert(8 * total_codewords(20) <= data_modules(20) < 8 * total_codewords(20) + 8)
            by (nonlinear_arith);
        assert(8 * total_codewords(21) <= data_modules(21) < 8 * total_codewords(21) + 8)
            by (nonlinear_arith);
        assert(8 * total_codewords(22) <= data_modules(22) < 8 * total_codewords(22) + 8)
            by (nonlinear_arith);
        assert(8 * total_codewords(23) <= data_modules(23) < 8 * total_codewords(23) + 8)
            by (nonlinear_arith);
        assert(8 * total_codewords(24) <= data_modules(24) < 8 * total_codewords(24) + 8)
            by (nonlinear_arith);
        assert(8 * total_codewords(25) <= data_modules(25) < 8 * total_codewords(25) + 8)
            by (nonlinear_arith);
        assert(8 * total_codewords(26) <= data_modules(26) < 8 * total_codewords(26) + 8)
            by (nonlinear_arith);
        assert(8 * total_codewords(27) <= data_modules(27) < 8 * total_codewords(27) + 8)
            by (nonlinear_arith);
        assert(8 * total_codewords(28) <= data_modules(28) < 8 * total_codewords(28) + 8)
            by (nonlinear_arith);
        assert(8 * total_codewords(29) <= data_modules(29) < 8 * total_codewords(29) + 8)
            by (nonlinear_arith);
        assert(8 * total_codewords(30) <= data_modules(30) < 8 * total_codewords(30) + 8)
            by (nonlinear_arith);
        assert(8 * total_codewords(31) <= data_modules(31) < 8 * total_codewords(31) + 8)
            by (nonlinear_arith);
        assert(8 * total_codewords(32) <= data_modules(32) < 8 * total_codewords(32) + 8)
            by (nonlinear_arith);
        assert(8 * total_codewords(33) <= data_modules(33) < 8 * total_codewords(33) + 8)
            by (nonlinear_arith);
        assert(8 * total_codewords(34) <= data_modules(34) < 8 * total_codewords(34) + 8)
            by (nonlinear_arith);
        assert(8 * total_codewords(35) <= data_modules(35) < 8 * total_codewords(35) + 8)
            by (nonlinear_arith);
        assert(8 * total_codewords(36) <= data_modules(36) < 8 * total_codewords(36) + 8)
            by (nonlinear_arith);
        assert(8 * total_codewords(37) <= data_modules(37) < 8 * total_codewords(37) + 8)
            by (nonlinear_arith);
        assert(8 * total_codewords(38) <= data_modules(38) < 8 * total_codewords(38) + 8)
            by (nonlinear_arith);
        assert(8 * total_codewords(39) <= data_modules(39) < 8 * total_codewords(39) + 8)
            by (nonlinear_arith);
        assert(8 * total_codewords(40) <= data_modules(40) < 8 * total_codewords(40) + 8)
            by (nonlinear_arith);
    }
}


/// The block shapes of a version and level before unwinding: each shape
/// listed once, carrying its block count.
pub open spec fn spec_block_table(version: int, level: ECLevel) -> Seq<BlockInfo> {
    if version == 1 {
        match level {
            ECLevel::LOW => seq![BlockInfo { block_count: 1, total_per: 26, data_per: 19, ec_cap: 2 }],
            ECLevel::MEDIUM => seq![BlockInfo { block_count: 1, total_per: 26, data_per: 16, ec_cap: 4 }],
            ECLevel::QUARTILE => seq![BlockInfo { block_count: 1, total_per: 26, data_per: 13, ec_cap: 6 }],
            ECLevel::HIGH => seq![BlockInfo { block_count: 1, total_per: 26, data_per: 9, ec_cap: 8 }],
        }
    } else if version == 2 {
        match level {
            ECLevel::LOW => seq![BlockInfo { block_count: 1, total_per: 44, data_per: 34, ec_cap: 4 }],
            ECLevel::MEDIUM => seq![BlockInfo { block_count: 1, total_per: 44, data_per: 28, ec_cap: 8 }],
            ECLevel::QUARTILE => seq![BlockInfo { block_count: 1, total_per: 44, data_per: 22, ec_cap: 11 }],
            ECLevel::HIGH => seq![BlockInfo { block_count: 1, total_per: 44, data_per: 16, ec_cap: 14 }],
        }
    } else if version == 3 {
        match level {
            ECLevel::LOW => seq![BlockInfo { block_count: 1, total_per: 70, data_per: 55, ec_cap: 7 }],
            ECLevel::MEDIUM => seq![BlockInfo { block_count: 1, total_per: 70, data_per: 44, ec_cap: 13 }],
            ECLevel::QUARTILE => seq![BlockInfo { block_count: 2, total_per: 35, data_per: 17, ec_cap: 9 }],
            ECLevel::HIGH => seq![BlockInfo { block_count: 2, total_per: 35, data_per: 13, ec_cap: 11 }],
        }
    } else if version == 4 {
        match level {
            ECLevel::LOW => seq![BlockInfo { block_count: 1, total_per: 100, data_per: 80, ec_cap: 10 }],
            ECLevel::MEDIUM => seq![BlockInfo { block_count: 2, total_per: 50, data_per: 32, ec_cap: 9 }],
            ECLevel::QUARTILE => seq![BlockInfo { block_count: 2, total_per: 50, data_per: 24, ec_cap: 13 }],
            ECLevel::HIGH => seq![BlockInfo { block_count: 4, total_per: 25, data_per: 9, ec_cap: 8 }],
        }
    } else if version == 5 {
        match level {
            ECLevel::LOW => seq![BlockInfo { block_count: 1, total_per: 134, data_per: 108, ec_cap: 13 }],
            ECLevel::MEDIUM => seq![BlockInfo { block_count: 2, total_per: 67, data_per: 43, ec_cap: 12 }],
            ECLevel::QUARTILE => seq![BlockInfo { block_count: 2, total_per: 33, data_per: 15, ec_cap: 9 }, BlockInfo { block_count: 2, total_per: 34, data_per: 16, ec_cap: 9 }],
            ECLevel::HIGH => seq![BlockInfo { block_count: 2, total_per: 33, data_per: 11, ec_cap: 11 }, BlockInfo { block_count: 2, total_per: 34, data_per: 12, ec_cap: 11 }],
        }
    } else if version == 6 {
        match level {
            ECLevel::LOW => seq![BlockInfo { block_count: 2, total_per: 86, data_per: 68, ec_cap: 9 }],
            ECLevel::MEDIUM => seq![BlockInfo { block_count: 4, total_per: 43, data_per: 27, ec_cap: 8 }],
            ECLevel::QUARTILE => seq![BlockInfo { block_count: 4, total_per: 43, data_per: 19, ec_cap: 12 }],
            ECLevel::HIGH => seq![BlockInfo { block_count: 4, total_per: 43, data_per: 15, ec_cap: 14 }],
        }
    } else if version == 7 {
        match level {
            ECLevel::LOW => seq![BlockInfo { block_count: 2, total_per: 98, data_per: 78, ec_cap: 10 }],
            ECLevel::MEDIUM => seq![BlockInfo { block_count: 4, total_per: 49, data_per: 31, ec_cap: 9 }],
            ECLevel::QUARTILE => seq![BlockInfo { block_count: 2, total_per: 32, data_per: 14, ec_cap: 9 }, BlockInfo { block_count: 4, total_per: 33, data_per: 15, ec_cap: 9 }],
            ECLevel::HIGH => seq![BlockInfo { block_count: 4, total_per: 39, data_per: 13, ec_cap: 13 }, BlockInfo { block_count: 1, total_per: 40, data_per: 14, ec_cap: 13 }],
        }
    } else if version == 8 {
        match level {
            ECLevel::LOW => seq![BlockInfo { block_count: 2, total_per: 121, data_per: 97, ec_cap: 12 }],
            ECLevel::MEDIUM => seq![BlockInfo { block_count: 2, total_per: 60, data_per: 38, ec_cap: 11 }, BlockInfo { block_count: 2, total_per: 61, data_per: 39, ec_cap: 11 }],
            ECLevel::QUARTILE => seq![BlockInfo { block_count: 4, total_per: 40, data_per: 18, ec_cap: 11 }, BlockInfo { block_count: 2, total_per: 41, data_per: 19, ec_cap: 11 }],
            ECLevel::HIGH => seq![BlockInfo { block_count: 4, total_per: 40, data_per: 14, ec_cap: 13 }, BlockInfo { block_count: 2, total_per: 41, data_per: 15, ec_cap: 13 }],
        }
    } else if version == 9 {
        match level {
            ECLevel::LOW => seq![BlockInfo { block_count: 2, total_per: 146, data_per: 116, ec_cap: 15 }],
            ECLevel::MEDIUM => seq![BlockInfo { block_count: 3, total_per: 58, data_per: 36, ec_cap: 11 }, BlockInfo { block_count: 2, total_per: 59, data_per: 37, ec_cap: 11 }],
            ECLevel::QUARTILE => seq![BlockInfo { block_count: 4, total_per: 36, data_per: 16, ec_cap: 10 }, BlockInfo { block_count: 4, total_per: 37, data_per: 17, ec_cap: 10 }],
            ECLevel::HIGH => seq![BlockInfo { block_count: 4, total_per: 36, data_per: 12, ec_cap: 12 }, BlockInfo { block_count: 4, total_per: 37, data_per: 13, ec_cap: 12 }],
        }
    } else if version == 10 {
        match level {
            ECLevel::LOW => seq![BlockInfo { block_count: 2, total_per: 86, data_per: 68, ec_cap: 9 }, BlockInfo { block_count: 2, total_per: 87, data_per: 69, ec_cap: 9 }],
            ECLevel::MEDIUM => seq![BlockInfo { block_count: 4, total_per: 69, data_per: 43, ec_cap: 13 }, BlockInfo { block_count: 1, total_per: 70, data_per: 44, ec_cap: 13 }],
            ECLevel::QUARTILE => seq![BlockInfo { block_count: 6, total_per: 43, data_per: 19, ec_cap: 12 }, BlockInfo { block_count: 2, total_per: 44, data_per: 20, ec_cap: 12 }],
            ECLevel::HIGH => seq![BlockInfo { block_count: 6, total_per: 43, data_per: 15, ec_cap: 14 }, BlockInfo { block_count: 2, total_per: 44, data_per: 16, ec_cap: 14 }],
        }
    } else if version == 11 {
        match level {
            ECLevel::LOW => seq![BlockInfo { block_count: 4, total_per: 101, data_per: 81, ec_cap: 10 }],
            ECLevel::MEDIUM => seq![BlockInfo { block_count: 1, total_per: 80, data_per: 50, ec_cap: 15 }, BlockInfo { block_count: 4, total_per: 81, data_per: 51, ec_cap: 15 }],
            ECLevel::QUARTILE => seq![BlockInfo { block_count: 4, total_per: 50, data_per: 22, ec_cap: 14 }, BlockInfo { block_count: 4, total_per: 51, data_per: 23, ec_cap: 14 }],
            ECLevel::HIGH => seq![BlockInfo { block_count: 3, total_per: 36, data_per: 12, ec_cap: 12 }, BlockInfo { block_count: 8, total_per: 37, data_per: 13, ec_cap: 12 }],
        }
    } else if version == 12 {
        match level {
            ECLevel::LOW => seq![BlockInfo { block_count: 2, total_per: 116, data_per: 92, ec_cap: 12 }, BlockInfo { block_count: 2, total_per: 117, data_per: 93, ec_cap: 12 }],
            ECLevel::MEDIUM => seq![BlockInfo { block_count: 6, total_per: 58, data_per: 36, ec_cap: 11 }, BlockInfo { block_count: 2, total_per: 59, data_per: 37, ec_cap: 11 }],
            ECLevel::QUARTILE => seq![BlockInfo { block_count: 4, total_per: 46, data_per: 20, ec_cap: 13 }, BlockInfo { block_count: 6, total_per: 47, data_per: 21, ec_cap: 13 }],
            ECLevel::HIGH => seq![BlockInfo { block_count: 7, total_per: 42, data_per: 14, ec_cap: 14 }, BlockInfo { block_count: 4, total_per: 43, data_per: 15, ec_cap: 14 }],
        }
    } else if version == 13 {
        match level {
            ECLevel::LOW => seq![BlockInfo { block_count: 4, total_per: 133, data_per: 107, ec_cap: 13 }],
            ECLevel::MEDIUM => seq![BlockInfo { block_count: 8, total_per: 59, data_per: 37, ec_cap: 11 }, BlockInfo { block_count: 1, total_per: 60, data_per: 38, ec_cap: 11 }],
            ECLevel::QUARTILE => seq![BlockInfo { block_count: 8, total_per: 44, data_per: 20, ec_cap: 12 }, BlockInfo { block_count: 4, total_per: 45, data_per: 21, ec_cap: 12 }],
            ECLevel::HIGH => seq![BlockInfo { block_count: 12, total_per: 33, data_per: 11, ec_cap: 11 }, BlockInfo { block_count: 4, total_per: 34, data_per: 12, ec_cap: 11 }],
        }
    } else if version == 14 {
        match level {
            ECLevel::LOW => seq![BlockInfo { block_count: 3, total_per: 145, data_per: 115, ec_cap: 15 }, BlockInfo { block_count: 1, total_per: 146, data_per: 116, ec_cap: 15 }],
            ECLevel::MEDIUM => seq![BlockInfo { block_count: 4, total_per: 64, data_per: 40, ec_cap: 12 }, BlockInfo { block_count: 5, total_per: 65, data_per: 41, ec_cap: 12 }],
            ECLevel::QUARTILE => seq![BlockInfo { block_count: 11, total_per: 36, data_per: 16, ec_cap: 10 }, BlockInfo { block_count: 5, total_per: 37, data_per: 17, ec_cap: 10 }],
            ECLevel::HIGH => seq![BlockInfo { block_count: 11, total_per: 36, data_per: 12, ec_cap: 12 }, BlockInfo { block_count: 5, total_per: 37, data_per: 13, ec_cap: 12 }],
        }
    } else if version == 15 {
        match level {
            ECLevel::LOW => seq![BlockInfo { block_count: 5, total_per: 109, data_per: 87, ec_cap: 11 }, BlockInfo { block_count: 1, total_per: 110, data_per: 88, ec_cap: 11 }],
            ECLevel::MEDIUM => seq![BlockInfo { block_count: 5, total_per: 65, data_per: 41, ec_cap: 12 }, BlockInfo { block_count: 5, total_per: 66, data_per: 42, ec_cap: 12 }],
            ECLevel::QUARTILE => seq![BlockInfo { block_count: 5, total_per: 54, data_per: 24, ec_cap: 15 }, BlockInfo { block_count: 7, total_per: 55, data_per: 25, ec_cap: 15 }],
            ECLevel::HIGH => seq![BlockInfo { block_count: 11, total_per: 36, data_per: 12, ec_cap: 12 }, BlockInfo { block_count: 7, total_per: 37, data_per: 13, ec_cap: 12 }],
        }
    } else if version == 16 {
        match level {
            ECLevel::LOW => seq![BlockInfo { block_count: 5, total_per: 122, data_per: 98, ec_cap: 12 }, BlockInfo { block_count: 1, total_per: 123, data_per: 99, ec_cap: 12 }],
            ECLevel::MEDIUM => seq![BlockInfo { block_count: 7, total_per: 73, data_per: 45, ec_cap: 14 }, BlockInfo { block_count: 3, total_per: 74, data_per: 46, ec_cap: 14 }],
            ECLevel::QUARTILE => seq![BlockInfo { block_count: 15, total_per: 43, data_per: 19, ec_cap: 12 }, BlockInfo { block_count: 2, total_per: 44, data_per: 20, ec_cap: 12 }],
            ECLevel::HIGH => seq![BlockInfo { block_count: 3, total_per: 45, data_per: 15, ec_cap: 15 }, BlockInfo { block_count: 13, total_per: 46, data_per: 16, ec_cap: 15 }],
        }
    } else if version == 17 {
        match level {
            ECLevel::LOW => seq![BlockInfo { block_count: 1, total_per: 135, data_per: 107, ec_cap: 14 }, BlockInfo { block_count: 5, total_per: 136, data_per: 108, ec_cap: 14 }],
            ECLevel::MEDIUM => seq![BlockInfo { block_count: 10, total_per: 74, data_per: 46, ec_cap: 14 }, BlockInfo { block_count: 1, total_per: 75, data_per: 47, ec_cap: 14 }],
            ECLevel::QUARTILE => seq![BlockInfo { block_count: 1, total_per: 50, data_per: 22, ec_cap: 14 }, BlockInfo { block_count: 15, total_per: 51, data_per: 23, ec_cap: 14 }],
            ECLevel::HIGH => seq![BlockInfo { block_count: 2, total_per: 42, data_per: 14, ec_cap: 14 }, BlockInfo { block_count: 17, total_per: 43, data_per: 15, ec_cap: 14 }],
        }
    } else if version == 18 {
        match level {
            ECLevel::LOW => seq![BlockInfo { block_count: 5, total_per: 150, data_per: 120, ec_cap: 15 }, BlockInfo { block_count: 1, total_per: 151, data_per: 121, ec_cap: 15 }],
            ECLevel::MEDIUM => seq![BlockInfo { block_count: 9, total_per: 69, data_per: 43, ec_cap: 13 }, BlockInfo { block_count: 4, total_per: 70, data_per: 44, ec_cap: 13 }],
            ECLevel::QUARTILE => seq![BlockInfo { block_count: 17, total_per: 50, data_per: 22, ec_cap: 14 }, BlockInfo { block_count: 1, total_per: 51, data_per: 23, ec_cap: 14 }],
            ECLevel::HIGH => seq![BlockInfo { block_count: 2, total_per: 42, data_per: 14, ec_cap: 14 }, BlockInfo { block_count: 19, total_per: 43, data_per: 15, ec_cap: 14 }],
        }
    } else if version == 19 {
        match level {
            ECLevel::LOW => seq![BlockInfo { block_count: 3, total_per: 141, data_per: 113, ec_cap: 14 }, BlockInfo { block_count: 4, total_per: 142, data_per: 114, ec_cap: 14 }],
            ECLevel::MEDIUM => seq![BlockInfo { block_count: 3, total_per: 70, data_per: 44, ec_cap: 13 }, BlockInfo { block_count: 11, total_per: 71, data_per: 45, ec_cap: 13 }],
            ECLevel::QUARTILE => seq![BlockInfo { block_count: 17, total_per: 47, data_per: 21, ec_cap: 13 }, BlockInfo { block_count: 4, total_per: 48, data_per: 22, ec_cap: 13 }],
            ECLevel::HIGH => seq![BlockInfo { block_count: 9, total_per: 39, data_per: 13, ec_cap: 13 }, BlockInfo { block_count: 16, total_per: 40, data_per: 14, ec_cap: 13 }],
        }
    } else if version == 20 {
        match level {
            ECLevel::LOW => seq![BlockInfo { block_count: 3, total_per: 135, data_per: 107, ec_cap: 14 }, BlockInfo { block_count: 5, total_per: 136, data_per: 108, ec_cap: 14 }],
            ECLevel::MEDIUM => seq![BlockInfo { block_count: 3, total_per: 67, data_per: 41, ec_cap: 13 }, BlockInfo { block_count: 13, total_per: 68, data_per: 42, ec_cap: 13 }],
            ECLevel::QUARTILE => seq![BlockInfo { block_count: 15, total_per: 54, data_per: 24, ec_cap: 15 }, BlockInfo { block_count: 5, total_per: 55, data_per: 25, ec_cap: 15 }],
            ECLevel::HIGH => seq![BlockInfo { block_count: 15, total_per: 43, data_per: 15, ec_cap: 14 }, BlockInfo { block_count: 10, total_per: 44, data_per: 16, ec_cap: 14 }],
        }
    } else if version == 21 {
        match level {
            ECLevel::LOW => seq![BlockInfo { block_count: 4, total_per: 144, data_per: 116, ec_cap: 14 }, BlockInfo { block_count: 4, total_per: 145, data_per: 117, ec_cap: 14 }],
            ECLevel::MEDIUM => seq![BlockInfo { block_count: 17, total_per: 68, data_per: 42, ec_cap: 13 }],
            ECLevel::QUARTILE => seq![BlockInfo { block_count: 17, total_per: 50, data_per: 22, ec_cap: 14 }, BlockInfo { block_count: 6, total_per: 51, data_per: 23, ec_cap: 14 }],
            ECLevel::HIGH => seq![BlockInfo { block_count: 19, total_per: 46, data_per: 16, ec_cap: 15 }, BlockInfo { block_count: 6, total_per: 47, data_per: 17, ec_cap: 15 }],
        }
    } else if version == 22 {
        match level {
            ECLevel::LOW => seq![BlockInfo { block_count: 2, total_per: 139, data_per: 111, ec_cap: 14 }, BlockInfo { block_count: 7, total_per: 140, data_per: 112, ec_cap: 14 }],
            ECLevel::MEDIUM => seq![BlockInfo { block_count: 17, total_per: 74, data_per: 46, ec_cap: 14 }],
            ECLevel::QUARTILE => seq![BlockInfo { block_count: 7, total_per: 54, data_per: 24, ec_cap: 15 }, BlockInfo { block_count: 16, total_per: 55, data_per: 25, ec_cap: 15 }],
            ECLevel::HIGH => seq![BlockInfo { block_count: 34, total_per: 37, data_per: 13, ec_cap: 12 }],
        }
    } else if version == 23 {
        match level {
            ECLevel::LOW => seq![BlockInfo { block_count: 4, total_per: 151, data_per: 121, ec_cap: 15 }, BlockInfo { block_count: 5, total_per: 152, data_per: 122, ec_cap: 15 }],
            ECLevel::MEDIUM => seq![BlockInfo { block_count: 4, total_per: 75, data_per: 47, ec_cap: 14 }, BlockInfo { block_count: 14, total_per: 76, data_per: 48, ec_cap: 14 }],
            ECLevel::QUARTILE => seq![BlockInfo { block_count: 11, total_per: 54, data_per: 24, ec_cap: 15 }, BlockInfo { block_count: 14, total_per: 55, data_per: 25, ec_cap: 15 }],
            ECLevel::HIGH => seq![BlockInfo { block_count: 16, total_per: 45, data_per: 15, ec_cap: 15 }, BlockInfo { block_count: 14, total_per: 46, data_per: 16, ec_cap: 15 }],
        }
    } else if version == 24 {
        match level {
            ECLevel::LOW => seq![BlockInfo { block_count: 6, total_per: 147, data_per: 117, ec_cap: 15 }, BlockInfo { block_count: 4, total_per: 148, data_per: 118, ec_cap: 15 }],
            ECLevel::MEDIUM => seq![BlockInfo { block_count: 6, total_per: 73, data_per: 45, ec_cap: 14 }, BlockInfo { block_count: 14, total_per: 74, data_per: 46, ec_cap: 14 }],
            ECLevel::QUARTILE => seq![BlockInfo { block_count: 11, total_per: 54, data_per: 24, ec_cap: 15 }, BlockInfo { block_count: 16, total_per: 55, data_per: 25, ec_cap: 15 }],
            ECLevel::HIGH => seq![BlockInfo { block_count: 30, total_per: 46, data_per: 16, ec_cap: 15 }, BlockInfo { block_count: 2, total_per: 47, data_per: 17, ec_cap: 15 }],
        }
    } else if version == 25 {
        match level {
            ECLevel::LOW => seq![BlockInfo { block_count: 8, total_per: 132, data_per: 106, ec_cap: 13 }, BlockInfo { block_count: 4, total_per: 133, data_per: 107, ec_cap: 13 }],
            ECLevel::MEDIUM => seq![BlockInfo { block_count: 8, total_per: 75, data_per: 47, ec_cap: 14 }, BlockInfo { block_count: 13, total_per: 76, data_per: 48, ec_cap: 14 }],
            ECLevel::QUARTILE => seq![BlockInfo { block_count: 7, total_per: 54, data_per: 24, ec_cap: 15 }, BlockInfo { block_count: 22, total_per: 55, data_per: 25, ec_cap: 15 }],
            ECLevel::HIGH => seq![BlockInfo { block_count: 22, total_per: 45, data_per: 15, ec_cap: 15 }, BlockInfo { block_count: 13, total_per: 46, data_per: 16, ec_cap: 15 }],
        }
    } else if version == 26 {
        match level {
            ECLevel::LOW => seq![BlockInfo { block_count: 10, total_per: 142, data_per: 114, ec_cap: 14 }, BlockInfo { block_count: 2, total_per: 143, data_per: 115, ec_cap: 14 }],
            ECLevel::MEDIUM => seq![BlockInfo { block_count: 19, total_per: 74, data_per: 46, ec_cap: 14 }, BlockInfo { block_count: 4, total_per: 75, data_per: 47, ec_cap: 14 }],
            ECLevel::QUARTILE => seq![BlockInfo { block_count: 28, total_per: 50, data_per: 22, ec_cap: 14 }, BlockInfo { block_count: 6, total_per: 51, data_per: 23, ec_cap: 14 }],
            ECLevel::HIGH => seq![BlockInfo { block_count: 33, total_per: 46, data_per: 16, ec_cap: 15 }, BlockInfo { block_count: 4, total_per: 47, data_per: 17, ec_cap: 15 }],
        }
    } else if version == 27 {
        match level {
            ECLevel::LOW => seq![BlockInfo { block_count: 8, total_per: 152, data_per: 122, ec_cap: 15 }, BlockInfo { block_count: 4, total_per: 153, data_per: 123, ec_cap: 15 }],
            ECLevel::MEDIUM => seq![BlockInfo { block_count: 22, total_per: 73, data_per: 45, ec_cap: 14 }, BlockInfo { block_count: 3, total_per: 74, data_per: 46, ec_cap: 14 }],
            ECLevel::QUARTILE => seq![BlockInfo { block_count: 8, total_per: 53, data_per: 23, ec_cap: 15 }, BlockInfo { block_count: 26, total_per: 54, data_per: 24, ec_cap: 15 }],
            ECLevel::HIGH => seq![BlockInfo { block_count: 12, total_per: 45, data_per: 15, ec_cap: 15 }, BlockInfo { block_count: 28, total_per: 46, data_per: 16, ec_cap: 15 }],
        }
    } else if version == 28 {
        match level {
            ECLevel::LOW => seq![BlockInfo { block_count: 3, total_per: 147, data_per: 117, ec_cap: 15 }, BlockInfo { block_count: 10, total_per: 148, data_per: 118, ec_cap: 15 }],
            ECLevel::MEDIUM => seq![BlockInfo { block_count: 3, total_per: 73, data_per: 45, ec_cap: 14 }, BlockInfo { block_count: 23, total_per: 74, data_per: 46, ec_cap: 14 }],
            ECLevel::QUARTILE => seq![BlockInfo { block_count: 4, total_per: 54, data_per: 24, ec_cap: 15 }, BlockInfo { block_count: 31, total_per: 55, data_per: 25, ec_cap: 15 }],
            ECLevel::HIGH => seq![BlockInfo { block_count: 11, total_per: 45, data_per: 15, ec_cap: 15 }, BlockInfo { block_count: 31, total_per: 46, data_per: 16, ec_cap: 15 }],
        }
    } else if version == 29 {
        match level {
            ECLevel::LOW => seq![BlockInfo { block_count: 7, total_per: 146, data_per: 116, ec_cap: 15 }, BlockInfo { block_count: 7, total_per: 147, data_per: 117, ec_cap: 15 }],
            ECLevel::MEDIUM => seq![BlockInfo { block_count: 21, total_per: 73, data_per: 45, ec_cap: 14 }, BlockInfo { block_count: 7, total_per: 74, data_per: 46, ec_cap: 14 }],
            ECLevel::QUARTILE => seq![BlockInfo { block_count: 1, total_per: 53, data_per: 23, ec_cap: 15 }, BlockInfo { block_count: 37, total_per: 54, data_per: 24, ec_cap: 15 }],
            ECLevel::HIGH => seq![BlockInfo { block_count: 19, total_per: 45, data_per: 15, ec_cap: 15 }, BlockInfo { block_count: 26, total_per: 46, data_per: 16, ec_cap: 15 }],
        }
    } else if version == 30 {
        match level {
            ECLevel::LOW => seq![BlockInfo { block_count: 5, total_per: 145, data_per: 115, ec_cap: 15 }, BlockInfo { block_count: 10, total_per: 146, data_per: 116, ec_cap: 15 }],
            ECLevel::MEDIUM => seq![BlockInfo { block_count: 19, total_per: 75, data_per: 47, ec_cap: 14 }, BlockInfo { block_count: 10, total_per: 76, data_per: 48, ec_cap: 14 }],
            ECLevel::QUARTILE => seq![BlockInfo { block_count: 15, total_per: 54, data_per: 24, ec_cap: 15 }, BlockInfo { block_count: 25, total_per: 55, data_per: 25, ec_cap: 15 }],
            ECLevel::HIGH => seq![BlockInfo { block_count: 23, total_per: 45, data_per: 15, ec_cap: 15 }, BlockInfo { block_count: 25, total_per: 46, data_per: 16, ec_cap: 15 }],
        }
    } else if version == 31 {
        match level {
            ECLevel::LOW => seq![BlockInfo { block_count: 13, total_per: 145, data_per: 115, ec_cap: 15 }, BlockInfo { block_count: 3, total_per: 146, data_per: 116, ec_cap: 15 }],
            ECLevel::MEDIUM => seq![BlockInfo { block_count: 2, total_per: 74, data_per: 46, ec_cap: 14 }, BlockInfo { block_count: 29, total_per: 75, data_per: 47, ec_cap: 14 }],
            ECLevel::QUARTILE => seq![BlockInfo { block_count: 42, total_per: 54, data_per: 24, ec_cap: 15 }, BlockInfo { block_count: 1, total_per: 55, data_per: 25, ec_cap: 15 }],
            ECLevel::HIGH => seq![BlockInfo { block_count: 23, total_per: 45, data_per: 15, ec_cap: 15 }, BlockInfo { block_count: 28, total_per: 46, data_per: 16, ec_cap: 15 }],
        }
    } else if version == 32 {
        match level {
            ECLevel::LOW => seq![BlockInfo { block_count: 17, total_per: 145, data_per: 115, ec_cap: 15 }],
            ECLevel::MEDIUM => seq![BlockInfo { block_count: 10, total_per: 74, data_per: 46, ec_cap: 14 }, BlockInfo { block_count: 23, total_per: 75, data_per: 47, ec_cap: 14 }],
            ECLevel::QUARTILE => seq![BlockInfo { block_count: 10, total_per: 54, data_per: 24, ec_cap: 15 }, BlockInfo { block_count: 35, total_per: 55, data_per: 25, ec_cap: 15 }],
            ECLevel::HIGH => seq![BlockInfo { block_count: 19, total_per: 45, data_per: 15, ec_cap: 15 }, BlockInfo { block_count: 35, total_per: 46, data_per: 16, ec_cap: 15 }],
        }
    } else if version == 33 {
        match level {
            ECLevel::LOW => seq![BlockInfo { block_count: 17, total_per: 145, data_per: 115, ec_cap: 15 }, BlockInfo { block_count: 1, total_per: 146, data_per: 116, ec_cap: 15 }],
            ECLevel::MEDIUM => seq![BlockInfo { block_count: 14, total_per: 74, data_per: 46, ec_cap: 14 }, BlockInfo { block_count: 21, total_per: 75, data_per: 47, ec_cap: 14 }],
            ECLevel::QUARTILE => seq![BlockInfo { block_count: 29, total_per: 54, data_per: 24, ec_cap: 15 }, BlockInfo { block_count: 19, total_per: 55, data_per: 25, ec_cap: 15 }],
            ECLevel::HIGH => seq![BlockInfo { block_count: 11, total_per: 45, data_per: 15, ec_cap: 15 }, BlockInfo { block_count: 46, total_per: 46, data_per: 16, ec_cap: 15 }],
        }
    } else if version == 34 {
        match level {
            ECLevel::LOW => seq![BlockInfo { block_count: 13, total_per: 145, data_per: 115, ec_cap: 15 }, BlockInfo { block_count: 6, total_per: 146, data_per: 116, ec_cap: 15 }],
            ECLevel::MEDIUM => seq![BlockInfo { block_count: 14, total_per: 74, data_per: 46, ec_cap: 14 }, BlockInfo { block_count: 23, total_per: 75, data_per: 47, ec_cap: 14 }],
            ECLevel::QUARTILE => seq![BlockInfo { block_count: 44, total_per: 54, data_per: 24, ec_cap: 15 }, BlockInfo { block_count: 7, total_per: 55, data_per: 25, ec_cap: 15 }],
            ECLevel::HIGH => seq![BlockInfo { block_count: 59, total_per: 46, data_per: 16, ec_cap: 15 }, BlockInfo { block_count: 1, total_per: 47, data_per: 17, ec_cap: 15 }],
        }
    } else if version == 35 {
        match level {
            ECLevel::LOW => seq![BlockInfo { block_count: 12, total_per: 151, data_per: 121, ec_cap: 15 }, BlockInfo { block_count: 7, total_per: 152, data_per: 122, ec_cap: 15 }],
            ECLevel::MEDIUM => seq![BlockInfo { block_count: 12, total_per: 75, data_per: 47, ec_cap: 14 }, BlockInfo { block_count: 26, total_per: 76, data_per: 48, ec_cap: 14 }],
            ECLevel::QUARTILE => seq![BlockInfo { block_count: 39, total_per: 54, data_per: 24, ec_cap: 15 }, BlockInfo { block_count: 14, total_per: 55, data_per: 25, ec_cap: 15 }],
            ECLevel::HIGH => seq![BlockInfo { block_count: 22, total_per: 45, data_per: 15, ec_cap: 15 }, BlockInfo { block_count: 41, total_per: 46, data_per: 16, ec_cap: 15 }],
        }
    } else if version == 36 {
        match level {
            ECLevel::LOW => seq![BlockInfo { block_count: 6, total_per: 151, data_per: 121, ec_cap: 15 }, BlockInfo { block_count: 14, total_per: 152, data_per: 122, ec_cap: 15 }],
            ECLevel::MEDIUM => seq![BlockInfo { block_count: 6, total_per: 75, data_per: 47, ec_cap: 14 }, BlockInfo { block_count: 34, total_per: 76, data_per: 48, ec_cap: 14 }],
            ECLevel::QUARTILE => seq![BlockInfo { block_count: 46, total_per: 54, data_per: 24, ec_cap: 15 }, BlockInfo { block_count: 10, total_per: 55, data_per: 25, ec_cap: 15 }],
            ECLevel::HIGH => seq![BlockInfo { block_count: 2, total_per: 45, data_per: 15, ec_cap: 15 }, BlockInfo { block_count: 64, total_per: 46, data_per: 16, ec_cap: 15 }],
        }
    } else if version == 37 {
        match level {
            ECLevel::LOW => seq![BlockInfo { block_count: 17, total_per: 152, data_per: 122, ec_cap: 15 }, BlockInfo { block_count: 4, total_per: 153, data_per: 123, ec_cap: 15 }],
            ECLevel::MEDIUM => seq![BlockInfo { block_count: 29, total_per: 74, data_per: 46, ec_cap: 14 }, BlockInfo { block_count: 14, total_per: 75, data_per: 47, ec_cap: 14 }],
            ECLevel::QUARTILE => seq![BlockInfo { block_count: 49, total_per: 54, data_per: 24, ec_cap: 15 }, BlockInfo { block_count: 10, total_per: 55, data_per: 25, ec_cap: 15 }],
            ECLevel::HIGH => seq![BlockInfo { block_count: 24, total_per: 45, data_per: 15, ec_cap: 15 }, BlockInfo { block_count: 46, total_per: 46, data_per: 16, ec_cap: 15 }],
        }
    } else if version == 38 {
        match level {
            ECLevel::LOW => seq![BlockInfo { block_count: 4, total_per: 152, data_per: 122, ec_cap: 15 }, BlockInfo { block_count: 18, total_per: 153, data_per: 123, ec_cap: 15 }],
            ECLevel::MEDIUM => seq![BlockInfo { block_count: 13, total_per: 74, data_per: 46, ec_cap: 14 }, BlockInfo { block_count: 32, total_per: 75, data_per: 47, ec_cap: 14 }],
            ECLevel::QUARTILE => seq![BlockInfo { block_count: 48, total_per: 54, data_per: 24, ec_cap: 15 }, BlockInfo { block_count: 14, total_per: 55, data_per: 25, ec_cap: 15 }],
            ECLevel::HIGH => seq![BlockInfo { block_count: 42, total_per: 45, data_per: 15, ec_cap: 15 }, BlockInfo { block_count: 32, total_per: 46, data_per: 16, ec_cap: 15 }],
        }
    } else if version == 39 {
        match level {
            ECLevel::LOW => seq![BlockInfo { block_count: 20, total_per: 147, data_per: 117, ec_cap: 15 }, BlockInfo { block_count: 4, total_per: 148, data_per: 118, ec_cap: 15 }],
            ECLevel::MEDIUM => seq![BlockInfo { block_count: 40, total_per: 75, data_per: 47, ec_cap: 14 }, BlockInfo { block_count: 7, total_per: 76, data_per: 48, ec_cap: 14 }],
            ECLevel::QUARTILE => seq![BlockInfo { block_count: 43, total_per: 54, data_per: 24, ec_cap: 15 }, BlockInfo { block_count: 22, total_per: 55, data_per: 25, ec_cap: 15 }],
            ECLevel::HIGH => seq![BlockInfo { block_count: 10, total_per: 45, data_per: 15, ec_cap: 15 }, BlockInfo { block_count: 67, total_per: 46, data_per: 16, ec_cap: 15 }],
        }
    } else if version == 40 {
        match level {
            ECLevel::LOW => seq![BlockInfo { block_count: 19, total_per: 148, data_per: 118, ec_cap: 15 }, BlockInfo { block_count: 6, total_per: 149, data_per: 119, ec_cap: 15 }],
            ECLevel::MEDIUM => seq![BlockInfo { block_count: 18, total_per: 75, data_per: 47, ec_cap: 14 }, BlockInfo { block_count: 31, total_per: 76, data_per: 48, ec_cap: 14 }],
            ECLevel::QUARTILE => seq![BlockInfo { block_count: 34, total_per: 54, data_per: 24, ec_cap: 15 }, BlockInfo { block_count: 34, total_per: 55, data_per: 25, ec_cap: 15 }],
            ECLevel::HIGH => seq![BlockInfo { block_count: 20, total_per: 45, data_per: 15, ec_cap: 15 }, BlockInfo { block_count: 61, total_per: 46, data_per: 16, ec_cap: 15 }],
        }
    } else {
        Seq::empty()
    }
}

/// One shape repeated as many times as its block count.
pub open spec fn repeat_shape(bi: BlockInfo) -> Seq<BlockInfo> {
    Seq::new(bi.block_count as nat, |i: int| bi)
}

/// A shape list unwound: every shape repeated by its block count, in
/// order.
pub open spec fn unwind_shapes(s: Seq<BlockInfo>) -> Seq<BlockInfo>
    decreases s.len(),
{
    if s.len() == 0 {
        Seq::empty()
    } else {
        unwind_shapes(s.drop_last()) + repeat_shape(s.last())
    }
}

/// The block shapes of a version and level, one entry per physical
/// block.
pub open spec fn spec_block_info(version: int, level: ECLevel) -> Seq<BlockInfo> {
    unwind_shapes(spec_block_table(version, level))
}

/// Sum of the codeword counts over a block sequence.
pub open spec fn sum_total_per(s: Seq<BlockInfo>) -> int
    decreases s.len(),
{
    if s.len() == 0 {
        0
    } else {
        sum_total_per(s.drop_last()) + s.last().total_per
    }
}

/// Sum of the data codeword counts over a block sequence.
pub open spec fn sum_data_per(s: Seq<BlockInfo>) -> int
    decreases s.len(),
{
    if s.len() == 0 {
        0
    } else {
        sum_data_per(s.drop_last()) + s.last().data_per
    }
}


/// The data codeword capacity of a version and level: the codewords left
/// for data once every block's error correction share is taken out.
pub open spec fn data_capacity(version: int, level: ECLevel) -> int {
    if version == 1 {
        match level {
            ECLevel::LOW => 19,
            ECLevel::MEDIUM => 16,
            ECLevel::QUARTILE => 13,
            ECLevel::HIGH => 9,
        }
    } else if version == 2 {
        match level {
            ECLevel::LOW => 34,
            ECLevel::MEDIUM => 28,
            ECLevel::QUARTILE => 22,
            ECLevel::HIGH => 16,
        }
    } else if version == 3 {
        match level {
            ECLevel::LOW => 55,
            ECLevel::MEDIUM => 44,
            ECLevel::QUARTILE => 34,
            ECLevel::HIGH => 26,
        }
    } else if version == 4 {
        match level {
            ECLevel::LOW => 80,
            ECLevel::MEDIUM => 64,
            ECLevel::QUARTILE => 48,
            ECLevel::HIGH => 36,
        }
    } else if version == 5 {
        match level {
            ECLevel::LOW => 108,
            ECLevel::MEDIUM => 86,
            ECLevel::QUARTILE => 62,
            ECLevel::HIGH => 46,
        }
    } else if version == 6 {
        match level {
            ECLevel::LOW => 136,
            ECLevel::MEDIUM => 108,
            ECLevel::QUARTILE => 76,
            ECLevel::HIGH => 60,
        }
    } else if version == 7 {
        match level {
            ECLevel::LOW => 156,
            ECLevel::MEDIUM => 124,
            ECLevel::QUARTILE => 88,
            ECLevel::HIGH => 66,
        }
    } else if version == 8 {
        match level {
            ECLevel::LOW => 194,
            ECLevel::MEDIUM => 154,
            ECLevel::QUARTILE => 110,
            ECLevel::HIGH => 86,
        }
    } else if version == 9 {
        match level {
            ECLevel::LOW => 232,
            ECLevel::MEDIUM => 182,
            ECLevel::QUARTILE => 132,
            ECLevel::HIGH => 100,
        }
    } else if version == 10 {
        match level {
            ECLevel::LOW => 274,
            ECLevel::MEDIUM => 216,
            ECLevel::QUARTILE => 154,
            ECLevel::HIGH => 122,
        }
    } else if version == 11 {
        match level {
            ECLevel::LOW => 324,
            ECLevel::MEDIUM => 254,
            ECLevel::QUARTILE => 180,
            ECLevel::HIGH => 140,
        }
    } else if version == 12 {
        match level {
            ECLevel::LOW => 370,
            ECLevel::MEDIUM => 290,
            ECLevel::QUARTILE => 206,
            ECLevel::HIGH => 158,
        }
    } else if version == 13 {
        match level {
            ECLevel::LOW => 428,
            ECLevel::MEDIUM => 334,
            ECLevel::QUARTILE => 244,
            ECLevel::HIGH => 180,
        }
    } else if version == 14 {
        match level {
            ECLevel::LOW => 461,
            ECLevel::MEDIUM => 365,
            ECLevel::QUARTILE => 261,
            ECLevel::HIGH => 197,
        }
    } else if version == 15 {
        match level {
            ECLevel::LOW => 523,
            ECLevel::MEDIUM => 415,
            ECLevel::QUARTILE => 295,
            ECLevel::HIGH => 223,
        }
    } else if version == 16 {
        match level {
            ECLevel::LOW => 589,
            ECLevel::MEDIUM => 453,
            ECLevel::QUARTILE => 325,
            ECLevel::HIGH => 253,
        }
    } else if version == 17 {
        match level {
            ECLevel::LOW => 647,
            ECLevel::MEDIUM => 507,
            ECLevel::QUARTILE => 367,
            ECLevel::HIGH => 283,
        }
    } else if version == 18 {
        match level {
            ECLevel::LOW => 721,
            ECLevel::MEDIUM => 563,
            ECLevel::QUARTILE => 397,
            ECLevel::HIGH => 313,
        }
    } else if version == 19 {
        match level {
            ECLevel::LOW => 795,
            ECLevel::MEDIUM => 627,
            ECLevel::QUARTILE => 445,
            ECLevel::HIGH => 341,
        }
    } else if version == 20 {
        match level {
            ECLevel::LOW => 861,
            ECLevel::MEDIUM => 669,
            ECLevel::QUARTILE => 485,
            ECLevel::HIGH => 385,
        }
    } else if version == 21 {
        match level {
            ECLevel::LOW => 932,
            ECLevel::MEDIUM => 714,
            ECLevel::QUARTILE => 512,
            ECLevel::HIGH => 406,
        }
    } else if version == 22 {
        match level {
            ECLevel::LOW => 1006,
            ECLevel::MEDIUM => 782,
            ECLevel::QUARTILE => 568,
            ECLevel::HIGH => 442,
        }
    } else if version == 23 {
        match level {
            ECLevel::LOW => 1094,
            ECLevel::MEDIUM => 860,
            ECLevel::QUARTILE => 614,
            ECLevel::HIGH => 464,
        }
    } else if version == 24 {
        match level {
            ECLevel::LOW => 1174,
            ECLevel::MEDIUM => 914,
            ECLevel::QUARTILE => 664,
            ECLevel::HIGH => 514,
        }
    } else if version == 25 {
        match level {
            ECLevel::LOW => 1276,
            ECLevel::MEDIUM => 1000,
            ECLevel::QUARTILE => 718,
            ECLevel::HIGH => 538,
        }
    } else if version == 26 {
        match level {
            ECLevel::LOW => 1370,
            ECLevel::MEDIUM => 1062,
            ECLevel::QUARTILE => 754,
            ECLevel::HIGH => 596,
        }
    } else if version == 27 {
        match level {
            ECLevel::LOW => 1468,
            ECLevel::MEDIUM => 1128,
            ECLevel::QUARTILE => 808,
            ECLevel::HIGH => 628,
        }
    } else if version == 28 {
        match level {
            ECLevel::LOW => 1531,
            ECLevel::MEDIUM => 1193,
            ECLevel::QUARTILE => 871,
            ECLevel::HIGH => 661,
        }
    } else if version == 29 {
        match level {
            ECLevel::LOW => 1631,
            ECLevel::MEDIUM => 1267,
            ECLevel::QUARTILE => 911,
            ECLevel::HIGH => 701,
        }
    } else if version == 30 {
        match level {
            ECLevel::LOW => 1735,
            ECLevel::MEDIUM => 1373,
            ECLevel::QUARTILE => 985,
            ECLevel::HIGH => 745,
        }
    } else if version == 31 {
        match level {
            ECLevel::LOW => 1843,
            ECLevel::MEDIUM => 1455,
            ECLevel::QUARTILE => 1033,
            ECLevel::HIGH => 793,
        }
    } else if version == 32 {
        match level {
            ECLevel::LOW => 1955,
            ECLevel::MEDIUM => 1541,
            ECLevel::QUARTILE => 1115,
            ECLevel::HIGH => 845,
        }
    } else if version == 33 {
        match level {
            ECLevel::LOW => 2071,
            ECLevel::MEDIUM => 1631,
            ECLevel::QUARTILE => 1171,
            ECLevel::HIGH => 901,
        }
    } else if version == 34 {
        match level {
            ECLevel::LOW => 2191,
            ECLevel::MEDIUM => 1725,
            ECLevel::QUARTILE => 1231,
            ECLevel::HIGH => 961,
        }
    } else if version == 35 {
        match level {
            ECLevel::LOW => 2306,
            ECLevel::MEDIUM => 1812,
            ECLevel::QUARTILE => 1286,
            ECLevel::HIGH => 986,
        }
    } else if version == 36 {
        match level {
            ECLevel::LOW => 2434,
            ECLevel::MEDIUM => 1914,
            ECLevel::QUARTILE => 1354,
            ECLevel::HIGH => 1054,
        }
    } else if version == 37 {
        match level {
            ECLevel::LOW => 2566,
            ECLevel::MEDIUM => 1992,
            ECLevel::QUARTILE => 1426,
            ECLevel::HIGH => 1096,
        }
    } else if version == 38 {
        match level {
            ECLevel::LOW => 2702,
            ECLevel::MEDIUM => 2102,
            ECLevel::QUARTILE => 1502,
            ECLevel::HIGH => 1142,
        }
    } else if version == 39 {
        match level {
            ECLevel::LOW => 2812,
            ECLevel::MEDIUM => 2216,
            ECLevel::QUARTILE => 1582,
            ECLevel::HIGH => 1222,
        }
    } else if version == 40 {
        match level {
            ECLevel::LOW => 2956,
            ECLevel::MEDIUM => 2334,
            ECLevel::QUARTILE => 1666,
            ECLevel::HIGH => 1276,
        }
    } else {
        0
    }
}

/// Data codeword count of a shape list before unwinding: each shape's
/// data codewords weighted by its block count.
pub open spec fn weighted_data(s: Seq<BlockInfo>) -> int
    decreases s.len(),
{
    if s.len() == 0 {
        0
    } else {
        weighted_data(s.drop_last()) + s.last().block_count * s.last().data_per
    }
}

/// Data codeword sums add over concatenation.
proof fn lemma_sum_data_append(a: Seq<BlockInfo>, b: Seq<BlockInfo>)
    ensures
        sum_data_per(a + b) == sum_data_per(a) + sum_data_per(b),
    decreases b.len(),
{
    if b.len() == 0 {
        assert(a + b =~= a);
    } else {
        assert((a + b).drop_last() =~= a + b.drop_last());
        assert((a + b).last() == b.last());
        lemma_sum_data_append(a, b.drop_last());
    }
}

/// A shape repeated `n` times carries `n` times its data codewords.
proof fn lemma_sum_data_new(bi: BlockInfo, n: nat)
    ensures
        sum_data_per(Seq::new(n, |i: int| bi)) == n * bi.data_per,
    decreases n,
{
    if n == 0 {
        vstd::arithmetic::mul::lemma_mul_basics(bi.data_per as int);
    } else {
        assert(Seq::new(n, |i: int| bi).drop_last() =~= Seq::new((n - 1) as nat, |i: int| bi));
        lemma_sum_data_new(bi, (n - 1) as nat);
        vstd::arithmetic::mul::lemma_mul_is_distributive_add_other_way(
            bi.data_per as int,
            n as int - 1,
            1,
        );
        vstd::arithmetic::mul::lemma_mul_basics(bi.data_per as int);
    }
}

/// Unwinding a shape list keeps its weighted data codeword count.
proof fn lemma_weighted_data_unwind(s: Seq<BlockInfo>)
    ensures
        sum_data_per(unwind_shapes(s)) == weighted_data(s),
    decreases s.len(),
{
    if s.len() > 0 {
        lemma_weighted_data_unwind(s.drop_last());
        lemma_sum_data_append(unwind_shapes(s.drop_last()), repeat_shape(s.last()));
        lemma_sum_data_new(s.last(), s.last().block_count as nat);
    }
}

/// The data codewords of every version and level sum to the version's
/// data capacity.
#[verifier::rlimit(100)]
pub proof fn lemma_block_data_capacity()
    ensures
        forall|v: int, l: ECLevel|
            1 <= v <= 40 ==> sum_data_per(#[trigger] spec_block_info(v, l)) == data_capacity(v, l),
{
    assert forall|v: int, l: ECLevel| 1 <= v <= 40 implies sum_data_per(
        #[trigger] spec_block_info(v, l),
    ) == data_capacity(v, l) by {
        lemma_weighted_data_unwind(spec_block_table(v, l));
        reveal_with_fuel(weighted_data, 4);
        let c0: int = 1;
        let d0: int = 9;
        assert(c0 * d0 == 9) by (nonlinear_arith)
            requires
                c0 == 1,
                d0 == 9,
        ;
        let c1: int = 1;
        let d1: int = 13;
        assert(c1 * d1 == 13) by (nonlinear_arith)
            requires
                c1 == 1,
                d1 == 13,
        ;
        let c2: int = 1;
        let d2: int = 14;
        assert(c2 * d2 == 14) by (nonlinear_arith)
            requires
                c2 == 1,
                d2 == 14,
        ;
        let c3: int = 1;
        let d3: int = 16;
        assert(c3 * d3 == 16) by (nonlinear_arith)
            requires
                c3 == 1,
                d3 == 16,
        ;
        let c4: int = 1;
        let d4: int = 17;
        assert(c4 * d4 == 17) by (nonlinear_arith)
            requires
                c4 == 1,
                d4 == 17,
        ;
        let c5: int = 1;
        let d5: int = 19;
        assert(c5 * d5 == 19) by (nonlinear_arith)
            requires
                c5 == 1,
                d5 == 19,
        ;
        let c6: int = 1;
        let d6: int = 22;
        assert(c6 * d6 == 22) by (nonlinear_arith)
            requires
                c6 == 1,
                d6 == 22,
        ;
        let c7: int = 1;
        let d7: int = 23;
        assert(c7 * d7 == 23) by (nonlinear_arith)
            requires
                c7 == 1,
                d7 == 23,
        ;
        let c8: int = 1;
        let d8: int = 25;
        assert(c8 * d8 == 25) by (nonlinear_arith)
            requires
                c8 == 1,
                d8 == 25,
        ;
        let c9: int = 1;
        let d9: int = 28;
        assert(c9 * d9 == 28) by (nonlinear_arith)
            requires
                c9 == 1,
                d9 == 28,
        ;
        let c10: int = 1;
        let d10: int = 34;
        assert(c10 * d10 == 34) by (nonlinear_arith)
            requires
                c10 == 1,
                d10 == 34,
        ;
        let c11: int = 1;
        let d11: int = 38;
        assert(c11 * d11 == 38) by (nonlinear_arith)
            requires
                c11 == 1,
                d11 == 38,
        ;
        let c12: int = 1;
        let d12: int = 44;
        assert(c12 * d12 == 44) by (nonlinear_arith)
            requires
                c12 == 1,
                d12 == 44,
        ;
        let c13: int = 1;
        let d13: int = 47;
        assert(c13 * d13 == 47) by (nonlinear_arith)
            requires
                c13 == 1,
                d13 == 47,
        ;
        let c14: int = 1;
        let d14: int = 50;
        assert(c14 * d14 == 50) by (nonlinear_arith)
            requires
                c14 == 1,
                d14 == 50,
        ;
        let c15: int = 1;
        let d15: int = 55;
        assert(c15 * d15 == 55) by (nonlinear_arith)
            requires
                c15 == 1,
                d15 == 55,
        ;
        let c16: int = 1;
        let d16: int = 80;
        assert(c16 * d16 == 80) by (nonlinear_arith)
            requires
                c16 == 1,
                d16 == 80,
        ;
        let c17: int = 1;
        let d17: int = 88;
        assert(c17 * d17 == 88) by (nonlinear_arith)
            requires
                c17 == 1,
                d17 == 88,
        ;
        let c18: int = 1;
        let d18: int = 99;
        assert(c18 * d18 == 99) by (nonlinear_arith)
            requires
                c18 == 1,
                d18 == 99,
        ;
        let c19: int = 1;
        let d19: int = 107;
        assert(c19 * d19 == 107) by (nonlinear_arith)
            requires
                c19 == 1,
                d19 == 107,
        ;
        let c20: int = 1;
        let d20: int = 108;
        assert(c20 * d20 == 108) by (nonlinear_arith)
            requires
                c20 == 1,
                d20 == 108,
        ;
        let c21: int = 1;
        let d21: int = 116;
        assert(c21 * d21 == 116) by (nonlinear_arith)
            requires
                c21 == 1,
                d21 == 116,
        ;
        let c22: int = 1;
        let d22: int = 121;
        assert(c22 * d22 == 121) by (nonlinear_arith)
            requires
                c22 == 1,
                d22 == 121,
        ;
        let c23: int = 2;
        let d23: int = 11;
        assert(c23 * d23 == 22) by (nonlinear_arith)
            requires
                c23 == 2,
                d23 == 11,
        ;
        let c24: int = 2;
        let d24: int = 12;
        assert(c24 * d24 == 24) by (nonlinear_arith)
            requires
                c24 == 2,
                d24 == 12,
        ;
        let c25: int = 2;
        let d25: int = 13;
        assert(c25 * d25 == 26) by (nonlinear_arith)
            requires
                c25 == 2,
                d25 == 13,
        ;
        let c26: int = 2;
        let d26: int = 14;
        assert(c26 * d26 == 28) by (nonlinear_arith)
            requires
                c26 == 2,
                d26 == 14,
        ;
        let c27: int = 2;
        let d27: int = 15;
        assert(c27 * d27 == 30) by (nonlinear_arith)
            requires
                c27 == 2,
                d27 == 15,
        ;
        let c28: int = 2;
        let d28: int = 16;
        assert(c28 * d28 == 32) by (nonlinear_arith)
            requires
                c28 == 2,
                d28 == 16,
        ;
        let c29: int = 2;
        let d29: int = 17;
        assert(c29 * d29 == 34) by (nonlinear_arith)
            requires
                c29 == 2,
                d29 == 17,
        ;
        let c30: int = 2;
        let d30: int = 19;
        assert(c30 * d30 == 38) by (nonlinear_arith)
            requires
                c30 == 2,
                d30 == 19,
        ;
        let c31: int = 2;
        let d31: int = 20;
        assert(c31 * d31 == 40) by (nonlinear_arith)
            requires
                c31 == 2,
                d31 == 20,
        ;
        let c32: int = 2;
        let d32: int = 24;
        assert(c32 * d32 == 48) by (nonlinear_arith)
            requires
                c32 == 2,
                d32 == 24,
        ;
        let c33: int = 2;
        let d33: int = 32;
        assert(c33 * d33 == 64) by (nonlinear_arith)
            requires
                c33 == 2,
                d33 == 32,
        ;
        let c34: int = 2;
        let d34: int = 37;
        assert(c34 * d34 == 74) by (nonlinear_arith)
            requires
                c34 == 2,
                d34 == 37,
        ;
        let c35: int = 2;
        let d35: int = 38;
        assert(c35 * d35 == 76) by (nonlinear_arith)
            requires
                c35 == 2,
                d35 == 38,
        ;
        let c36: int = 2;
        let d36: int = 39;
        assert(c36 * d36 == 78) by (nonlinear_arith)
            requires
                c36 == 2,
                d36 == 39,
        ;
        let c37: int = 2;
        let d37: int = 43;
        assert(c37 * d37 == 86) by (nonlinear_arith)
            requires
                c37 == 2,
                d37 == 43,
        ;
        let c38: int = 2;
        let d38: int = 46;
        assert(c38 * d38 == 92) by (nonlinear_arith)
            requires
                c38 == 2,
                d38 == 46,
        ;
        let c39: int = 2;
        let d39: int = 68;
        assert(c39 * d39 == 136) by (nonlinear_arith)
            requires
                c39 == 2,
                d39 == 68,
        ;
        let c40: int = 2;
        let d40: int = 69;
        assert(c40 * d40 == 138) by (nonlinear_arith)
            requires
                c40 == 2,
                d40 == 69,
        ;
        let c41: int = 2;
        let d41: int = 78;
        assert(c41 * d41 == 156) by (nonlinear_arith)
            requires
                c41 == 2,
                d41 == 78,
        ;
        let c42: int = 2;
        let d42: int = 92;
        assert(c42 * d42 == 184) by (nonlinear_arith)
            requires
                c42 == 2,
                d42 == 92,
        ;
        let c43: int = 2;
        let d43: int = 93;
        assert(c43 * d43 == 186) by (nonlinear_arith)
            requires
                c43 == 2,
                d43 == 93,
        ;
        let c44: int = 2;
        let d44: int = 97;
        assert(c44 * d44 == 194) by (nonlinear_arith)
            requires
                c44 == 2,
                d44 == 97,
        ;
        let c45: int = 2;
        let d45: int = 111;
        assert(c45 * d45 == 222) by (nonlinear_arith)
            requires
                c45 == 2,
                d45 == 111,
        ;
        let c46: int = 2;
        let d46: int = 115;
        assert(c46 * d46 == 230) by (nonlinear_arith)
            requires
                c46 == 2,
                d46 == 115,
        ;
        let c47: int = 2;
        let d47: int = 116;
        assert(c47 * d47 == 232) by (nonlinear_arith)
            requires
                c47 == 2,
                d47 == 116,
        ;
        let c48: int = 3;
        let d48: int = 12;
        assert(c48 * d48 == 36) by (nonlinear_arith)
            requires
                c48 == 3,
                d48 == 12,
        ;
        let c49: int = 3;
        let d49: int = 15;
        assert(c49 * d49 == 45) by (nonlinear_arith)
            requires
                c49 == 3,
                d49 == 15,
        ;
        let c50: int = 3;
        let d50: int = 36;
        assert(c50 * d50 == 108) by (nonlinear_arith)
            requires
                c50 == 3,
                d50 == 36,
        ;
        let c51: int = 3;
        let d51: int = 41;
        assert(c51 * d51 == 123) by (nonlinear_arith)
            requires
                c51 == 3,
                d51 == 41,
        ;
        let c52: int = 3;
        let d52: int = 44;
        assert(c52 * d52 == 132) by (nonlinear_arith)
            requires
                c52 == 3,
                d52 == 44,
        ;
        let c53: int = 3;
        let d53: int = 45;
        assert(c53 * d53 == 135) by (nonlinear_arith)
            requires
                c53 == 3,
                d53 == 45,
        ;
        let c54: int = 3;
        let d54: int = 46;
        assert(c54 * d54 == 138) by (nonlinear_arith)
            requires
                c54 == 3,
                d54 == 46,
        ;
        let c55: int = 3;
        let d55: int = 107;
        assert(c55 * d55 == 321) by (nonlinear_arith)
            requires
                c55 == 3,
                d55 == 107,
        ;
        let c56: int = 3;
        let d56: int = 113;
        assert(c56 * d56 == 339) by (nonlinear_arith)
            requires
                c56 == 3,
                d56 == 113,
        ;
        let c57: int = 3;
        let d57: int = 115;
        assert(c57 * d57 == 345) by (nonlinear_arith)
            requires
                c57 == 3,
                d57 == 115,
        ;
        let c58: int = 3;
        let d58: int = 116;
        assert(c58 * d58 == 348) by (nonlinear_arith)
            requires
                c58 == 3,
                d58 == 116,
        ;
        let c59: int = 3;
        let d59: int = 117;
        assert(c59 * d59 == 351) by (nonlinear_arith)
            requires
                c59 == 3,
                d59 == 117,
        ;
        let c60: int = 4;
        let d60: int = 9;
        assert(c60 * d60 == 36) by (nonlinear_arith)
            requires
                c60 == 4,
                d60 == 9,
        ;
        let c61: int = 4;
        let d61: int = 12;
        assert(c61 * d61 == 48) by (nonlinear_arith)
            requires
                c61 == 4,
                d61 == 12,
        ;
        let c62: int = 4;
        let d62: int = 13;
        assert(c62 * d62 == 52) by (nonlinear_arith)
            requires
                c62 == 4,
                d62 == 13,
        ;
        let c63: int = 4;
        let d63: int = 14;
        assert(c63 * d63 == 56) by (nonlinear_arith)
            requires
                c63 == 4,
                d63 == 14,
        ;
        let c64: int = 4;
        let d64: int = 15;
        assert(c64 * d64 == 60) by (nonlinear_arith)
            requires
                c64 == 4,
                d64 == 15,
        ;
        let c65: int = 4;
        let d65: int = 16;
        assert(c65 * d65 == 64) by (nonlinear_arith)
            requires
                c65 == 4,
                d65 == 16,
        ;
        let c66: int = 4;
        let d66: int = 17;
        assert(c66 * d66 == 68) by (nonlinear_arith)
            requires
                c66 == 4,
                d66 == 17,
        ;
        let c67: int = 4;
        let d67: int = 18;
        assert(c67 * d67 == 72) by (nonlinear_arith)
            requires
                c67 == 4,
                d67 == 18,
        ;
        let c68: int = 4;
        let d68: int = 19;
        assert(c68 * d68 == 76) by (nonlinear_arith)
            requires
                c68 == 4,
                d68 == 19,
        ;
        let c69: int = 4;
        let d69: int = 20;
        assert(c69 * d69 == 80) by (nonlinear_arith)
            requires
                c69 == 4,
                d69 == 20,
        ;
        let c70: int = 4;
        let d70: int = 21;
        assert(c70 * d70 == 84) by (nonlinear_arith)
            requires
                c70 == 4,
                d70 == 21,
        ;
        let c71: int = 4;
        let d71: int = 22;
        assert(c71 * d71 == 88) by (nonlinear_arith)
            requires
                c71 == 4,
                d71 == 22,
        ;
        let c72: int = 4;
        let d72: int = 23;
        assert(c72 * d72 == 92) by (nonlinear_arith)
            requires
                c72 == 4,
                d72 == 23,
        ;
        let c73: int = 4;
        let d73: int = 24;
        assert(c73 * d73 == 96) by (nonlinear_arith)
            requires
                c73 == 4,
                d73 == 24,
        ;
        let c74: int = 4;
        let d74: int = 27;
        assert(c74 * d74 == 108) by (nonlinear_arith)
            requires
                c74 == 4,
                d74 == 27,
        ;
        let c75: int = 4;
        let d75: int = 31;
        assert(c75 * d75 == 124) by (nonlinear_arith)
            requires
                c75 == 4,
                d75 == 31,
        ;
        let c76: int = 4;
        let d76: int = 40;
        assert(c76 * d76 == 160) by (nonlinear_arith)
            requires
                c76 == 4,
                d76 == 40,
        ;
        let c77: int = 4;
        let d77: int = 43;
        assert(c77 * d77 == 172) by (nonlinear_arith)
            requires
                c77 == 4,
                d77 == 43,
        ;
        let c78: int = 4;
        let d78: int = 44;
        assert(c78 * d78 == 176) by (nonlinear_arith)
            requires
                c78 == 4,
                d78 == 44,
        ;
        let c79: int = 4;
        let d79: int = 47;
        assert(c79 * d79 == 188) by (nonlinear_arith)
            requires
                c79 == 4,
                d79 == 47,
        ;
        let c80: int = 4;
        let d80: int = 51;
        assert(c80 * d80 == 204) by (nonlinear_arith)
            requires
                c80 == 4,
                d80 == 51,
        ;
        let c81: int = 4;
        let d81: int = 81;
        assert(c81 * d81 == 324) by (nonlinear_arith)
            requires
                c81 == 4,
                d81 == 81,
        ;
        let c82: int = 4;
        let d82: int = 107;
        assert(c82 * d82 == 428) by (nonlinear_arith)
            requires
                c82 == 4,
                d82 == 107,
        ;
        let c83: int = 4;
        let d83: int = 114;
        assert(c83 * d83 == 456) by (nonlinear_arith)
            requires
                c83 == 4,
                d83 == 114,
        ;
        let c84: int = 4;
        let d84: int = 116;
        assert(c84 * d84 == 464) by (nonlinear_arith)
            requires
                c84 == 4,
                d84 == 116,
        ;
        let c85: int = 4;
        let d85: int = 117;
        assert(c85 * d85 == 468) by (nonlinear_arith)
            requires
                c85 == 4,
                d85 == 117,
        ;
        let c86: int = 4;
        let d86: int = 118;
        assert(c86 * d86 == 472) by (nonlinear_arith)
            requires
                c86 == 4,
                d86 == 118,
        ;
        let c87: int = 4;
        let d87: int = 121;
        assert(c87 * d87 == 484) by (nonlinear_arith)
            requires
                c87 == 4,
                d87 == 121,
        ;
        let c88: int = 4;
        let d88: int = 122;
        assert(c88 * d88 == 488) by (nonlinear_arith)
            requires
                c88 == 4,
                d88 == 122,
        ;
        let c89: int = 4;
        let d89: int = 123;
        assert(c89 * d89 == 492) by (nonlinear_arith)
            requires
                c89 == 4,
                d89 == 123,
        ;
        let c90: int = 5;
        let d90: int = 13;
        assert(c90 * d90 == 65) by (nonlinear_arith)
            requires
                c90 == 5,
                d90 == 13,
        ;
        let c91: int = 5;
        let d91: int = 17;
        assert(c91 * d91 == 85) by (nonlinear_arith)
            requires
                c91 == 5,
                d91 == 17,
        ;
        let c92: int = 5;
        let d92: int = 24;
        assert(c92 * d92 == 120) by (nonlinear_arith)
            requires
                c92 == 5,
                d92 == 24,
        ;
        let c93: int = 5;
        let d93: int = 25;
        assert(c93 * d93 == 125) by (nonlinear_arith)
            requires
                c93 == 5,
                d93 == 25,
        ;
        let c94: int = 5;
        let d94: int = 41;
        assert(c94 * d94 == 205) by (nonlinear_arith)
            requires
                c94 == 5,
                d94 == 41,
        ;
        let c95: int = 5;
        let d95: int = 42;
        assert(c95 * d95 == 210) by (nonlinear_arith)
            requires
                c95 == 5,
                d95 == 42,
        ;
        let c96: int = 5;
        let d96: int = 87;
        assert(c96 * d96 == 435) by (nonlinear_arith)
            requires
                c96 == 5,
                d96 == 87,
        ;
        let c97: int = 5;
        let d97: int = 98;
        assert(c97 * d97 == 490) by (nonlinear_arith)
            requires
                c97 == 5,
                d97 == 98,
        ;
        let c98: int = 5;
        let d98: int = 108;
        assert(c98 * d98 == 540) by (nonlinear_arith)
            requires
                c98 == 5,
                d98 == 108,
        ;
        let c99: int = 5;
        let d99: int = 115;
        assert(c99 * d99 == 575) by (nonlinear_arith)
            requires
                c99 == 5,
                d99 == 115,
        ;
        let c100: int = 5;
        let d100: int = 120;
        assert(c100 * d100 == 600) by (nonlinear_arith)
            requires
                c100 == 5,
                d100 == 120,
        ;
        let c101: int = 5;
        let d101: int = 122;
        assert(c101 * d101 == 610) by (nonlinear_arith)
            requires
                c101 == 5,
                d101 == 122,
        ;
        let c102: int = 6;
        let d102: int = 15;
        assert(c102 * d102 == 90) by (nonlinear_arith)
            requires
                c102 == 6,
                d102 == 15,
        ;
        let c103: int = 6;
        let d103: int = 17;
        assert(c103 * d103 == 102) by (nonlinear_arith)
            requires
                c103 == 6,
                d103 == 17,
        ;
        let c104: int = 6;
        let d104: int = 19;
        assert(c104 * d104 == 114) by (nonlinear_arith)
            requires
                c104 == 6,
                d104 == 19,
        ;
        let c105: int = 6;
        let d105: int = 21;
        assert(c105 * d105 == 126) by (nonlinear_arith)
            requires
                c105 == 6,
                d105 == 21,
        ;
        let c106: int = 6;
        let d106: int = 23;
        assert(c106 * d106 == 138) by (nonlinear_arith)
            requires
                c106 == 6,
                d106 == 23,
        ;
        let c107: int = 6;
        let d107: int = 36;
        assert(c107 * d107 == 216) by (nonlinear_arith)
            requires
                c107 == 6,
                d107 == 36,
        ;
        let c108: int = 6;
        let d108: int = 45;
        assert(c108 * d108 == 270) by (nonlinear_arith)
            requires
                c108 == 6,
                d108 == 45,
        ;
        let c109: int = 6;
        let d109: int = 47;
        assert(c109 * d109 == 282) by (nonlinear_arith)
            requires
                c109 == 6,
                d109 == 47,
        ;
        let c110: int = 6;
        let d110: int = 116;
        assert(c110 * d110 == 696) by (nonlinear_arith)
            requires
                c110 == 6,
                d110 == 116,
        ;
        let c111: int = 6;
        let d111: int = 117;
        assert(c111 * d111 == 702) by (nonlinear_arith)
            requires
                c111 == 6,
                d111 == 117,
        ;
        let c112: int = 6;
        let d112: int = 119;
        assert(c112 * d112 == 714) by (nonlinear_arith)
            requires
                c112 == 6,
                d112 == 119,
        ;
        let c113: int = 6;
        let d113: int = 121;
        assert(c113 * d113 == 726) by (nonlinear_arith)
            requires
                c113 == 6,
                d113 == 121,
        ;
        let c114: int = 7;
        let d114: int = 13;
        assert(c114 * d114 == 91) by (nonlinear_arith)
            requires
                c114 == 7,
                d114 == 13,
        ;
        let c115: int = 7;
        let d115: int = 14;
        assert(c115 * d115 == 98) by (nonlinear_arith)
            requires
                c115 == 7,
                d115 == 14,
        ;
        let c116: int = 7;
        let d116: int = 24;
        assert(c116 * d116 == 168) by (nonlinear_arith)
            requires
                c116 == 7,
                d116 == 24,
        ;
        let c117: int = 7;
        let d117: int = 25;
        assert(c117 * d117 == 175) by (nonlinear_arith)
            requires
                c117 == 7,
                d117 == 25,
        ;
        let c118: int = 7;
        let d118: int = 45;
        assert(c118 * d118 == 315) by (nonlinear_arith)
            requires
                c118 == 7,
                d118 == 45,
        ;
        let c119: int = 7;
        let d119: int = 46;
        assert(c119 * d119 == 322) by (nonlinear_arith)
            requires
                c119 == 7,
                d119 == 46,
        ;
        let c120: int = 7;
        let d120: int = 48;
        assert(c120 * d120 == 336) by (nonlinear_arith)
            requires
                c120 == 7,
                d120 == 48,
        ;
        let c121: int = 7;
        let d121: int = 112;
        assert(c121 * d121 == 784) by (nonlinear_arith)
            requires
                c121 == 7,
                d121 == 112,
        ;
        let c122: int = 7;
        let d122: int = 116;
        assert(c122 * d122 == 812) by (nonlinear_arith)
            requires
                c122 == 7,
                d122 == 116,
        ;
        let c123: int = 7;
        let d123: int = 117;
        assert(c123 * d123 == 819) by (nonlinear_arith)
            requires
                c123 == 7,
                d123 == 117,
        ;
        let c124: int = 7;
        let d124: int = 122;
        assert(c124 * d124 == 854) by (nonlinear_arith)
            requires
                c124 == 7,
                d124 == 122,
        ;
        let c125: int = 8;
        let d125: int = 13;
        assert(c125 * d125 == 104) by (nonlinear_arith)
            requires
                c125 == 8,
                d125 == 13,
        ;
        let c126: int = 8;
        let d126: int = 20;
        assert(c126 * d126 == 160) by (nonlinear_arith)
            requires
                c126 == 8,
                d126 == 20,
        ;
        let c127: int = 8;
        let d127: int = 23;
        assert(c127 * d127 == 184) by (nonlinear_arith)
            requires
                c127 == 8,
                d127 == 23,
        ;
        let c128: int = 8;
        let d128: int = 37;
        assert(c128 * d128 == 296) by (nonlinear_arith)
            requires
                c128 == 8,
                d128 == 37,
        ;
        let c129: int = 8;
        let d129: int = 47;
        assert(c129 * d129 == 376) by (nonlinear_arith)
            requires
                c129 == 8,
                d129 == 47,
        ;
        let c130: int = 8;
        let d130: int = 106;
        assert(c130 * d130 == 848) by (nonlinear_arith)
            requires
                c130 == 8,
                d130 == 106,
        ;
        let c131: int = 8;
        let d131: int = 122;
        assert(c131 * d131 == 976) by (nonlinear_arith)
            requires
                c131 == 8,
                d131 == 122,
        ;
        let c132: int = 9;
        let d132: int = 13;
        assert(c132 * d132 == 117) by (nonlinear_arith)
            requires
                c132 == 9,
                d132 == 13,
        ;
        let c133: int = 9;
        let d133: int = 43;
        assert(c133 * d133 == 387) by (nonlinear_arith)
            requires
                c133 == 9,
                d133 == 43,
        ;
        let c134: int = 10;
        let d134: int = 15;
        assert(c134 * d134 == 150) by (nonlinear_arith)
            requires
                c134 == 10,
                d134 == 15,
        ;
        let c135: int = 10;
        let d135: int = 16;
        assert(c135 * d135 == 160) by (nonlinear_arith)
            requires
                c135 == 10,
                d135 == 16,
        ;
        let c136: int = 10;
        let d136: int = 24;
        assert(c136 * d136 == 240) by (nonlinear_arith)
            requires
                c136 == 10,
                d136 == 24,
        ;
        let c137: int = 10;
        let d137: int = 25;
        assert(c137 * d137 == 250) by (nonlinear_arith)
            requires
                c137 == 10,
                d137 == 25,
        ;
        let c138: int = 10;
        let d138: int = 46;
        assert(c138 * d138 == 460) by (nonlinear_arith)
            requires
                c138 == 10,
                d138 == 46,
        ;
        let c139: int = 10;
        let d139: int = 48;
        assert(c139 * d139 == 480) by (nonlinear_arith)
            requires
                c139 == 10,
                d139 == 48,
        ;
        let c140: int = 10;
        let d140: int = 114;
        assert(c140 * d140 == 1140) by (nonlinear_arith)
            requires
                c140 == 10,
                d140 == 114,
        ;
        let c141: int = 10;
        let d141: int = 116;
        assert(c141 * d141 == 1160) by (nonlinear_arith)
            requires
                c141 == 10,
                d141 == 116,
        ;
        let c142: int = 10;
        let d142: int = 118;
        assert(c142 * d142 == 1180) by (nonlinear_arith)
            requires
                c142 == 10,
                d142 == 118,
        ;
        let c143: int = 11;
        let d143: int = 12;
        assert(c143 * d143 == 132) by (nonlinear_arith)
            requires
                c143 == 11,
                d143 == 12,
        ;
        let c144: int = 11;
        let d144: int = 15;
        assert(c144 * d144 == 165) by (nonlinear_arith)
            requires
                c144 == 11,
                d144 == 15,
        ;
        let c145: int = 11;
        let d145: int = 16;
        assert(c145 * d145 == 176) by (nonlinear_arith)
            requires
                c145 == 11,
                d145 == 16,
        ;
        let c146: int = 11;
        let d146: int = 24;
        assert(c146 * d146 == 264) by (nonlinear_arith)
            requires
                c146 == 11,
                d146 == 24,
        ;
        let c147: int = 11;
        let d147: int = 45;
        assert(c147 * d147 == 495) by (nonlinear_arith)
            requires
                c147 == 11,
                d147 == 45,
        ;
        let c148: int = 12;
        let d148: int = 11;
        assert(c148 * d148 == 132) by (nonlinear_arith)
            requires
                c148 == 12,
                d148 == 11,
        ;
        let c149: int = 12;
        let d149: int = 15;
        assert(c149 * d149 == 180) by (nonlinear_arith)
            requires
                c149 == 12,
                d149 == 15,
        ;
        let c150: int = 12;
        let d150: int = 47;
        assert(c150 * d150 == 564) by (nonlinear_arith)
            requires
                c150 == 12,
                d150 == 47,
        ;
        let c151: int = 12;
        let d151: int = 121;
        assert(c151 * d151 == 1452) by (nonlinear_arith)
            requires
                c151 == 12,
                d151 == 121,
        ;
        let c152: int = 13;
        let d152: int = 16;
        assert(c152 * d152 == 208) by (nonlinear_arith)
            requires
                c152 == 13,
                d152 == 16,
        ;
        let c153: int = 13;
        let d153: int = 42;
        assert(c153 * d153 == 546) by (nonlinear_arith)
            requires
                c153 == 13,
                d153 == 42,
        ;
        let c154: int = 13;
        let d154: int = 46;
        assert(c154 * d154 == 598) by (nonlinear_arith)
            requires
                c154 == 13,
                d154 == 46,
        ;
        let c155: int = 13;
        let d155: int = 48;
        assert(c155 * d155 == 624) by (nonlinear_arith)
            requires
                c155 == 13,
                d155 == 48,
        ;
        let c156: int = 13;
        let d156: int = 115;
        assert(c156 * d156 == 1495) by (nonlinear_arith)
            requires
                c156 == 13,
                d156 == 115,
        ;
        let c157: int = 14;
        let d157: int = 16;
        assert(c157 * d157 == 224) by (nonlinear_arith)
            requires
                c157 == 14,
                d157 == 16,
        ;
        let c158: int = 14;
        let d158: int = 25;
        assert(c158 * d158 == 350) by (nonlinear_arith)
            requires
                c158 == 14,
                d158 == 25,
        ;
        let c159: int = 14;
        let d159: int = 46;
        assert(c159 * d159 == 644) by (nonlinear_arith)
            requires
                c159 == 14,
                d159 == 46,
        ;
        let c160: int = 14;
        let d160: int = 47;
        assert(c160 * d160 == 658) by (nonlinear_arith)
            requires
                c160 == 14,
                d160 == 47,
        ;
        let c161: int = 14;
        let d161: int = 48;
        assert(c161 * d161 == 672) by (nonlinear_arith)
            requires
                c161 == 14,
                d161 == 48,
        ;
        let c162: int = 14;
        let d162: int = 122;
        assert(c162 * d162 == 1708) by (nonlinear_arith)
            requires
                c162 == 14,
                d162 == 122,
        ;
        let c163: int = 15;
        let d163: int = 15;
        assert(c163 * d163 == 225) by (nonlinear_arith)
            requires
                c163 == 15,
                d163 == 15,
        ;
        let c164: int = 15;
        let d164: int = 19;
        assert(c164 * d164 == 285) by (nonlinear_arith)
            requires
                c164 == 15,
                d164 == 19,
        ;
        let c165: int = 15;
        let d165: int = 23;
        assert(c165 * d165 == 345) by (nonlinear_arith)
            requires
                c165 == 15,
                d165 == 23,
        ;
        let c166: int = 15;
        let d166: int = 24;
        assert(c166 * d166 == 360) by (nonlinear_arith)
            requires
                c166 == 15,
                d166 == 24,
        ;
        let c167: int = 16;
        let d167: int = 14;
        assert(c167 * d167 == 224) by (nonlinear_arith)
            requires
                c167 == 16,
                d167 == 14,
        ;
        let c168: int = 16;
        let d168: int = 15;
        assert(c168 * d168 == 240) by (nonlinear_arith)
            requires
                c168 == 16,
                d168 == 15,
        ;
        let c169: int = 16;
        let d169: int = 25;
        assert(c169 * d169 == 400) by (nonlinear_arith)
            requires
                c169 == 16,
                d169 == 25,
        ;
        let c170: int = 17;
        let d170: int = 15;
        assert(c170 * d170 == 255) by (nonlinear_arith)
            requires
                c170 == 17,
                d170 == 15,
        ;
        let c171: int = 17;
        let d171: int = 21;
        assert(c171 * d171 == 357) by (nonlinear_arith)
            requires
                c171 == 17,
                d171 == 21,
        ;
        let c172: int = 17;
        let d172: int = 22;
        assert(c172 * d172 == 374) by (nonlinear_arith)
            requires
                c172 == 17,
                d172 == 22,
        ;
        let c173: int = 17;
        let d173: int = 42;
        assert(c173 * d173 == 714) by (nonlinear_arith)
            requires
                c173 == 17,
                d173 == 42,
        ;
        let c174: int = 17;
        let d174: int = 46;
        assert(c174 * d174 == 782) by (nonlinear_arith)
            requires
                c174 == 17,
                d174 == 46,
        ;
        let c175: int = 17;
        let d175: int = 115;
        assert(c175 * d175 == 1955) by (nonlinear_arith)
            requires
                c175 == 17,
                d175 == 115,
        ;
        let c176: int = 17;
        let d176: int = 122;
        assert(c176 * d176 == 2074) by (nonlinear_arith)
            requires
                c176 == 17,
                d176 == 122,
        ;
        let c177: int = 18;
        let d177: int = 47;
        assert(c177 * d177 == 846) by (nonlinear_arith)
            requires
                c177 == 18,
                d177 == 47,
        ;
        let c178: int = 18;
        let d178: int = 123;
        assert(c178 * d178 == 2214) by (nonlinear_arith)
            requires
                c178 == 18,
                d178 == 123,
        ;
        let c179: int = 19;
        let d179: int = 15;
        assert(c179 * d179 == 285) by (nonlinear_arith)
            requires
                c179 == 19,
                d179 == 15,
        ;
        let c180: int = 19;
        let d180: int = 16;
        assert(c180 * d180 == 304) by (nonlinear_arith)
            requires
                c180 == 19,
                d180 == 16,
        ;
        let c181: int = 19;
        let d181: int = 25;
        assert(c181 * d181 == 475) by (nonlinear_arith)
            requires
                c181 == 19,
                d181 == 25,
        ;
        let c182: int = 19;
        let d182: int = 46;
        assert(c182 * d182 == 874) by (nonlinear_arith)
            requires
                c182 == 19,
                d182 == 46,
        ;
        let c183: int = 19;
        let d183: int = 47;
        assert(c183 * d183 == 893) by (nonlinear_arith)
            requires
                c183 == 19,
                d183 == 47,
        ;
        let c184: int = 19;
        let d184: int = 118;
        assert(c184 * d184 == 2242) by (nonlinear_arith)
            requires
                c184 == 19,
                d184 == 118,
        ;
        let c185: int = 20;
        let d185: int = 15;
        assert(c185 * d185 == 300) by (nonlinear_arith)
            requires
                c185 == 20,
                d185 == 15,
        ;
        let c186: int = 20;
        let d186: int = 117;
        assert(c186 * d186 == 2340) by (nonlinear_arith)
            requires
                c186 == 20,
                d186 == 117,
        ;
        let c187: int = 21;
        let d187: int = 45;
        assert(c187 * d187 == 945) by (nonlinear_arith)
            requires
                c187 == 21,
                d187 == 45,
        ;
        let c188: int = 21;
        let d188: int = 47;
        assert(c188 * d188 == 987) by (nonlinear_arith)
            requires
                c188 == 21,
                d188 == 47,
        ;
        let c189: int = 22;
        let d189: int = 15;
        assert(c189 * d189 == 330) by (nonlinear_arith)
            requires
                c189 == 22,
                d189 == 15,
        ;
        let c190: int = 22;
        let d190: int = 25;
        assert(c190 * d190 == 550) by (nonlinear_arith)
            requires
                c190 == 22,
                d190 == 25,
        ;
        let c191: int = 22;
        let d191: int = 45;
        assert(c191 * d191 == 990) by (nonlinear_arith)
            requires
                c191 == 22,
                d191 == 45,
        ;
        let c192: int = 23;
        let d192: int = 15;
        assert(c192 * d192 == 345) by (nonlinear_arith)
            requires
                c192 == 23,
                d192 == 15,
        ;
        let c193: int = 23;
        let d193: int = 46;
        assert(c193 * d193 == 1058) by (nonlinear_arith)
            requires
                c193 == 23,
                d193 == 46,
        ;
        let c194: int = 23;
        let d194: int = 47;
        assert(c194 * d194 == 1081) by (nonlinear_arith)
            requires
                c194 == 23,
                d194 == 47,
        ;
        let c195: int = 24;
        let d195: int = 15;
        assert(c195 * d195 == 360) by (nonlinear_arith)
            requires
                c195 == 24,
                d195 == 15,
        ;
        let c196: int = 25;
        let d196: int = 16;
        assert(c196 * d196 == 400) by (nonlinear_arith)
            requires
                c196 == 25,
                d196 == 16,
        ;
        let c197: int = 25;
        let d197: int = 25;
        assert(c197 * d197 == 625) by (nonlinear_arith)
            requires
                c197 == 25,
                d197 == 25,
        ;
        let c198: int = 26;
        let d198: int = 16;
        assert(c198 * d198 == 416) by (nonlinear_arith)
            requires
                c198 == 26,
                d198 == 16,
        ;
        let c199: int = 26;
        let d199: int = 24;
        assert(c199 * d199 == 624) by (nonlinear_arith)
            requires
                c199 == 26,
                d199 == 24,
        ;
        let c200: int = 26;
        let d200: int = 48;
        assert(c200 * d200 == 1248) by (nonlinear_arith)
            requires
                c200 == 26,
                d200 == 48,
        ;
        let c201: int = 28;
        let d201: int = 16;
        assert(c201 * d201 == 448) by (nonlinear_arith)
            requires
                c201 == 28,
                d201 == 16,
        ;
        let c202: int = 28;
        let d202: int = 22;
        assert(c202 * d202 == 616) by (nonlinear_arith)
            requires
                c202 == 28,
                d202 == 22,
        ;
        let c203: int = 29;
        let d203: int = 24;
        assert(c203 * d203 == 696) by (nonlinear_arith)
            requires
                c203 == 29,
                d203 == 24,
        ;
        let c204: int = 29;
        let d204: int = 46;
        assert(c204 * d204 == 1334) by (nonlinear_arith)
            requires
                c204 == 29,
                d204 == 46,
        ;
        let c205: int = 29;
        let d205: int = 47;
        assert(c205 * d205 == 1363) by (nonlinear_arith)
            requires
                c205 == 29,
                d205 == 47,
        ;
        let c206: int = 30;
        let d206: int = 16;
        assert(c206 * d206 == 480) by (nonlinear_arith)
            requires
                c206 == 30,
                d206 == 16,
        ;
        let c207: int = 31;
        let d207: int = 16;
        assert(c207 * d207 == 496) by (nonlinear_arith)
            requires
                c207 == 31,
                d207 == 16,
        ;
        let c208: int = 31;
        let d208: int = 25;
        assert(c208 * d208 == 775) by (nonlinear_arith)
            requires
                c208 == 31,
                d208 == 25,
        ;
        let c209: int = 31;
        let d209: int = 48;
        assert(c209 * d209 == 1488) by (nonlinear_arith)
            requires
                c209 == 31,
                d209 == 48,
        ;
        let c210: int = 32;
        let d210: int = 16;
        assert(c210 * d210 == 512) by (nonlinear_arith)
            requires
                c210 == 32,
                d210 == 16,
        ;
        let c211: int = 32;
        let d211: int = 47;
        assert(c211 * d211 == 1504) by (nonlinear_arith)
            requires
                c211 == 32,
                d211 == 47,
        ;
        let c212: int = 33;
        let d212: int = 16;
        assert(c212 * d212 == 528) by (nonlinear_arith)
            requires
                c212 == 33,
                d212 == 16,
        ;
        let c213: int = 34;
        let d213: int = 13;
        assert(c213 * d213 == 442) by (nonlinear_arith)
            requires
                c213 == 34,
                d213 == 13,
        ;
        let c214: int = 34;
        let d214: int = 24;
        assert(c214 * d214 == 816) by (nonlinear_arith)
            requires
                c214 == 34,
                d214 == 24,
        ;
        let c215: int = 34;
        let d215: int = 25;
        assert(c215 * d215 == 850) by (nonlinear_arith)
            requires
                c215 == 34,
                d215 == 25,
        ;
        let c216: int = 34;
        let d216: int = 48;
        assert(c216 * d216 == 1632) by (nonlinear_arith)
            requires
                c216 == 34,
                d216 == 48,
        ;
        let c217: int = 35;
        let d217: int = 16;
        assert(c217 * d217 == 560) by (nonlinear_arith)
            requires
                c217 == 35,
                d217 == 16,
        ;
        let c218: int = 35;
        let d218: int = 25;
        assert(c218 * d218 == 875) by (nonlinear_arith)
            requires
                c218 == 35,
                d218 == 25,
        ;
        let c219: int = 37;
        let d219: int = 24;
        assert(c219 * d219 == 888) by (nonlinear_arith)
            requires
                c219 == 37,
                d219 == 24,
        ;
        let c220: int = 39;
        let d220: int = 24;
        assert(c220 * d220 == 936) by (nonlinear_arith)
            requires
                c220 == 39,
                d220 == 24,
        ;
        let c221: int = 40;
        let d221: int = 47;
        assert(c221 * d221 == 1880) by (nonlinear_arith)
            requires
                c221 == 40,
                d221 == 47,
        ;
        let c222: int = 41;
        let d222: int = 16;
        assert(c222 * d222 == 656) by (nonlinear_arith)
            requires
                c222 == 41,
                d222 == 16,
        ;
        let c223: int = 42;
        let d223: int = 15;
        assert(c223 * d223 == 630) by (nonlinear_arith)
            requires
                c223 == 42,
                d223 == 15,
        ;
        let c224: int = 42;
        let d224: int = 24;
        assert(c224 * d224 == 1008) by (nonlinear_arith)
            requires
                c224 == 42,
                d224 == 24,
        ;
        let c225: int = 43;
        let d225: int = 24;
        assert(c225 * d225 == 1032) by (nonlinear_arith)
            requires
                c225 == 43,
                d225 == 24,
        ;
        let c226: int = 44;
        let d226: int = 24;
        assert(c226 * d226 == 1056) by (nonlinear_arith)
            requires
                c226 == 44,
                d226 == 24,
        ;
        let c227: int = 46;
        let d227: int = 16;
        assert(c227 * d227 == 736) by (nonlinear_arith)
            requires
                c227 == 46,
                d227 == 16,
        ;
        let c228: int = 46;
        let d228: int = 24;
        assert(c228 * d228 == 1104) by (nonlinear_arith)
            requires
                c228 == 46,
                d228 == 24,
        ;
        let c229: int = 48;
        let d229: int = 24;
        assert(c229 * d229 == 1152) by (nonlinear_arith)
            requires
                c229 == 48,
                d229 == 24,
        ;
        let c230: int = 49;
        let d230: int = 24;
        assert(c230 * d230 == 1176) by (nonlinear_arith)
            requires
                c230 == 49,
                d230 == 24,
        ;
        let c231: int = 59;
        let d231: int = 16;
        assert(c231 * d231 == 944) by (nonlinear_arith)
            requires
                c231 == 59,
                d231 == 16,
        ;
        let c232: int = 61;
        let d232: int = 16;
        assert(c232 * d232 == 976) by (nonlinear_arith)
            requires
                c232 == 61,
                d232 == 16,
        ;
        let c233: int = 64;
        let d233: int = 16;
        assert(c233 * d233 == 1024) by (nonlinear_arith)
            requires
                c233 == 64,
                d233 == 16,
        ;
        let c234: int = 67;
        let d234: int = 16;
        assert(c234 * d234 == 1072) by (nonlinear_arith)
            requires
                c234 == 67,
                d234 == 16,
        ;
    }
}

/// Codeword count of a block sequence before unwinding: each shape
/// weighted by its block count.
pub open spec fn weighted_total(s: Seq<BlockInfo>) -> int
    decreases s.len(),
{
    if s.len() == 0 {
        0
    } else {
        weighted_total(s.drop_last()) + s.last().block_count * s.last().total_per
    }
}

proof fn lemma_sum_push(s: Seq<BlockInfo>, b: BlockInfo)
    ensures
        sum_total_per(s.push(b)) == sum_total_per(s) + b.total_per,
        sum_data_per(s.push(b)) == sum_data_per(s) + b.data_per,
{
    assert(s.push(b).drop_last() =~= s);
}

/// The block shapes of a symbol, one entry per physical block.
///
/// The sum of the codeword counts over the returned blocks equals the
/// codeword capacity of the version, whatever the level.
#[verifier::rlimit(100)]
pub fn block_info(version: u32, level: &ECLevel) -> (r: Result<Vec<BlockInfo>, QRError>)
    ensures
        r is Ok <==> 1 <= version <= 40,
        r is Ok ==> {
            let bi = r->Ok_0@;
            &&& bi == spec_block_info(version as int, *level)
            &&& bi.len() >= 1
            &&& sum_total_per(bi) == total_codewords(version as int)
            &&& forall|i: int| 0 <= i < bi.len() ==> (#[trigger] bi[i]).wf()
        },
{
    let raw: Vec<BlockInfo> = match (version, level) {
        (1, ECLevel::LOW) => vec![BlockInfo::new(1, 26, 19, 2)],
        (1, ECLevel::MEDIUM) => vec![BlockInfo::new(1, 26, 16, 4)],
        (1, ECLevel::QUARTILE) => vec![BlockInfo::new(1, 26, 13, 6)],
        (1, ECLevel::HIGH) => vec![BlockInfo::new(1, 26, 9, 8)],
        (2, ECLevel::LOW) => vec![BlockInfo::new(1, 44, 34, 4)],
        (2, ECLevel::MEDIUM) => vec![BlockInfo::new(1, 44, 28, 8)],
        (2, ECLevel::QUARTILE) => vec![BlockInfo::new(1, 44, 22, 11)],
        (2, ECLevel::HIGH) => vec![BlockInfo::new(1, 44, 16, 14)],
        (3, ECLevel::LOW) => vec![BlockInfo::new(1, 70, 55, 7)],
        (3, ECLevel::MEDIUM) => vec![BlockInfo::new(1, 70, 44, 13)],
        (3, ECLevel::QUARTILE) => vec![BlockInfo::new(2, 35, 17, 9)],
        (3, ECLevel::HIGH) => vec![BlockInfo::new(2, 35, 13, 11)],
        (4, ECLevel::LOW) => vec![BlockInfo::new(1, 100, 80, 10)],
        (4, ECLevel::MEDIUM) => vec![BlockInfo::new(2, 50, 32, 9)],
        (4, ECLevel::QUARTILE) => vec![BlockInfo::new(2, 50, 24, 13)],
        (4, ECLevel::HIGH) => vec![BlockInfo::new(4, 25, 9, 8)],
        (5, ECLevel::LOW) => vec![BlockInfo::new(1, 134, 108, 13)],
        (5, ECLevel::MEDIUM) => vec![BlockInfo::new(2, 67, 43, 12)],
        (5, ECLevel::QUARTILE) => vec![BlockInfo::new(2, 33, 15, 9), BlockInfo::new(2, 34, 16, 9)],
        (5, ECLevel::HIGH) => vec![BlockInfo::new(2, 33, 11, 11), BlockInfo::new(2, 34, 12, 11)],
        (6, ECLevel::LOW) => vec![BlockInfo::new(2, 86, 68, 9)],
        (6, ECLevel::MEDIUM) => vec![BlockInfo::new(4, 43, 27, 8)],
        (6, ECLevel::QUARTILE) => vec![BlockInfo::new(4, 43, 19, 12)],
        (6, ECLevel::HIGH) => vec![BlockInfo::new(4, 43, 15, 14)],
        (7, ECLevel::LOW) => vec![BlockInfo::new(2, 98, 78, 10)],
        (7, ECLevel::MEDIUM) => vec![BlockInfo::new(4, 49, 31, 9)],
        (7, ECLevel::QUARTILE) => vec![BlockInfo::new(2, 32, 14, 9), BlockInfo::new(4, 33, 15, 9)],
        (7, ECLevel::HIGH) => vec![BlockInfo::new(4, 39, 13, 13), BlockInfo::new(1, 40, 14, 13)],
        (8, ECLevel::LOW) => vec![BlockInfo::new(2, 121, 97, 12)],
        (8, ECLevel::MEDIUM) => vec![BlockInfo::new(2, 60, 38, 11), BlockInfo::new(2, 61, 39, 11)],
        (8, ECLevel::QUARTILE) => vec![BlockInfo::new(4, 40, 18, 11), BlockInfo::new(2, 41, 19, 11)],
        (8, ECLevel::HIGH) => vec![BlockInfo::new(4, 40, 14, 13), BlockInfo::new(2, 41, 15, 13)],
        (9, ECLevel::LOW) => vec![BlockInfo::new(2, 146, 116, 15)],
        (9, ECLevel::MEDIUM) => vec![BlockInfo::new(3, 58, 36, 11), BlockInfo::new(2, 59, 37, 11)],
        (9, ECLevel::QUARTILE) => vec![BlockInfo::new(4, 36, 16, 10), BlockInfo::new(4, 37, 17, 10)],
        (9, ECLevel::HIGH) => vec![BlockInfo::new(4, 36, 12, 12), BlockInfo::new(4, 37, 13, 12)],
        (10, ECLevel::LOW) => vec![BlockInfo::new(2, 86, 68, 9), BlockInfo::new(2, 87, 69, 9)],
        (10, ECLevel::MEDIUM) => vec![BlockInfo::new(4, 69, 43, 13), BlockInfo::new(1, 70, 44, 13)],
        (10, ECLevel::QUARTILE) => vec![BlockInfo::new(6, 43, 19, 12), BlockInfo::new(2, 44, 20, 12)],
        (10, ECLevel::HIGH) => vec![BlockInfo::new(6, 43, 15, 14), BlockInfo::new(2, 44, 16, 14)],
        (11, ECLevel::LOW) => vec![BlockInfo::new(4, 101, 81, 10)],
        (11, ECLevel::MEDIUM) => vec![BlockInfo::new(1, 80, 50, 15), BlockInfo::new(4, 81, 51, 15)],
        (11, ECLevel::QUARTILE) => vec![BlockInfo::new(4, 50, 22, 14), BlockInfo::new(4, 51, 23, 14)],
        (11, ECLevel::HIGH) => vec![BlockInfo::new(3, 36, 12, 12), BlockInfo::new(8, 37, 13, 12)],
        (12, ECLevel::LOW) => vec![BlockInfo::new(2, 116, 92, 12), BlockInfo::new(2, 117, 93, 12)],
        (12, ECLevel::MEDIUM) => vec![BlockInfo::new(6, 58, 36, 11), BlockInfo::new(2, 59, 37, 11)],
        (12, ECLevel::QUARTILE) => vec![BlockInfo::new(4, 46, 20, 13), BlockInfo::new(6, 47, 21, 13)],
        (12, ECLevel::HIGH) => vec![BlockInfo::new(7, 42, 14, 14), BlockInfo::new(4, 43, 15, 14)],
        (13, ECLevel::LOW) => vec![BlockInfo::new(4, 133, 107, 13)],
        (13, ECLevel::MEDIUM) => vec![BlockInfo::new(8, 59, 37, 11), BlockInfo::new(1, 60, 38, 11)],
        (13, ECLevel::QUARTILE) => vec![BlockInfo::new(8, 44, 20, 12), BlockInfo::new(4, 45, 21, 12)],
        (13, ECLevel::HIGH) => vec![BlockInfo::new(12, 33, 11, 11), BlockInfo::new(4, 34, 12, 11)],
        (14, ECLevel::LOW) => vec![BlockInfo::new(3, 145, 115, 15), BlockInfo::new(1, 146, 116, 15)],
        (14, ECLevel::MEDIUM) => vec![BlockInfo::new(4, 64, 40, 12), BlockInfo::new(5, 65, 41, 12)],
        (14, ECLevel::QUARTILE) => vec![BlockInfo::new(11, 36, 16, 10), BlockInfo::new(5, 37, 17, 10)],
        (14, ECLevel::HIGH) => vec![BlockInfo::new(11, 36, 12, 12), BlockInfo::new(5, 37, 13, 12)],
        (15, ECLevel::LOW) => vec![BlockInfo::new(5, 109, 87, 11), BlockInfo::new(1, 110, 88, 11)],
        (15, ECLevel::MEDIUM) => vec![BlockInfo::new(5, 65, 41, 12), BlockInfo::new(5, 66, 42, 12)],
        (15, ECLevel::QUARTILE) => vec![BlockInfo::new(5, 54, 24, 15), BlockInfo::new(7, 55, 25, 15)],
        (15, ECLevel::HIGH) => vec![BlockInfo::new(11, 36, 12, 12), BlockInfo::new(7, 37, 13, 12)],
        (16, ECLevel::LOW) => vec![BlockInfo::new(5, 122, 98, 12), BlockInfo::new(1, 123, 99, 12)],
        (16, ECLevel::MEDIUM) => vec![BlockInfo::new(7, 73, 45, 14), BlockInfo::new(3, 74, 46, 14)],
        (16, ECLevel::QUARTILE) => vec![BlockInfo::new(15, 43, 19, 12), BlockInfo::new(2, 44, 20, 12)],
        (16, ECLevel::HIGH) => vec![BlockInfo::new(3, 45, 15, 15), BlockInfo::new(13, 46, 16, 15)],
        (17, ECLevel::LOW) => vec![BlockInfo::new(1, 135, 107, 14), BlockInfo::new(5, 136, 108, 14)],
        (17, ECLevel::MEDIUM) => vec![BlockInfo::new(10, 74, 46, 14), BlockInfo::new(1, 75, 47, 14)],
        (17, ECLevel::QUARTILE) => vec![BlockInfo::new(1, 50, 22, 14), BlockInfo::new(15, 51, 23, 14)],
        (17, ECLevel::HIGH) => vec![BlockInfo::new(2, 42, 14, 14), BlockInfo::new(17, 43, 15, 14)],
        (18, ECLevel::LOW) => vec![BlockInfo::new(5, 150, 120, 15), BlockInfo::new(1, 151, 121, 15)],
        (18, ECLevel::MEDIUM) => vec![BlockInfo::new(9, 69, 43, 13), BlockInfo::new(4, 70, 44, 13)],
        (18, ECLevel::QUARTILE) => vec![BlockInfo::new(17, 50, 22, 14), BlockInfo::new(1, 51, 23, 14)],
        (18, ECLevel::HIGH) => vec![BlockInfo::new(2, 42, 14, 14), BlockInfo::new(19, 43, 15, 14)],
        (19, ECLevel::LOW) => vec![BlockInfo::new(3, 141, 113, 14), BlockInfo::new(4, 142, 114, 14)],
        (19, ECLevel::MEDIUM) => vec![BlockInfo::new(3, 70, 44, 13), BlockInfo::new(11, 71, 45, 13)],
        (19, ECLevel::QUARTILE) => vec![BlockInfo::new(17, 47, 21, 13), BlockInfo::new(4, 48, 22, 13)],
        (19, ECLevel::HIGH) => vec![BlockInfo::new(9, 39, 13, 13), BlockInfo::new(16, 40, 14, 13)],
        (20, ECLevel::LOW) => vec![BlockInfo::new(3, 135, 107, 14), BlockInfo::new(5, 136, 108, 14)],
        (20, ECLevel::MEDIUM) => vec![BlockInfo::new(3, 67, 41, 13), BlockInfo::new(13, 68, 42, 13)],
        (20, ECLevel::QUARTILE) => vec![BlockInfo::new(15, 54, 24, 15), BlockInfo::new(5, 55, 25, 15)],
        (20, ECLevel::HIGH) => vec![BlockInfo::new(15, 43, 15, 14), BlockInfo::new(10, 44, 16, 14)],
        (21, ECLevel::LOW) => vec![BlockInfo::new(4, 144, 116, 14), BlockInfo::new(4, 145, 117, 14)],
        (21, ECLevel::MEDIUM) => vec![BlockInfo::new(17, 68, 42, 13)],
        (21, ECLevel::QUARTILE) => vec![BlockInfo::new(17, 50, 22, 14), BlockInfo::new(6, 51, 23, 14)],
        (21, ECLevel::HIGH) => vec![BlockInfo::new(19, 46, 16, 15), BlockInfo::new(6, 47, 17, 15)],
        (22, ECLevel::LOW) => vec![BlockInfo::new(2, 139, 111, 14), BlockInfo::new(7, 140, 112, 14)],
        (22, ECLevel::MEDIUM) => vec![BlockInfo::new(17, 74, 46, 14)],
        (22, ECLevel::QUARTILE) => vec![BlockInfo::new(7, 54, 24, 15), BlockInfo::new(16, 55, 25, 15)],
        (22, ECLevel::HIGH) => vec![BlockInfo::new(34, 37, 13, 12)],
        (23, ECLevel::LOW) => vec![BlockInfo::new(4, 151, 121, 15), BlockInfo::new(5, 152, 122, 15)],
        (23, ECLevel::MEDIUM) => vec![BlockInfo::new(4, 75, 47, 14), BlockInfo::new(14, 76, 48, 14)],
        (23, ECLevel::QUARTILE) => vec![BlockInfo::new(11, 54, 24, 15), BlockInfo::new(14, 55, 25, 15)],
        (23, ECLevel::HIGH) => vec![BlockInfo::new(16, 45, 15, 15), BlockInfo::new(14, 46, 16, 15)],
        (24, ECLevel::LOW) => vec![BlockInfo::new(6, 147, 117, 15), BlockInfo::new(4, 148, 118, 15)],
        (24, ECLevel::MEDIUM) => vec![BlockInfo::new(6, 73, 45, 14), BlockInfo::new(14, 74, 46, 14)],
        (24, ECLevel::QUARTILE) => vec![BlockInfo::new(11, 54, 24, 15), BlockInfo::new(16, 55, 25, 15)],
        (24, ECLevel::HIGH) => vec![BlockInfo::new(30, 46, 16, 15), BlockInfo::new(2, 47, 17, 15)],
        (25, ECLevel::LOW) => vec![BlockInfo::new(8, 132, 106, 13), BlockInfo::new(4, 133, 107, 13)],
        (25, ECLevel::MEDIUM) => vec![BlockInfo::new(8, 75, 47, 14), BlockInfo::new(13, 76, 48, 14)],
        (25, ECLevel::QUARTILE) => vec![BlockInfo::new(7, 54, 24, 15), BlockInfo::new(22, 55, 25, 15)],
        (25, ECLevel::HIGH) => vec![BlockInfo::new(22, 45, 15, 15), BlockInfo::new(13, 46, 16, 15)],
        (26, ECLevel::LOW) => vec![BlockInfo::new(10, 142, 114, 14), BlockInfo::new(2, 143, 115, 14)],
        (26, ECLevel::MEDIUM) => vec![BlockInfo::new(19, 74, 46, 14), BlockInfo::new(4, 75, 47, 14)],
        (26, ECLevel::QUARTILE) => vec![BlockInfo::new(28, 50, 22, 14), BlockInfo::new(6, 51, 23, 14)],
        (26, ECLevel::HIGH) => vec![BlockInfo::new(33, 46, 16, 15), BlockInfo::new(4, 47, 17, 15)],
        (27, ECLevel::LOW) => vec![BlockInfo::new(8, 152, 122, 15), BlockInfo::new(4, 153, 123, 15)],
        (27, ECLevel::MEDIUM) => vec![BlockInfo::new(22, 73, 45, 14), BlockInfo::new(3, 74, 46, 14)],
        (27, ECLevel::QUARTILE) => vec![BlockInfo::new(8, 53, 23, 15), BlockInfo::new(26, 54, 24, 15)],
        (27, ECLevel::HIGH) => vec![BlockInfo::new(12, 45, 15, 15), BlockInfo::new(28, 46, 16, 15)],
        (28, ECLevel::LOW) => vec![BlockInfo::new(3, 147, 117, 15), BlockInfo::new(10, 148, 118, 15)],
        (28, ECLevel::MEDIUM) => vec![BlockInfo::new(3, 73, 45, 14), BlockInfo::new(23, 74, 46, 14)],
        (28, ECLevel::QUARTILE) => vec![BlockInfo::new(4, 54, 24, 15), BlockInfo::new(31, 55, 25, 15)],
        (28, ECLevel::HIGH) => vec![BlockInfo::new(11, 45, 15, 15), BlockInfo::new(31, 46, 16, 15)],
        (29, ECLevel::LOW) => vec![BlockInfo::new(7, 146, 116, 15), BlockInfo::new(7, 147, 117, 15)],
        (29, ECLevel::MEDIUM) => vec![BlockInfo::new(21, 73, 45, 14), BlockInfo::new(7, 74, 46, 14)],
        (29, ECLevel::QUARTILE) => vec![BlockInfo::new(1, 53, 23, 15), BlockInfo::new(37, 54, 24, 15)],
        (29, ECLevel::HIGH) => vec![BlockInfo::new(19, 45, 15, 15), BlockInfo::new(26, 46, 16, 15)],
        (30, ECLevel::LOW) => vec![BlockInfo::new(5, 145, 115, 15), BlockInfo::new(10, 146, 116, 15)],
        (30, ECLevel::MEDIUM) => vec![BlockInfo::new(19, 75, 47, 14), BlockInfo::new(10, 76, 48, 14)],
        (30, ECLevel::QUARTILE) => vec![BlockInfo::new(15, 54, 24, 15), BlockInfo::new(25, 55, 25, 15)],
        (30, ECLevel::HIGH) => vec![BlockInfo::new(23, 45, 15, 15), BlockInfo::new(25, 46, 16, 15)],
        (31, ECLevel::LOW) => vec![BlockInfo::new(13, 145, 115, 15), BlockInfo::new(3, 146, 116, 15)],
        (31, ECLevel::MEDIUM) => vec![BlockInfo::new(2, 74, 46, 14), BlockInfo::new(29, 75, 47, 14)],
        (31, ECLevel::QUARTILE) => vec![BlockInfo::new(42, 54, 24, 15), BlockInfo::new(1, 55, 25, 15)],
        (31, ECLevel::HIGH) => vec![BlockInfo::new(23, 45, 15, 15), BlockInfo::new(28, 46, 16, 15)],
        (32, ECLevel::LOW) => vec![BlockInfo::new(17, 145, 115, 15)],
        (32, ECLevel::MEDIUM) => vec![BlockInfo::new(10, 74, 46, 14), BlockInfo::new(23, 75, 47, 14)],
        (32, ECLevel::QUARTILE) => vec![BlockInfo::new(10, 54, 24, 15), BlockInfo::new(35, 55, 25, 15)],
        (32, ECLevel::HIGH) => vec![BlockInfo::new(19, 45, 15, 15), BlockInfo::new(35, 46, 16, 15)],
        (33, ECLevel::LOW) => vec![BlockInfo::new(17, 145, 115, 15), BlockInfo::new(1, 146, 116, 15)],
        (33, ECLevel::MEDIUM) => vec![BlockInfo::new(14, 74, 46, 14), BlockInfo::new(21, 75, 47, 14)],
        (33, ECLevel::QUARTILE) => vec![BlockInfo::new(29, 54, 24, 15), BlockInfo::new(19, 55, 25, 15)],
        (33, ECLevel::HIGH) => vec![BlockInfo::new(11, 45, 15, 15), BlockInfo::new(46, 46, 16, 15)],
        (34, ECLevel::LOW) => vec![BlockInfo::new(13, 145, 115, 15), BlockInfo::new(6, 146, 116, 15)],
        (34, ECLevel::MEDIUM) => vec![BlockInfo::new(14, 74, 46, 14), BlockInfo::new(23, 75, 47, 14)],
        (34, ECLevel::QUARTILE) => vec![BlockInfo::new(44, 54, 24, 15), BlockInfo::new(7, 55, 25, 15)],
        (34, ECLevel::HIGH) => vec![BlockInfo::new(59, 46, 16, 15), BlockInfo::new(1, 47, 17, 15)],
        (35, ECLevel::LOW) => vec![BlockInfo::new(12, 151, 121, 15), BlockInfo::new(7, 152, 122, 15)],
        (35, ECLevel::MEDIUM) => vec![BlockInfo::new(12, 75, 47, 14), BlockInfo::new(26, 76, 48, 14)],
        (35, ECLevel::QUARTILE) => vec![BlockInfo::new(39, 54, 24, 15), BlockInfo::new(14, 55, 25, 15)],
        (35, ECLevel::HIGH) => vec![BlockInfo::new(22, 45, 15, 15), BlockInfo::new(41, 46, 16, 15)],
        (36, ECLevel::LOW) => vec![BlockInfo::new(6, 151, 121, 15), BlockInfo::new(14, 152, 122, 15)],
        (36, ECLevel::MEDIUM) => vec![BlockInfo::new(6, 75, 47, 14), BlockInfo::new(34, 76, 48, 14)],
        (36, ECLevel::QUARTILE) => vec![BlockInfo::new(46, 54, 24, 15), BlockInfo::new(10, 55, 25, 15)],
        (36, ECLevel::HIGH) => vec![BlockInfo::new(2, 45, 15, 15), BlockInfo::new(64, 46, 16, 15)],
        (37, ECLevel::LOW) => vec![BlockInfo::new(17, 152, 122, 15), BlockInfo::new(4, 153, 123, 15)],
        (37, ECLevel::MEDIUM) => vec![BlockInfo::new(29, 74, 46, 14), BlockInfo::new(14, 75, 47, 14)],
        (37, ECLevel::QUARTILE) => vec![BlockInfo::new(49, 54, 24, 15), BlockInfo::new(10, 55, 25, 15)],
        (37, ECLevel::HIGH) => vec![BlockInfo::new(24, 45, 15, 15), BlockInfo::new(46, 46, 16, 15)],
        (38, ECLevel::LOW) => vec![BlockInfo::new(4, 152, 122, 15), BlockInfo::new(18, 153, 123, 15)],
        (38, ECLevel::MEDIUM) => vec![BlockInfo::new(13, 74, 46, 14), BlockInfo::new(32, 75, 47, 14)],
        (38, ECLevel::QUARTILE) => vec![BlockInfo::new(48, 54, 24, 15), BlockInfo::new(14, 55, 25, 15)],
        (38, ECLevel::HIGH) => vec![BlockInfo::new(42, 45, 15, 15), BlockInfo::new(32, 46, 16, 15)],
        (39, ECLevel::LOW) => vec![BlockInfo::new(20, 147, 117, 15), BlockInfo::new(4, 148, 118, 15)],
        (39, ECLevel::MEDIUM) => vec![BlockInfo::new(40, 75, 47, 14), BlockInfo::new(7, 76, 48, 14)],
        (39, ECLevel::QUARTILE) => vec![BlockInfo::new(43, 54, 24, 15), BlockInfo::new(22, 55, 25, 15)],
        (39, ECLevel::HIGH) => vec![BlockInfo::new(10, 45, 15, 15), BlockInfo::new(67, 46, 16, 15)],
        (40, ECLevel::LOW) => vec![BlockInfo::new(19, 148, 118, 15), BlockInfo::new(6, 149, 119, 15)],
        (40, ECLevel::MEDIUM) => vec![BlockInfo::new(18, 75, 47, 14), BlockInfo::new(31, 76, 48, 14)],
        (40, ECLevel::QUARTILE) => vec![BlockInfo::new(34, 54, 24, 15), BlockInfo::new(34, 55, 25, 15)],
        (40, ECLevel::HIGH) => vec![BlockInfo::new(20, 45, 15, 15), BlockInfo::new(61, 46, 16, 15)],
        _ => {
            return Err(QRError { msg: "Unknown combination of version and level".to_owned() });
        },
    };
    proof {
        reveal_with_fuel(weighted_total, 4);
        assert(raw@ =~= spec_block_table(version as int, *level));
        let c0: int = 1;
        let t0: int = 26;
        assert(c0 * t0 == 26) by (nonlinear_arith)
            requires
                c0 == 1,
                t0 == 26,
        ;
        let c1: int = 1;
        let t1: int = 40;
        assert(c1 * t1 == 40) by (nonlinear_arith)
            requires
                c1 == 1,
                t1 == 40,
        ;
        let c2: int = 1;
        let t2: int = 44;
        assert(c2 * t2 == 44) by (nonlinear_arith)
            requires
                c2 == 1,
                t2 == 44,
        ;
        let c3: int = 1;
        let t3: int = 47;
        assert(c3 * t3 == 47) by (nonlinear_arith)
            requires
                c3 == 1,
                t3 == 47,
        ;
        let c4: int = 1;
        let t4: int = 50;
        assert(c4 * t4 == 50) by (nonlinear_arith)
            requires
                c4 == 1,
                t4 == 50,
        ;
        let c5: int = 1;
        let t5: int = 51;
        assert(c5 * t5 == 51) by (nonlinear_arith)
            requires
                c5 == 1,
                t5 == 51,
        ;
        let c6: int = 1;
        let t6: int = 53;
        assert(c6 * t6 == 53) by (nonlinear_arith)
            requires
                c6 == 1,
                t6 == 53,
        ;
        let c7: int = 1;
        let t7: int = 55;
        assert(c7 * t7 == 55) by (nonlinear_arith)
            requires
                c7 == 1,
                t7 == 55,
        ;
        let c8: int = 1;
        let t8: int = 60;
        assert(c8 * t8 == 60) by (nonlinear_arith)
            requires
                c8 == 1,
                t8 == 60,
        ;
        let c9: int = 1;
        let t9: int = 70;
        assert(c9 * t9 == 70) by (nonlinear_arith)
            requires
                c9 == 1,
                t9 == 70,
        ;
        let c10: int = 1;
        let t10: int = 75;
        assert(c10 * t10 == 75) by (nonlinear_arith)
            requires
                c10 == 1,
                t10 == 75,
        ;
        let c11: int = 1;
        let t11: int = 80;
        assert(c11 * t11 == 80) by (nonlinear_arith)
            requires
                c11 == 1,
                t11 == 80,
        ;
        let c12: int = 1;
        let t12: int = 100;
        assert(c12 * t12 == 100) by (nonlinear_arith)
            requires
                c12 == 1,
                t12 == 100,
        ;
        let c13: int = 1;
        let t13: int = 110;
        assert(c13 * t13 == 110) by (nonlinear_arith)
            requires
                c13 == 1,
                t13 == 110,
        ;
        let c14: int = 1;
        let t14: int = 123;
        assert(c14 * t14 == 123) by (nonlinear_arith)
            requires
                c14 == 1,
                t14 == 123,
        ;
        let c15: int = 1;
        let t15: int = 134;
        assert(c15 * t15 == 134) by (nonlinear_arith)
            requires
                c15 == 1,
                t15 == 134,
        ;
        let c16: int = 1;
        let t16: int = 135;
        assert(c16 * t16 == 135) by (nonlinear_arith)
            requires
                c16 == 1,
                t16 == 135,
        ;
        let c17: int = 1;
        let t17: int = 146;
        assert(c17 * t17 == 146) by (nonlinear_arith)
            requires
                c17 == 1,
                t17 == 146,
        ;
        let c18: int = 1;
        let t18: int = 151;
        assert(c18 * t18 == 151) by (nonlinear_arith)
            requires
                c18 == 1,
                t18 == 151,
        ;
        let c19: int = 2;
        let t19: int = 32;
        assert(c19 * t19 == 64) by (nonlinear_arith)
            requires
                c19 == 2,
                t19 == 32,
        ;
        let c20: int = 2;
        let t20: int = 33;
        assert(c20 * t20 == 66) by (nonlinear_arith)
            requires
                c20 == 2,
                t20 == 33,
        ;
        let c21: int = 2;
        let t21: int = 34;
        assert(c21 * t21 == 68) by (nonlinear_arith)
            requires
                c21 == 2,
                t21 == 34,
        ;
        let c22: int = 2;
        let t22: int = 35;
        assert(c22 * t22 == 70) by (nonlinear_arith)
            requires
                c22 == 2,
                t22 == 35,
        ;
        let c23: int = 2;
        let t23: int = 41;
        assert(c23 * t23 == 82) by (nonlinear_arith)
            requires
                c23 == 2,
                t23 == 41,
        ;
        let c24: int = 2;
        let t24: int = 42;
        assert(c24 * t24 == 84) by (nonlinear_arith)
            requires
                c24 == 2,
                t24 == 42,
        ;
        let c25: int = 2;
        let t25: int = 44;
        assert(c25 * t25 == 88) by (nonlinear_arith)
            requires
                c25 == 2,
                t25 == 44,
        ;
        let c26: int = 2;
        let t26: int = 45;
        assert(c26 * t26 == 90) by (nonlinear_arith)
            requires
                c26 == 2,
                t26 == 45,
        ;
        let c27: int = 2;
        let t27: int = 47;
        assert(c27 * t27 == 94) by (nonlinear_arith)
            requires
                c27 == 2,
                t27 == 47,
        ;
        let c28: int = 2;
        let t28: int = 50;
        assert(c28 * t28 == 100) by (nonlinear_arith)
            requires
                c28 == 2,
                t28 == 50,
        ;
        let c29: int = 2;
        let t29: int = 59;
        assert(c29 * t29 == 118) by (nonlinear_arith)
            requires
                c29 == 2,
                t29 == 59,
        ;
        let c30: int = 2;
        let t30: int = 60;
        assert(c30 * t30 == 120) by (nonlinear_arith)
            requires
                c30 == 2,
                t30 == 60,
        ;
        let c31: int = 2;
        let t31: int = 61;
        assert(c31 * t31 == 122) by (nonlinear_arith)
            requires
                c31 == 2,
                t31 == 61,
        ;
        let c32: int = 2;
        let t32: int = 67;
        assert(c32 * t32 == 134) by (nonlinear_arith)
            requires
                c32 == 2,
                t32 == 67,
        ;
        let c33: int = 2;
        let t33: int = 74;
        assert(c33 * t33 == 148) by (nonlinear_arith)
            requires
                c33 == 2,
                t33 == 74,
        ;
        let c34: int = 2;
        let t34: int = 86;
        assert(c34 * t34 == 172) by (nonlinear_arith)
            requires
                c34 == 2,
                t34 == 86,
        ;
        let c35: int = 2;
        let t35: int = 87;
        assert(c35 * t35 == 174) by (nonlinear_arith)
            requires
                c35 == 2,
                t35 == 87,
        ;
        let c36: int = 2;
        let t36: int = 98;
        assert(c36 * t36 == 196) by (nonlinear_arith)
            requires
                c36 == 2,
                t36 == 98,
        ;
        let c37: int = 2;
        let t37: int = 116;
        assert(c37 * t37 == 232) by (nonlinear_arith)
            requires
                c37 == 2,
                t37 == 116,
        ;
        let c38: int = 2;
        let t38: int = 117;
        assert(c38 * t38 == 234) by (nonlinear_arith)
            requires
                c38 == 2,
                t38 == 117,
        ;
        let c39: int = 2;
        let t39: int = 121;
        assert(c39 * t39 == 242) by (nonlinear_arith)
            requires
                c39 == 2,
                t39 == 121,
        ;
        let c40: int = 2;
        let t40: int = 139;
        assert(c40 * t40 == 278) by (nonlinear_arith)
            requires
                c40 == 2,
                t40 == 139,
        ;
        let c41: int = 2;
        let t41: int = 143;
        assert(c41 * t41 == 286) by (nonlinear_arith)
            requires
                c41 == 2,
                t41 == 143,
        ;
        let c42: int = 2;
        let t42: int = 146;
        assert(c42 * t42 == 292) by (nonlinear_arith)
            requires
                c42 == 2,
                t42 == 146,
        ;
        let c43: int = 3;
        let t43: int = 36;
        assert(c43 * t43 == 108) by (nonlinear_arith)
            requires
                c43 == 3,
                t43 == 36,
        ;
        let c44: int = 3;
        let t44: int = 45;
        assert(c44 * t44 == 135) by (nonlinear_arith)
            requires
                c44 == 3,
                t44 == 45,
        ;
        let c45: int = 3;
        let t45: int = 58;
        assert(c45 * t45 == 174) by (nonlinear_arith)
            requires
                c45 == 3,
                t45 == 58,
        ;
        let c46: int = 3;
        let t46: int = 67;
        assert(c46 * t46 == 201) by (nonlinear_arith)
            requires
                c46 == 3,
                t46 == 67,
        ;
        let c47: int = 3;
        let t47: int = 70;
        assert(c47 * t47 == 210) by (nonlinear_arith)
            requires
                c47 == 3,
                t47 == 70,
        ;
        let c48: int = 3;
        let t48: int = 73;
        assert(c48 * t48 == 219) by (nonlinear_arith)
            requires
                c48 == 3,
                t48 == 73,
        ;
        let c49: int = 3;
        let t49: int = 74;
        assert(c49 * t49 == 222) by (nonlinear_arith)
            requires
                c49 == 3,
                t49 == 74,
        ;
        let c50: int = 3;
        let t50: int = 135;
        assert(c50 * t50 == 405) by (nonlinear_arith)
            requires
                c50 == 3,
                t50 == 135,
        ;
        let c51: int = 3;
        let t51: int = 141;
        assert(c51 * t51 == 423) by (nonlinear_arith)
            requires
                c51 == 3,
                t51 == 141,
        ;
        let c52: int = 3;
        let t52: int = 145;
        assert(c52 * t52 == 435) by (nonlinear_arith)
            requires
                c52 == 3,
                t52 == 145,
        ;
        let c53: int = 3;
        let t53: int = 146;
        assert(c53 * t53 == 438) by (nonlinear_arith)
            requires
                c53 == 3,
                t53 == 146,
        ;
        let c54: int = 3;
        let t54: int = 147;
        assert(c54 * t54 == 441) by (nonlinear_arith)
            requires
                c54 == 3,
                t54 == 147,
        ;
        let c55: int = 4;
        let t55: int = 25;
        assert(c55 * t55 == 100) by (nonlinear_arith)
            requires
                c55 == 4,
                t55 == 25,
        ;
        let c56: int = 4;
        let t56: int = 33;
        assert(c56 * t56 == 132) by (nonlinear_arith)
            requires
                c56 == 4,
                t56 == 33,
        ;
        let c57: int = 4;
        let t57: int = 34;
        assert(c57 * t57 == 136) by (nonlinear_arith)
            requires
                c57 == 4,
                t57 == 34,
        ;
        let c58: int = 4;
        let t58: int = 36;
        assert(c58 * t58 == 144) by (nonlinear_arith)
            requires
                c58 == 4,
                t58 == 36,
        ;
        let c59: int = 4;
        let t59: int = 37;
        assert(c59 * t59 == 148) by (nonlinear_arith)
            requires
                c59 == 4,
                t59 == 37,
        ;
        let c60: int = 4;
        let t60: int = 39;
        assert(c60 * t60 == 156) by (nonlinear_arith)
            requires
                c60 == 4,
                t60 == 39,
        ;
        let c61: int = 4;
        let t61: int = 40;
        assert(c61 * t61 == 160) by (nonlinear_arith)
            requires
                c61 == 4,
                t61 == 40,
        ;
        let c62: int = 4;
        let t62: int = 43;
        assert(c62 * t62 == 172) by (nonlinear_arith)
            requires
                c62 == 4,
                t62 == 43,
        ;
        let c63: int = 4;
        let t63: int = 45;
        assert(c63 * t63 == 180) by (nonlinear_arith)
            requires
                c63 == 4,
                t63 == 45,
        ;
        let c64: int = 4;
        let t64: int = 46;
        assert(c64 * t64 == 184) by (nonlinear_arith)
            requires
                c64 == 4,
                t64 == 46,
        ;
        let c65: int = 4;
        let t65: int = 47;
        assert(c65 * t65 == 188) by (nonlinear_arith)
            requires
                c65 == 4,
                t65 == 47,
        ;
        let c66: int = 4;
        let t66: int = 48;
        assert(c66 * t66 == 192) by (nonlinear_arith)
            requires
                c66 == 4,
                t66 == 48,
        ;
        let c67: int = 4;
        let t67: int = 49;
        assert(c67 * t67 == 196) by (nonlinear_arith)
            requires
                c67 == 4,
                t67 == 49,
        ;
        let c68: int = 4;
        let t68: int = 50;
        assert(c68 * t68 == 200) by (nonlinear_arith)
            requires
                c68 == 4,
                t68 == 50,
        ;
        let c69: int = 4;
        let t69: int = 51;
        assert(c69 * t69 == 204) by (nonlinear_arith)
            requires
                c69 == 4,
                t69 == 51,
        ;
        let c70: int = 4;
        let t70: int = 54;
        assert(c70 * t70 == 216) by (nonlinear_arith)
            requires
                c70 == 4,
                t70 == 54,
        ;
        let c71: int = 4;
        let t71: int = 64;
        assert(c71 * t71 == 256) by (nonlinear_arith)
            requires
                c71 == 4,
                t71 == 64,
        ;
        let c72: int = 4;
        let t72: int = 69;
        assert(c72 * t72 == 276) by (nonlinear_arith)
            requires
                c72 == 4,
                t72 == 69,
        ;
        let c73: int = 4;
        let t73: int = 70;
        assert(c73 * t73 == 280) by (nonlinear_arith)
            requires
                c73 == 4,
                t73 == 70,
        ;
        let c74: int = 4;
        let t74: int = 75;
        assert(c74 * t74 == 300) by (nonlinear_arith)
            requires
                c74 == 4,
                t74 == 75,
        ;
        let c75: int = 4;
        let t75: int = 81;
        assert(c75 * t75 == 324) by (nonlinear_arith)
            requires
                c75 == 4,
                t75 == 81,
        ;
        let c76: int = 4;
        let t76: int = 101;
        assert(c76 * t76 == 404) by (nonlinear_arith)
            requires
                c76 == 4,
                t76 == 101,
        ;
        let c77: int = 4;
        let t77: int = 133;
        assert(c77 * t77 == 532) by (nonlinear_arith)
            requires
                c77 == 4,
                t77 == 133,
        ;
        let c78: int = 4;
        let t78: int = 142;
        assert(c78 * t78 == 568) by (nonlinear_arith)
            requires
                c78 == 4,
                t78 == 142,
        ;
        let c79: int = 4;
        let t79: int = 144;
        assert(c79 * t79 == 576) by (nonlinear_arith)
            requires
                c79 == 4,
                t79 == 144,
        ;
        let c80: int = 4;
        let t80: int = 145;
        assert(c80 * t80 == 580) by (nonlinear_arith)
            requires
                c80 == 4,
                t80 == 145,
        ;
        let c81: int = 4;
        let t81: int = 148;
        assert(c81 * t81 == 592) by (nonlinear_arith)
            requires
                c81 == 4,
                t81 == 148,
        ;
        let c82: int = 4;
        let t82: int = 151;
        assert(c82 * t82 == 604) by (nonlinear_arith)
            requires
                c82 == 4,
                t82 == 151,
        ;
        let c83: int = 4;
        let t83: int = 152;
        assert(c83 * t83 == 608) by (nonlinear_arith)
            requires
                c83 == 4,
                t83 == 152,
        ;
        let c84: int = 4;
        let t84: int = 153;
        assert(c84 * t84 == 612) by (nonlinear_arith)
            requires
                c84 == 4,
                t84 == 153,
        ;
        let c85: int = 5;
        let t85: int = 37;
        assert(c85 * t85 == 185) by (nonlinear_arith)
            requires
                c85 == 5,
                t85 == 37,
        ;
        let c86: int = 5;
        let t86: int = 54;
        assert(c86 * t86 == 270) by (nonlinear_arith)
            requires
                c86 == 5,
                t86 == 54,
        ;
        let c87: int = 5;
        let t87: int = 55;
        assert(c87 * t87 == 275) by (nonlinear_arith)
            requires
                c87 == 5,
                t87 == 55,
        ;
        let c88: int = 5;
        let t88: int = 65;
        assert(c88 * t88 == 325) by (nonlinear_arith)
            requires
                c88 == 5,
                t88 == 65,
        ;
        let c89: int = 5;
        let t89: int = 66;
        assert(c89 * t89 == 330) by (nonlinear_arith)
            requires
                c89 == 5,
                t89 == 66,
        ;
        let c90: int = 5;
        let t90: int = 109;
        assert(c90 * t90 == 545) by (nonlinear_arith)
            requires
                c90 == 5,
                t90 == 109,
        ;
        let c91: int = 5;
        let t91: int = 122;
        assert(c91 * t91 == 610) by (nonlinear_arith)
            requires
                c91 == 5,
                t91 == 122,
        ;
        let c92: int = 5;
        let t92: int = 136;
        assert(c92 * t92 == 680) by (nonlinear_arith)
            requires
                c92 == 5,
                t92 == 136,
        ;
        let c93: int = 5;
        let t93: int = 145;
        assert(c93 * t93 == 725) by (nonlinear_arith)
            requires
                c93 == 5,
                t93 == 145,
        ;
        let c94: int = 5;
        let t94: int = 150;
        assert(c94 * t94 == 750) by (nonlinear_arith)
            requires
                c94 == 5,
                t94 == 150,
        ;
        let c95: int = 5;
        let t95: int = 152;
        assert(c95 * t95 == 760) by (nonlinear_arith)
            requires
                c95 == 5,
                t95 == 152,
        ;
        let c96: int = 6;
        let t96: int = 43;
        assert(c96 * t96 == 258) by (nonlinear_arith)
            requires
                c96 == 6,
                t96 == 43,
        ;
        let c97: int = 6;
        let t97: int = 47;
        assert(c97 * t97 == 282) by (nonlinear_arith)
            requires
                c97 == 6,
                t97 == 47,
        ;
        let c98: int = 6;
        let t98: int = 51;
        assert(c98 * t98 == 306) by (nonlinear_arith)
            requires
                c98 == 6,
                t98 == 51,
        ;
        let c99: int = 6;
        let t99: int = 58;
        assert(c99 * t99 == 348) by (nonlinear_arith)
            requires
                c99 == 6,
                t99 == 58,
        ;
        let c100: int = 6;
        let t100: int = 73;
        assert(c100 * t100 == 438) by (nonlinear_arith)
            requires
                c100 == 6,
                t100 == 73,
        ;
        let c101: int = 6;
        let t101: int = 75;
        assert(c101 * t101 == 450) by (nonlinear_arith)
            requires
                c101 == 6,
                t101 == 75,
        ;
        let c102: int = 6;
        let t102: int = 146;
        assert(c102 * t102 == 876) by (nonlinear_arith)
            requires
                c102 == 6,
                t102 == 146,
        ;
        let c103: int = 6;
        let t103: int = 147;
        assert(c103 * t103 == 882) by (nonlinear_arith)
            requires
                c103 == 6,
                t103 == 147,
        ;
        let c104: int = 6;
        let t104: int = 149;
        assert(c104 * t104 == 894) by (nonlinear_arith)
            requires
                c104 == 6,
                t104 == 149,
        ;
        let c105: int = 6;
        let t105: int = 151;
        assert(c105 * t105 == 906) by (nonlinear_arith)
            requires
                c105 == 6,
                t105 == 151,
        ;
        let c106: int = 7;
        let t106: int = 37;
        assert(c106 * t106 == 259) by (nonlinear_arith)
            requires
                c106 == 7,
                t106 == 37,
        ;
        let c107: int = 7;
        let t107: int = 42;
        assert(c107 * t107 == 294) by (nonlinear_arith)
            requires
                c107 == 7,
                t107 == 42,
        ;
        let c108: int = 7;
        let t108: int = 54;
        assert(c108 * t108 == 378) by (nonlinear_arith)
            requires
                c108 == 7,
                t108 == 54,
        ;
        let c109: int = 7;
        let t109: int = 55;
        assert(c109 * t109 == 385) by (nonlinear_arith)
            requires
                c109 == 7,
                t109 == 55,
        ;
        let c110: int = 7;
        let t110: int = 73;
        assert(c110 * t110 == 511) by (nonlinear_arith)
            requires
                c110 == 7,
                t110 == 73,
        ;
        let c111: int = 7;
        let t111: int = 74;
        assert(c111 * t111 == 518) by (nonlinear_arith)
            requires
                c111 == 7,
                t111 == 74,
        ;
        let c112: int = 7;
        let t112: int = 76;
        assert(c112 * t112 == 532) by (nonlinear_arith)
            requires
                c112 == 7,
                t112 == 76,
        ;
        let c113: int = 7;
        let t113: int = 140;
        assert(c113 * t113 == 980) by (nonlinear_arith)
            requires
                c113 == 7,
                t113 == 140,
        ;
        let c114: int = 7;
        let t114: int = 146;
        assert(c114 * t114 == 1022) by (nonlinear_arith)
            requires
                c114 == 7,
                t114 == 146,
        ;
        let c115: int = 7;
        let t115: int = 147;
        assert(c115 * t115 == 1029) by (nonlinear_arith)
            requires
                c115 == 7,
                t115 == 147,
        ;
        let c116: int = 7;
        let t116: int = 152;
        assert(c116 * t116 == 1064) by (nonlinear_arith)
            requires
                c116 == 7,
                t116 == 152,
        ;
        let c117: int = 8;
        let t117: int = 37;
        assert(c117 * t117 == 296) by (nonlinear_arith)
            requires
                c117 == 8,
                t117 == 37,
        ;
        let c118: int = 8;
        let t118: int = 44;
        assert(c118 * t118 == 352) by (nonlinear_arith)
            requires
                c118 == 8,
                t118 == 44,
        ;
        let c119: int = 8;
        let t119: int = 53;
        assert(c119 * t119 == 424) by (nonlinear_arith)
            requires
                c119 == 8,
                t119 == 53,
        ;
        let c120: int = 8;
        let t120: int = 59;
        assert(c120 * t120 == 472) by (nonlinear_arith)
            requires
                c120 == 8,
                t120 == 59,
        ;
        let c121: int = 8;
        let t121: int = 75;
        assert(c121 * t121 == 600) by (nonlinear_arith)
            requires
                c121 == 8,
                t121 == 75,
        ;
        let c122: int = 8;
        let t122: int = 132;
        assert(c122 * t122 == 1056) by (nonlinear_arith)
            requires
                c122 == 8,
                t122 == 132,
        ;
        let c123: int = 8;
        let t123: int = 152;
        assert(c123 * t123 == 1216) by (nonlinear_arith)
            requires
                c123 == 8,
                t123 == 152,
        ;
        let c124: int = 9;
        let t124: int = 39;
        assert(c124 * t124 == 351) by (nonlinear_arith)
            requires
                c124 == 9,
                t124 == 39,
        ;
        let c125: int = 9;
        let t125: int = 69;
        assert(c125 * t125 == 621) by (nonlinear_arith)
            requires
                c125 == 9,
                t125 == 69,
        ;
        let c126: int = 10;
        let t126: int = 44;
        assert(c126 * t126 == 440) by (nonlinear_arith)
            requires
                c126 == 10,
                t126 == 44,
        ;
        let c127: int = 10;
        let t127: int = 45;
        assert(c127 * t127 == 450) by (nonlinear_arith)
            requires
                c127 == 10,
                t127 == 45,
        ;
        let c128: int = 10;
        let t128: int = 54;
        assert(c128 * t128 == 540) by (nonlinear_arith)
            requires
                c128 == 10,
                t128 == 54,
        ;
        let c129: int = 10;
        let t129: int = 55;
        assert(c129 * t129 == 550) by (nonlinear_arith)
            requires
                c129 == 10,
                t129 == 55,
        ;
        let c130: int = 10;
        let t130: int = 74;
        assert(c130 * t130 == 740) by (nonlinear_arith)
            requires
                c130 == 10,
                t130 == 74,
        ;
        let c131: int = 10;
        let t131: int = 76;
        assert(c131 * t131 == 760) by (nonlinear_arith)
            requires
                c131 == 10,
                t131 == 76,
        ;
        let c132: int = 10;
        let t132: int = 142;
        assert(c132 * t132 == 1420) by (nonlinear_arith)
            requires
                c132 == 10,
                t132 == 142,
        ;
        let c133: int = 10;
        let t133: int = 146;
        assert(c133 * t133 == 1460) by (nonlinear_arith)
            requires
                c133 == 10,
                t133 == 146,
        ;
        let c134: int = 10;
        let t134: int = 148;
        assert(c134 * t134 == 1480) by (nonlinear_arith)
            requires
                c134 == 10,
                t134 == 148,
        ;
        let c135: int = 11;
        let t135: int = 36;
        assert(c135 * t135 == 396) by (nonlinear_arith)
            requires
                c135 == 11,
                t135 == 36,
        ;
        let c136: int = 11;
        let t136: int = 45;
        assert(c136 * t136 == 495) by (nonlinear_arith)
            requires
                c136 == 11,
                t136 == 45,
        ;
        let c137: int = 11;
        let t137: int = 54;
        assert(c137 * t137 == 594) by (nonlinear_arith)
            requires
                c137 == 11,
                t137 == 54,
        ;
        let c138: int = 11;
        let t138: int = 71;
        assert(c138 * t138 == 781) by (nonlinear_arith)
            requires
                c138 == 11,
                t138 == 71,
        ;
        let c139: int = 12;
        let t139: int = 33;
        assert(c139 * t139 == 396) by (nonlinear_arith)
            requires
                c139 == 12,
                t139 == 33,
        ;
        let c140: int = 12;
        let t140: int = 45;
        assert(c140 * t140 == 540) by (nonlinear_arith)
            requires
                c140 == 12,
                t140 == 45,
        ;
        let c141: int = 12;
        let t141: int = 75;
        assert(c141 * t141 == 900) by (nonlinear_arith)
            requires
                c141 == 12,
                t141 == 75,
        ;
        let c142: int = 12;
        let t142: int = 151;
        assert(c142 * t142 == 1812) by (nonlinear_arith)
            requires
                c142 == 12,
                t142 == 151,
        ;
        let c143: int = 13;
        let t143: int = 46;
        assert(c143 * t143 == 598) by (nonlinear_arith)
            requires
                c143 == 13,
                t143 == 46,
        ;
        let c144: int = 13;
        let t144: int = 68;
        assert(c144 * t144 == 884) by (nonlinear_arith)
            requires
                c144 == 13,
                t144 == 68,
        ;
        let c145: int = 13;
        let t145: int = 74;
        assert(c145 * t145 == 962) by (nonlinear_arith)
            requires
                c145 == 13,
                t145 == 74,
        ;
        let c146: int = 13;
        let t146: int = 76;
        assert(c146 * t146 == 988) by (nonlinear_arith)
            requires
                c146 == 13,
                t146 == 76,
        ;
        let c147: int = 13;
        let t147: int = 145;
        assert(c147 * t147 == 1885) by (nonlinear_arith)
            requires
                c147 == 13,
                t147 == 145,
        ;
        let c148: int = 14;
        let t148: int = 46;
        assert(c148 * t148 == 644) by (nonlinear_arith)
            requires
                c148 == 14,
                t148 == 46,
        ;
        let c149: int = 14;
        let t149: int = 55;
        assert(c149 * t149 == 770) by (nonlinear_arith)
            requires
                c149 == 14,
                t149 == 55,
        ;
        let c150: int = 14;
        let t150: int = 74;
        assert(c150 * t150 == 1036) by (nonlinear_arith)
            requires
                c150 == 14,
                t150 == 74,
        ;
        let c151: int = 14;
        let t151: int = 75;
        assert(c151 * t151 == 1050) by (nonlinear_arith)
            requires
                c151 == 14,
                t151 == 75,
        ;
        let c152: int = 14;
        let t152: int = 76;
        assert(c152 * t152 == 1064) by (nonlinear_arith)
            requires
                c152 == 14,
                t152 == 76,
        ;
        let c153: int = 14;
        let t153: int = 152;
        assert(c153 * t153 == 2128) by (nonlinear_arith)
            requires
                c153 == 14,
                t153 == 152,
        ;
        let c154: int = 15;
        let t154: int = 43;
        assert(c154 * t154 == 645) by (nonlinear_arith)
            requires
                c154 == 15,
                t154 == 43,
        ;
        let c155: int = 15;
        let t155: int = 51;
        assert(c155 * t155 == 765) by (nonlinear_arith)
            requires
                c155 == 15,
                t155 == 51,
        ;
        let c156: int = 15;
        let t156: int = 54;
        assert(c156 * t156 == 810) by (nonlinear_arith)
            requires
                c156 == 15,
                t156 == 54,
        ;
        let c157: int = 16;
        let t157: int = 40;
        assert(c157 * t157 == 640) by (nonlinear_arith)
            requires
                c157 == 16,
                t157 == 40,
        ;
        let c158: int = 16;
        let t158: int = 45;
        assert(c158 * t158 == 720) by (nonlinear_arith)
            requires
                c158 == 16,
                t158 == 45,
        ;
        let c159: int = 16;
        let t159: int = 55;
        assert(c159 * t159 == 880) by (nonlinear_arith)
            requires
                c159 == 16,
                t159 == 55,
        ;
        let c160: int = 17;
        let t160: int = 43;
        assert(c160 * t160 == 731) by (nonlinear_arith)
            requires
                c160 == 17,
                t160 == 43,
        ;
        let c161: int = 17;
        let t161: int = 47;
        assert(c161 * t161 == 799) by (nonlinear_arith)
            requires
                c161 == 17,
                t161 == 47,
        ;
        let c162: int = 17;
        let t162: int = 50;
        assert(c162 * t162 == 850) by (nonlinear_arith)
            requires
                c162 == 17,
                t162 == 50,
        ;
        let c163: int = 17;
        let t163: int = 68;
        assert(c163 * t163 == 1156) by (nonlinear_arith)
            requires
                c163 == 17,
                t163 == 68,
        ;
        let c164: int = 17;
        let t164: int = 74;
        assert(c164 * t164 == 1258) by (nonlinear_arith)
            requires
                c164 == 17,
                t164 == 74,
        ;
        let c165: int = 17;
        let t165: int = 145;
        assert(c165 * t165 == 2465) by (nonlinear_arith)
            requires
                c165 == 17,
                t165 == 145,
        ;
        let c166: int = 17;
        let t166: int = 152;
        assert(c166 * t166 == 2584) by (nonlinear_arith)
            requires
                c166 == 17,
                t166 == 152,
        ;
        let c167: int = 18;
        let t167: int = 75;
        assert(c167 * t167 == 1350) by (nonlinear_arith)
            requires
                c167 == 18,
                t167 == 75,
        ;
        let c168: int = 18;
        let t168: int = 153;
        assert(c168 * t168 == 2754) by (nonlinear_arith)
            requires
                c168 == 18,
                t168 == 153,
        ;
        let c169: int = 19;
        let t169: int = 43;
        assert(c169 * t169 == 817) by (nonlinear_arith)
            requires
                c169 == 19,
                t169 == 43,
        ;
        let c170: int = 19;
        let t170: int = 45;
        assert(c170 * t170 == 855) by (nonlinear_arith)
            requires
                c170 == 19,
                t170 == 45,
        ;
        let c171: int = 19;
        let t171: int = 46;
        assert(c171 * t171 == 874) by (nonlinear_arith)
            requires
                c171 == 19,
                t171 == 46,
        ;
        let c172: int = 19;
        let t172: int = 55;
        assert(c172 * t172 == 1045) by (nonlinear_arith)
            requires
                c172 == 19,
                t172 == 55,
        ;
        let c173: int = 19;
        let t173: int = 74;
        assert(c173 * t173 == 1406) by (nonlinear_arith)
            requires
                c173 == 19,
                t173 == 74,
        ;
        let c174: int = 19;
        let t174: int = 75;
        assert(c174 * t174 == 1425) by (nonlinear_arith)
            requires
                c174 == 19,
                t174 == 75,
        ;
        let c175: int = 19;
        let t175: int = 148;
        assert(c175 * t175 == 2812) by (nonlinear_arith)
            requires
                c175 == 19,
                t175 == 148,
        ;
        let c176: int = 20;
        let t176: int = 45;
        assert(c176 * t176 == 900) by (nonlinear_arith)
            requires
                c176 == 20,
                t176 == 45,
        ;
        let c177: int = 20;
        let t177: int = 147;
        assert(c177 * t177 == 2940) by (nonlinear_arith)
            requires
                c177 == 20,
                t177 == 147,
        ;
        let c178: int = 21;
        let t178: int = 73;
        assert(c178 * t178 == 1533) by (nonlinear_arith)
            requires
                c178 == 21,
                t178 == 73,
        ;
        let c179: int = 21;
        let t179: int = 75;
        assert(c179 * t179 == 1575) by (nonlinear_arith)
            requires
                c179 == 21,
                t179 == 75,
        ;
        let c180: int = 22;
        let t180: int = 45;
        assert(c180 * t180 == 990) by (nonlinear_arith)
            requires
                c180 == 22,
                t180 == 45,
        ;
        let c181: int = 22;
        let t181: int = 55;
        assert(c181 * t181 == 1210) by (nonlinear_arith)
            requires
                c181 == 22,
                t181 == 55,
        ;
        let c182: int = 22;
        let t182: int = 73;
        assert(c182 * t182 == 1606) by (nonlinear_arith)
            requires
                c182 == 22,
                t182 == 73,
        ;
        let c183: int = 23;
        let t183: int = 45;
        assert(c183 * t183 == 1035) by (nonlinear_arith)
            requires
                c183 == 23,
                t183 == 45,
        ;
        let c184: int = 23;
        let t184: int = 74;
        assert(c184 * t184 == 1702) by (nonlinear_arith)
            requires
                c184 == 23,
                t184 == 74,
        ;
        let c185: int = 23;
        let t185: int = 75;
        assert(c185 * t185 == 1725) by (nonlinear_arith)
            requires
                c185 == 23,
                t185 == 75,
        ;
        let c186: int = 24;
        let t186: int = 45;
        assert(c186 * t186 == 1080) by (nonlinear_arith)
            requires
                c186 == 24,
                t186 == 45,
        ;
        let c187: int = 25;
        let t187: int = 46;
        assert(c187 * t187 == 1150) by (nonlinear_arith)
            requires
                c187 == 25,
                t187 == 46,
        ;
        let c188: int = 25;
        let t188: int = 55;
        assert(c188 * t188 == 1375) by (nonlinear_arith)
            requires
                c188 == 25,
                t188 == 55,
        ;
        let c189: int = 26;
        let t189: int = 46;
        assert(c189 * t189 == 1196) by (nonlinear_arith)
            requires
                c189 == 26,
                t189 == 46,
        ;
        let c190: int = 26;
        let t190: int = 54;
        assert(c190 * t190 == 1404) by (nonlinear_arith)
            requires
                c190 == 26,
                t190 == 54,
        ;
        let c191: int = 26;
        let t191: int = 76;
        assert(c191 * t191 == 1976) by (nonlinear_arith)
            requires
                c191 == 26,
                t191 == 76,
        ;
        let c192: int = 28;
        let t192: int = 46;
        assert(c192 * t192 == 1288) by (nonlinear_arith)
            requires
                c192 == 28,
                t192 == 46,
        ;
        let c193: int = 28;
        let t193: int = 50;
        assert(c193 * t193 == 1400) by (nonlinear_arith)
            requires
                c193 == 28,
                t193 == 50,
        ;
        let c194: int = 29;
        let t194: int = 54;
        assert(c194 * t194 == 1566) by (nonlinear_arith)
            requires
                c194 == 29,
                t194 == 54,
        ;
        let c195: int = 29;
        let t195: int = 74;
        assert(c195 * t195 == 2146) by (nonlinear_arith)
            requires
                c195 == 29,
                t195 == 74,
        ;
        let c196: int = 29;
        let t196: int = 75;
        assert(c196 * t196 == 2175) by (nonlinear_arith)
            requires
                c196 == 29,
                t196 == 75,
        ;
        let c197: int = 30;
        let t197: int = 46;
        assert(c197 * t197 == 1380) by (nonlinear_arith)
            requires
                c197 == 30,
                t197 == 46,
        ;
        let c198: int = 31;
        let t198: int = 46;
        assert(c198 * t198 == 1426) by (nonlinear_arith)
            requires
                c198 == 31,
                t198 == 46,
        ;
        let c199: int = 31;
        let t199: int = 55;
        assert(c199 * t199 == 1705) by (nonlinear_arith)
            requires
                c199 == 31,
                t199 == 55,
        ;
        let c200: int = 31;
        let t200: int = 76;
        assert(c200 * t200 == 2356) by (nonlinear_arith)
            requires
                c200 == 31,
                t200 == 76,
        ;
        let c201: int = 32;
        let t201: int = 46;
        assert(c201 * t201 == 1472) by (nonlinear_arith)
            requires
                c201 == 32,
                t201 == 46,
        ;
        let c202: int = 32;
        let t202: int = 75;
        assert(c202 * t202 == 2400) by (nonlinear_arith)
            requires
                c202 == 32,
                t202 == 75,
        ;
        let c203: int = 33;
        let t203: int = 46;
        assert(c203 * t203 == 1518) by (nonlinear_arith)
            requires
                c203 == 33,
                t203 == 46,
        ;
        let c204: int = 34;
        let t204: int = 37;
        assert(c204 * t204 == 1258) by (nonlinear_arith)
            requires
                c204 == 34,
                t204 == 37,
        ;
        let c205: int = 34;
        let t205: int = 54;
        assert(c205 * t205 == 1836) by (nonlinear_arith)
            requires
                c205 == 34,
                t205 == 54,
        ;
        let c206: int = 34;
        let t206: int = 55;
        assert(c206 * t206 == 1870) by (nonlinear_arith)
            requires
                c206 == 34,
                t206 == 55,
        ;
        let c207: int = 34;
        let t207: int = 76;
        assert(c207 * t207 == 2584) by (nonlinear_arith)
            requires
                c207 == 34,
                t207 == 76,
        ;
        let c208: int = 35;
        let t208: int = 46;
        assert(c208 * t208 == 1610) by (nonlinear_arith)
            requires
                c208 == 35,
                t208 == 46,
        ;
        let c209: int = 35;
        let t209: int = 55;
        assert(c209 * t209 == 1925) by (nonlinear_arith)
            requires
                c209 == 35,
                t209 == 55,
        ;
        let c210: int = 37;
        let t210: int = 54;
        assert(c210 * t210 == 1998) by (nonlinear_arith)
            requires
                c210 == 37,
                t210 == 54,
        ;
        let c211: int = 39;
        let t211: int = 54;
        assert(c211 * t211 == 2106) by (nonlinear_arith)
            requires
                c211 == 39,
                t211 == 54,
        ;
        let c212: int = 40;
        let t212: int = 75;
        assert(c212 * t212 == 3000) by (nonlinear_arith)
            requires
                c212 == 40,
                t212 == 75,
        ;
        let c213: int = 41;
        let t213: int = 46;
        assert(c213 * t213 == 1886) by (nonlinear_arith)
            requires
                c213 == 41,
                t213 == 46,
        ;
        let c214: int = 42;
        let t214: int = 45;
        assert(c214 * t214 == 1890) by (nonlinear_arith)
            requires
                c214 == 42,
                t214 == 45,
        ;
        let c215: int = 42;
        let t215: int = 54;
        assert(c215 * t215 == 2268) by (nonlinear_arith)
            requires
                c215 == 42,
                t215 == 54,
        ;
        let c216: int = 43;
        let t216: int = 54;
        assert(c216 * t216 == 2322) by (nonlinear_arith)
            requires
                c216 == 43,
                t216 == 54,
        ;
        let c217: int = 44;
        let t217: int = 54;
        assert(c217 * t217 == 2376) by (nonlinear_arith)
            requires
                c217 == 44,
                t217 == 54,
        ;
        let c218: int = 46;
        let t218: int = 46;
        assert(c218 * t218 == 2116) by (nonlinear_arith)
            requires
                c218 == 46,
                t218 == 46,
        ;
        let c219: int = 46;
        let t219: int = 54;
        assert(c219 * t219 == 2484) by (nonlinear_arith)
            requires
                c219 == 46,
                t219 == 54,
        ;
        let c220: int = 48;
        let t220: int = 54;
        assert(c220 * t220 == 2592) by (nonlinear_arith)
            requires
                c220 == 48,
                t220 == 54,
        ;
        let c221: int = 49;
        let t221: int = 54;
        assert(c221 * t221 == 2646) by (nonlinear_arith)
            requires
                c221 == 49,
                t221 == 54,
        ;
        let c222: int = 59;
        let t222: int = 46;
        assert(c222 * t222 == 2714) by (nonlinear_arith)
            requires
                c222 == 59,
                t222 == 46,
        ;
        let c223: int = 61;
        let t223: int = 46;
        assert(c223 * t223 == 2806) by (nonlinear_arith)
            requires
                c223 == 61,
                t223 == 46,
        ;
        let c224: int = 64;
        let t224: int = 46;
        assert(c224 * t224 == 2944) by (nonlinear_arith)
            requires
                c224 == 64,
                t224 == 46,
        ;
        let c225: int = 67;
        let t225: int = 46;
        assert(c225 * t225 == 3082) by (nonlinear_arith)
            requires
                c225 == 67,
                t225 == 46,
        ;
        assert(weighted_total(raw@) == total_codewords(version as int));
        assert(forall|i: int| 0 <= i < raw@.len() ==> (#[trigger] raw@[i]).wf()
            && raw@[i].block_count >= 1);
    }
    let mut bi_unwound: Vec<BlockInfo> = Vec::new();
    let mut idx: usize = 0;
    while idx < raw.len()
        invariant
            idx <= raw.len(),
            forall|i: int| 0 <= i < raw@.len() ==> (#[trigger] raw@[i]).wf(),
            weighted_total(raw@) == total_codewords(version as int),
            sum_total_per(bi_unwound@) == weighted_total(raw@.take(idx as int)),
            bi_unwound@ == unwind_shapes(raw@.take(idx as int)),
            forall|i: int| 0 <= i < bi_unwound@.len() ==> (#[trigger] bi_unwound@[i]).wf(),
            idx > 0 ==> bi_unwound@.len() >= 1,
        decreases raw.len() - idx,
    {
        let bi = raw[idx];
        let mut c: u8 = 0;
        proof {
            assert(bi_unwound@ =~= unwind_shapes(raw@.take(idx as int)) + Seq::new(
                0nat,
                |i: int| bi,
            ));
        }
        while c < bi.block_count
            invariant
                c <= bi.block_count,
                bi.wf(),
                sum_total_per(bi_unwound@) == weighted_total(raw@.take(idx as int)) + c
                    * bi.total_per,
                bi_unwound@ == unwind_shapes(raw@.take(idx as int)) + Seq::new(
                    c as nat,
                    |i: int| bi,
                ),
                bi_unwound@.len() >= c,
                forall|i: int| 0 <= i < bi_unwound@.len() ==> (#[trigger] bi_unwound@[i]).wf(),
            decreases bi.block_count - c,
        {
            proof {
                lemma_sum_push(bi_unwound@, bi);
                vstd::arithmetic::mul::lemma_mul_is_distributive_add_other_way(
                    bi.total_per as int,
                    c as int,
                    1,
                );
                vstd::arithmetic::mul::lemma_mul_basics(bi.total_per as int);
                assert((unwind_shapes(raw@.take(idx as int)) + Seq::new(c as nat, |i: int| bi)).push(
                    bi,
                ) =~= unwind_shapes(raw@.take(idx as int)) + Seq::new((c + 1) as nat, |i: int| bi));
            }
            bi_unwound.push(bi);
            c += 1;
        }
        proof {
            assert(raw@.take(idx + 1).drop_last() =~= raw@.take(idx as int));
            assert(repeat_shape(bi) =~= Seq::new(c as nat, |i: int| bi));
        }
        idx += 1;
    }
    proof {
        assert(raw@.take(raw@.len() as int) =~= raw@);
    }
    Ok(bi_unwound)
}

} // verus!
