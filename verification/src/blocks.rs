//! Reading the data modules of a symbol in zig-zag order and splitting
//! the interleaved codeword stream into its Reed-Solomon blocks.

use crate::blockinfo::{block_info, spec_block_info, sum_total_per, total_codewords, BlockInfo};
use crate::format::{qrmask, unmasked_bit};
use crate::qr::{ECLevel, QRData, QRError};
use vstd::arithmetic::power2::{lemma2_to64, lemma_pow2_strictly_increases, pow2};
use vstd::prelude::*;

verus! {

/// Where the alignment patterns of a version sit: the first interior
/// center coordinate, and the step between subsequent centers.
#[derive(Debug, Clone, Copy, PartialEq, Eq, Structural)]
pub struct AlignmentLocation {
    /// First interior center coordinate
    pub start: u32,
    /// Step between subsequent center coordinates
    pub step: u32,
}

impl AlignmentLocation {
    /// The fields stay in the range the coordinate test relies on.
    pub open spec fn wf(&self) -> bool {
        18 <= self.start <= 1000 && 1 <= self.step <= 1000
    }

    /// Build an alignment layout from its two coordinates.
    pub fn new(start: u32, step: u32) -> (r: AlignmentLocation)
        ensures
            r == (AlignmentLocation { start, step }),
    {
        AlignmentLocation { start, step }
    }
}

/// The alignment layout of each version: the first interior center
/// coordinate and the step between subsequent centers; a start or step
/// of 1000 stands for patterns that never occur within the side.
pub open spec fn spec_alignment_location(version: int) -> AlignmentLocation {
    if version == 1 {
        AlignmentLocation { start: 1000, step: 1000 }
    } else
    if version == 2 {
        AlignmentLocation { start: 18, step: 1000 }
    } else
    if version == 3 {
        AlignmentLocation { start: 22, step: 1000 }
    } else
    if version == 4 {
        AlignmentLocation { start: 26, step: 1000 }
    } else
    if version == 5 {
        AlignmentLocation { start: 30, step: 1000 }
    } else
    if version == 6 {
        AlignmentLocation { start: 34, step: 1000 }
    } else
    if version == 7 {
        AlignmentLocation { start: 22, step: 16 }
    } else
    if version == 8 {
        AlignmentLocation { start: 24, step: 18 }
    } else
    if version == 9 {
        AlignmentLocation { start: 26, step: 20 }
    } else
    if version == 10 {
        AlignmentLocation { start: 28, step: 22 }
    } else
    if version == 11 {
        AlignmentLocation { start: 30, step: 24 }
    } else
    if version == 12 {
        AlignmentLocation { start: 32, step: 26 }
    } else
    if version == 13 {
        AlignmentLocation { start: 34, step: 28 }
    } else
    if version == 14 {
        AlignmentLocation { start: 26, step: 20 }
    } else
    if version == 15 {
        AlignmentLocation { start: 26, step: 22 }
    } else
    if version == 16 {
        AlignmentLocation { start: 26, step: 24 }
    } else
    if version == 17 {
        AlignmentLocation { start: 30, step: 24 }
    } else
    if version == 18 {
        AlignmentLocation { start: 30, step: 26 }
    } else
    if version == 19 {
        AlignmentLocation { start: 30, step: 28 }
    } else
    if version == 20 {
        AlignmentLocation { start: 34, step: 28 }
    } else
    if version == 21 {
        AlignmentLocation { start: 28, step: 22 }
    } else
    if version == 22 {
        AlignmentLocation { start: 26, step: 24 }
    } else
    if version == 23 {
        AlignmentLocation { start: 30, step: 24 }
    } else
    if version == 24 {
        AlignmentLocation { start: 28, step: 26 }
    } else
    if version == 25 {
        AlignmentLocation { start: 32, step: 26 }
    } else
    if version == 26 {
        AlignmentLocation { start: 30, step: 28 }
    } else
    if version == 27 {
        AlignmentLocation { start: 34, step: 28 }
    } else
    if version == 28 {
        AlignmentLocation { start: 26, step: 24 }
    } else
    if version == 29 {
        AlignmentLocation { start: 30, step: 24 }
    } else
    if version == 30 {
        AlignmentLocation { start: 26, step: 26 }
    } else
    if version == 31 {
        AlignmentLocation { start: 30, step: 26 }
    } else
    if version == 32 {
        AlignmentLocation { start: 34, step: 26 }
    } else
    if version == 33 {
        AlignmentLocation { start: 30, step: 28 }
    } else
    if version == 34 {
        AlignmentLocation { start: 34, step: 28 }
    } else
    if version == 35 {
        AlignmentLocation { start: 30, step: 24 }
    } else
    if version == 36 {
        AlignmentLocation { start: 24, step: 26 }
    } else
    if version == 37 {
        AlignmentLocation { start: 28, step: 26 }
    } else
    if version == 38 {
        AlignmentLocation { start: 32, step: 26 }
    } else
    if version == 39 {
        AlignmentLocation { start: 26, step: 28 }
    } else {
        AlignmentLocation { start: 30, step: 28 }
    }
}


/// The alignment layout of a version.
pub fn alignment_location(version: u32) -> (r: Result<AlignmentLocation, QRError>)
    ensures
        r is Ok <==> 1 <= version <= 40,
        r is Ok ==> r->Ok_0 == spec_alignment_location(version as int) && r->Ok_0.wf(),
{
    match version {
        // no alignment patterns for version 1 but this saves some exception paths
        1 => Ok(AlignmentLocation::new(1000, 1000)),
        // only one alignment pattern for versions 2-6 but this saves some exception paths
        2 => Ok(AlignmentLocation::new(18, 1000)),
        3 => Ok(AlignmentLocation::new(22, 1000)),
        4 => Ok(AlignmentLocation::new(26, 1000)),
        5 => Ok(AlignmentLocation::new(30, 1000)),
        6 => Ok(AlignmentLocation::new(34, 1000)),
        // multiple alignment patterns, evenly spaced after the first
        7 => Ok(AlignmentLocation::new(22, 16)),
        8 => Ok(AlignmentLocation::new(24, 18)),
        9 => Ok(AlignmentLocation::new(26, 20)),
        10 => Ok(AlignmentLocation::new(28, 22)),
        11 => Ok(AlignmentLocation::new(30, 24)),
        12 => Ok(AlignmentLocation::new(32, 26)),
        13 => Ok(AlignmentLocation::new(34, 28)),
        14 => Ok(AlignmentLocation::new(26, 20)),
        15 => Ok(AlignmentLocation::new(26, 22)),
        16 => Ok(AlignmentLocation::new(26, 24)),
        17 => Ok(AlignmentLocation::new(30, 24)),
        18 => Ok(AlignmentLocation::new(30, 26)),
        19 => Ok(AlignmentLocation::new(30, 28)),
        20 => Ok(AlignmentLocation::new(34, 28)),
        21 => Ok(AlignmentLocation::new(28, 22)),
        22 => Ok(AlignmentLocation::new(26, 24)),
        23 => Ok(AlignmentLocation::new(30, 24)),
        24 => Ok(AlignmentLocation::new(28, 26)),
        25 => Ok(AlignmentLocation::new(32, 26)),
        26 => Ok(AlignmentLocation::new(30, 28)),
        27 => Ok(AlignmentLocation::new(34, 28)),
        28 => Ok(AlignmentLocation::new(26, 24)),
        29 => Ok(AlignmentLocation::new(30, 24)),
        30 => Ok(AlignmentLocation::new(26, 26)),
        31 => Ok(AlignmentLocation::new(30, 26)),
        32 => Ok(AlignmentLocation::new(34, 26)),
        33 => Ok(AlignmentLocation::new(30, 28)),
        34 => Ok(AlignmentLocation::new(34, 28)),
        35 => Ok(AlignmentLocation::new(30, 24)),
        36 => Ok(AlignmentLocation::new(24, 26)),
        37 => Ok(AlignmentLocation::new(28, 26)),
        38 => Ok(AlignmentLocation::new(32, 26)),
        39 => Ok(AlignmentLocation::new(26, 28)),
        40 => Ok(AlignmentLocation::new(30, 28)),
        _ => Err(QRError { msg: "Unknown version".to_owned() }),
    }
}

/// Whether a module coordinate falls within two modules of an alignment
/// center coordinate, the fixed band next to the finders included.
pub open spec fn is_alignment_coord_spec(loc: AlignmentLocation, coord: int) -> bool {
    if 4 <= coord && coord - 4 <= 4 {
        true
    } else if coord < loc.start - 2 {
        false
    } else {
        (coord - (loc.start - 2)) % (loc.step as int) <= 4
    }
}

/// Whether a module coordinate falls within two modules of an alignment
/// center coordinate.
pub fn is_alignment_coord(loc: &AlignmentLocation, coord: u32) -> (r: bool)
    requires
        loc.wf(),
    ensures
        r == is_alignment_coord_spec(*loc, coord as int),
{
    if coord >= 4 && coord - 4 % 6 <= 4 {
        return true;
    }

    if coord < loc.start - 2 {
        return false;
    }

    if (coord - (loc.start - 2)) % loc.step <= 4 {
        return true;
    }

    false
}

/// Whether the module at `(x, y)` carries data: none of the timing
/// patterns, finder corners, format strips, version information blocks
/// or alignment patterns covers it.
pub open spec fn is_data_spec(d: &QRData, loc: AlignmentLocation, x: int, y: int) -> bool {
    let side = d.side as int;
    if x == 6 || y == 6 {
        false
    } else if x < 9 && y < 9 {
        false
    } else if x > side - 9 && y < 9 {
        false
    } else if x < 9 && y > side - 9 {
        false
    } else if d.version >= 7 && x > side - 12 && y < 6 {
        false
    } else if d.version >= 7 && y > side - 12 && x < 6 {
        false
    } else if x == side - 9 && y < 9 {
        true
    } else if y == side - 9 && x < 9 {
        true
    } else if is_alignment_coord_spec(loc, x) && is_alignment_coord_spec(loc, y) {
        false
    } else {
        true
    }
}

/// Whether the module at `(x, y)` carries data.
pub fn is_data(data: &QRData, loc: &AlignmentLocation, x: u32, y: u32) -> (r: bool)
    requires
        data.wf(),
        loc.wf(),
        x < data.side,
        y < data.side,
    ensures
        r == is_data_spec(data, *loc, x as int, y as int),
{
    // timing patterns
    if x == 6 || y == 6 {
        return false;
    }

    // top left locator pattern
    if x < 9 && y < 9 {
        return false;
    }

    // top right locator pattern
    if x > data.side - 9 && y < 9 {
        return false;
    }

    // bottom left locator pattern
    if x < 9 && y > data.side - 9 {
        return false;
    }

    // top right version info
    if data.version >= 7 && x > data.side - 12 && y < 6 {
        return false;
    }

    // bottom left version info
    if data.version >= 7 && y > data.side - 12 && x < 6 {
        return false;
    }

    if x == data.side - 9 && y < 9 {
        return true;
    }

    if y == data.side - 9 && x < 9 {
        return true;
    }

    if is_alignment_coord(loc, x) && is_alignment_coord(loc, y) {
        return false;
    }

    true
}

/// Whether the two-column strip whose right column is `x` is read upward.
pub fn y_upward(x: u32, side: u32) -> (r: bool)
    requires
        x < side,
        side >= 21,
    ensures
        r == (((if x < 6 {
            side - x - 2
        } else {
            side - x - 1
        }) % 4) == 0),
{
    let x = if x < 6 {
        x + 1
    } else {
        x
    };
    (side - 1 - x) % 4 == 0
}

/// Sum of the lengths of a sequence of byte blocks.
pub open spec fn sum_lens(bs: Seq<Vec<u8>>) -> int
    decreases bs.len(),
{
    if bs.len() == 0 {
        0
    } else {
        sum_lens(bs.drop_last()) + bs.last()@.len()
    }
}

/// When blocks and shapes agree pointwise on their lengths, the summed
/// lengths equal the summed codeword counts.
proof fn lemma_sum_lens_eq(bs: Seq<Vec<u8>>, bi: Seq<BlockInfo>)
    requires
        bs.len() == bi.len(),
        forall|i: int| 0 <= i < bs.len() ==> (#[trigger] bs[i])@.len() == bi[i].total_per,
    ensures
        sum_lens(bs) == sum_total_per(bi),
    decreases bs.len(),
{
    if bs.len() > 0 {
        lemma_sum_lens_eq(bs.drop_last(), bi.drop_last());
    }
}


/// The largest data codeword count over a shape list.
pub open spec fn spec_max_data_round(bi: Seq<BlockInfo>) -> int
    decreases bi.len(),
{
    if bi.len() == 0 {
        0
    } else {
        let m = spec_max_data_round(bi.drop_last());
        if bi.last().data_per > m {
            bi.last().data_per as int
        } else {
            m
        }
    }
}

/// One advance of the deal cursor `(round, block, data_phase)`: the next
/// block, or the next round at the last block; rounds past the data
/// codewords leave the data phase, where the round counter rests.
pub open spec fn spec_inc_cursor(bi: Seq<BlockInfo>, cur: (int, int, bool)) -> (int, int, bool) {
    let (round, block, data) = cur;
    if block == bi.len() - 1 {
        if data {
            if round + 1 == spec_max_data_round(bi) {
                (round + 1, 0, false)
            } else {
                (round + 1, 0, true)
            }
        } else {
            (round, 0, false)
        }
    } else {
        (round, block + 1, data)
    }
}

/// Advance the cursor past every block whose data codewords are already
/// dealt in the current round.
pub open spec fn spec_skip_cursor(bi: Seq<BlockInfo>, cur: (int, int, bool)) -> (int, int, bool)
    decreases spec_max_data_round(bi) - cur.0, bi.len() - cur.1,
{
    let (round, block, data) = cur;
    if !data || !(0 <= block < bi.len()) || round >= spec_max_data_round(bi) || round <= bi[
        block
    ].data_per - 1 {
        cur
    } else {
        spec_skip_cursor(bi, spec_inc_cursor(bi, cur))
    }
}

/// Hand one codeword to the block whose turn it is: skip to that block,
/// append the byte there, advance the cursor.
pub open spec fn spec_deal_byte(
    bi: Seq<BlockInfo>,
    st: (Seq<Seq<u8>>, (int, int, bool)),
    byte: u8,
) -> (Seq<Seq<u8>>, (int, int, bool)) {
    let (bufs, cur0) = st;
    let cur = spec_skip_cursor(bi, cur0);
    let (round, block, data) = cur;
    (bufs.update(block, bufs[block].push(byte)), spec_inc_cursor(bi, cur))
}

/// Shift one bit into the packer state `(byte, bit count, deal state)`;
/// every eighth bit completes a codeword and deals it.
pub open spec fn spec_add_bit_state(
    bi: Seq<BlockInfo>,
    st: (u8, int, (Seq<Seq<u8>>, (int, int, bool))),
    bit: u8,
) -> (u8, int, (Seq<Seq<u8>>, (int, int, bool))) {
    let (cw, bc, deal) = st;
    let nb = (2 * cw + bit) as u8;
    if bc + 1 == 8 {
        (0u8, 0int, spec_deal_byte(bi, deal, nb))
    } else {
        (nb, bc + 1, deal)
    }
}

/// The packer state after feeding a bit sequence, bit by bit.
pub open spec fn spec_feed_bits(
    bi: Seq<BlockInfo>,
    st: (u8, int, (Seq<Seq<u8>>, (int, int, bool))),
    bits: Seq<u8>,
) -> (u8, int, (Seq<Seq<u8>>, (int, int, bool)))
    decreases bits.len(),
{
    if bits.len() == 0 {
        st
    } else {
        spec_add_bit_state(bi, spec_feed_bits(bi, st, bits.drop_last()), bits.last())
    }
}

/// The fresh packer state: an empty byte in hand and one empty buffer
/// per block, the cursor on the first block's first data round.
pub open spec fn spec_packer_init(bi: Seq<BlockInfo>) -> (
    u8,
    int,
    (Seq<Seq<u8>>, (int, int, bool)),
) {
    (0u8, 0int, (Seq::new(bi.len(), |i: int| Seq::<u8>::empty()), (0int, 0int, true)))
}

/// The deinterleaved buffers after packing and dealing a bit sequence.
pub open spec fn spec_deal_bits(bi: Seq<BlockInfo>, bits: Seq<u8>) -> Seq<Seq<u8>> {
    let (cw, bc, deal) = spec_feed_bits(bi, spec_packer_init(bi), bits);
    let (bufs, cur) = deal;
    bufs
}

/// Deinterleaver: the codewords of the symbol are dealt round-robin over
/// the blocks, all data codewords first, then all error correction
/// codewords.
struct Blocks {
    block_info: Vec<BlockInfo>,
    blocks: Vec<Vec<u8>>,
    round: usize,
    max_data_round: usize,
    block: usize,
    data_blocks: bool,
}

impl Blocks {
    /// The buffers as sequences.
    spec fn bufs(&self) -> Seq<Seq<u8>> {
        Seq::new(self.blocks@.len() as nat, |i: int| self.blocks@[i]@)
    }

    /// The deal cursor.
    spec fn cursor(&self) -> (int, int, bool) {
        (self.round as int, self.block as int, self.data_blocks)
    }

    /// The deinterleaver state the methods preserve.
    spec fn wf(&self) -> bool {
        &&& self.blocks@.len() == self.block_info@.len()
        &&& self.block_info@.len() >= 1
        &&& self.block < self.block_info@.len()
        &&& forall|i: int|
            0 <= i < self.block_info@.len() ==> (#[trigger] self.block_info@[i]).wf()
        &&& forall|i: int|
            0 <= i < self.block_info@.len() ==> (#[trigger] self.block_info@[i]).data_per
                <= self.max_data_round
        &&& self.max_data_round == spec_max_data_round(self.block_info@)
        &&& self.max_data_round <= 255
        &&& self.round <= self.max_data_round
        &&& self.data_blocks ==> self.round < self.max_data_round
    }

    /// Start a deinterleaver with one empty buffer per block.
    fn new(block_info: Vec<BlockInfo>) -> (r: Blocks)
        requires
            block_info@.len() >= 1,
            forall|i: int| 0 <= i < block_info@.len() ==> (#[trigger] block_info@[i]).wf(),
        ensures
            r.wf(),
            r.block_info == block_info,
            r.blocks@.len() == block_info@.len(),
            forall|i: int| 0 <= i < r.blocks@.len() ==> (#[trigger] r.blocks@[i])@.len() == 0,
            (r.bufs(), r.cursor()) == (spec_packer_init(block_info@).2),
    {
        let mut blocks: Vec<Vec<u8>> = Vec::new();
        let mut max_data_round: usize = 0;

        let mut i: usize = 0;
        while i < block_info.len()
            invariant
                i <= block_info@.len(),
                blocks@.len() == i,
                forall|j: int| 0 <= j < block_info@.len() ==> (#[trigger] block_info@[j]).wf(),
                forall|j: int| 0 <= j < i ==> (#[trigger] block_info@[j]).data_per
                    <= max_data_round,
                max_data_round == spec_max_data_round(block_info@.take(i as int)),
                max_data_round <= 255,
                i > 0 ==> max_data_round >= 1,
                forall|j: int| 0 <= j < blocks@.len() ==> (#[trigger] blocks@[j])@.len() == 0,
            decreases block_info@.len() - i,
        {
            let bi = block_info[i];
            proof {
                assert(block_info@.take(i + 1).drop_last() =~= block_info@.take(i as int));
                assert(block_info@.take(i + 1).last() == block_info@[i as int]);
            }
            if bi.data_per as usize > max_data_round {
                max_data_round = bi.data_per as usize;
            }
            blocks.push(Vec::new());
            i += 1;
        }

        let r = Blocks { block_info, blocks, round: 0, max_data_round, block: 0, data_blocks: true };
        proof {
            assert(r.block_info@.take(r.block_info@.len() as int) =~= r.block_info@);
            assert(r.bufs() =~~= Seq::new(r.block_info@.len() as nat, |i: int| Seq::<u8>::empty()));
        }
        r
    }

    /// Hand a codeword to the block whose turn it is, exactly as
    /// [`spec_deal_byte`] states.
    fn push(&mut self, byte: u8)
        requires
            old(self).wf(),
        ensures
            final (self).wf(),
            final (self).blocks@.len() == old(self).blocks@.len(),
            final (self).block_info == old(self).block_info,
            (final (self).bufs(), final (self).cursor()) == spec_deal_byte(
                old(self).block_info@,
                (old(self).bufs(), old(self).cursor()),
                byte,
            ),
    {
        while self.data_blocks && self.round > self.block_info[self.block].data_per as usize - 1
            invariant
                self.wf(),
                self.blocks@.len() == old(self).blocks@.len(),
                self.block_info == old(self).block_info,
                self.bufs() == old(self).bufs(),
                spec_skip_cursor(self.block_info@, old(self).cursor()) == spec_skip_cursor(
                    self.block_info@,
                    self.cursor(),
                ),
            decreases
                    self.max_data_round - self.round,
                    self.block_info@.len() - self.block,
        {
            proof {
                assert(self.bufs() =~= old(self).bufs());
            }
            self.inc_count();
        }

        proof {
            assert(spec_skip_cursor(self.block_info@, self.cursor()) == self.cursor());
        }
        let b = self.block;
        let ghost mid = *self;
        let inner = self.blocks.remove(b);
        let mut inner = inner;
        inner.push(byte);
        self.blocks.insert(b, inner);
        proof {
            assert(self.blocks@ =~= mid.blocks@.update(b as int, self.blocks@[b as int]));
            assert(self.blocks@[b as int]@ =~= mid.blocks@[b as int]@.push(byte));
            assert(self.bufs() =~= mid.bufs().update(b as int, mid.bufs()[b as int].push(byte)));
        }
        self.inc_count();
    }

    /// Move on to the next block, or the next round when the last block
    /// had its turn; rounds past the data codewords leave the data phase.
    fn inc_count(&mut self)
        requires
            old(self).wf(),
        ensures
            final (self).wf(),
            final (self).blocks == old(self).blocks,
            final (self).block_info == old(self).block_info,
            final (self).max_data_round == old(self).max_data_round,
            final (self).data_blocks ==> old(self).data_blocks,
            old(self).data_blocks ==> {
                &&& (final (self).round == old(self).round ==> final (self).block == old(
                    self,
                ).block + 1)
                &&& (final (self).round == old(self).round || final (self).round == old(self).round
                    + 1)
                &&& (final (self).round == old(self).round + 1 ==> final (self).block == 0)
            },
            final (self).cursor() == spec_inc_cursor(old(self).block_info@, old(self).cursor()),
    {
        if self.block == self.block_info.len() - 1 {
            self.block = 0;
            // the round counter only matters while data codewords are dealt
            if self.data_blocks {
                self.round = self.round + 1;
                if self.round == self.max_data_round {
                    self.data_blocks = false;
                }
            }
        } else {
            self.block = self.block + 1;
        }
    }
}

/// Bit collector: packs walked bits most significant first into bytes and
/// deals each finished byte to the deinterleaver.
struct Codewords {
    current_byte: u8,
    bit_count: u8,
    blocks: Blocks,
}

impl Codewords {
    /// The packer state: the byte in hand, its bit count, and the deal.
    spec fn st(&self) -> (u8, int, (Seq<Seq<u8>>, (int, int, bool))) {
        (self.current_byte, self.bit_count as int, (self.blocks.bufs(), self.blocks.cursor()))
    }

    /// The collector state the methods preserve.
    spec fn wf(&self) -> bool {
        &&& self.blocks.wf()
        &&& self.bit_count <= 7
        &&& (self.current_byte as nat) < pow2(self.bit_count as nat)
    }

    /// Start a collector over a deinterleaver.
    fn new(block_info: Vec<BlockInfo>) -> (r: Codewords)
        requires
            block_info@.len() >= 1,
            forall|i: int| 0 <= i < block_info@.len() ==> (#[trigger] block_info@[i]).wf(),
        ensures
            r.wf(),
            r.blocks.blocks@.len() == block_info@.len(),
            r.blocks.block_info == block_info,
            r.st() == spec_packer_init(block_info@),
    {
        proof {
            lemma2_to64();
        }
        Codewords { current_byte: 0, bit_count: 0, blocks: Blocks::new(block_info) }
    }

    /// Shift one bit in; every eighth bit completes a codeword.
    fn add_bit(&mut self, bit: u8)
        requires
            old(self).wf(),
            bit <= 1,
        ensures
            final (self).wf(),
            final (self).blocks.blocks@.len() == old(self).blocks.blocks@.len(),
            final (self).blocks.block_info == old(self).blocks.block_info,
            final (self).st() == spec_add_bit_state(
                old(self).blocks.block_info@,
                old(self).st(),
                bit,
            ),
    {
        proof {
            lemma2_to64();
            if (self.bit_count as nat) < 7 {
                lemma_pow2_strictly_increases(self.bit_count as nat, 7);
            }
            vstd::arithmetic::power2::lemma_pow2_unfold((self.bit_count + 1) as nat);
        }
        self.current_byte = self.current_byte * 2 + bit;
        self.bit_count = self.bit_count + 1;

        if self.bit_count == 8 {
            let byte = self.current_byte;
            self.blocks.push(byte);
            self.current_byte = 0;
            self.bit_count = 0;
        }
    }

    /// Hand out the deinterleaved blocks; a partial trailing byte is
    /// dropped, as the walk of a whole symbol never leaves one.
    fn into_blocks(self) -> (r: Vec<Vec<u8>>)
        ensures
            r == self.blocks.blocks,
            r@.len() == self.blocks.bufs().len(),
            forall|i: int|
                0 <= i < r@.len() ==> (#[trigger] r@[i])@ == self.blocks.bufs()[i],
    {
        let Codewords { current_byte: _, bit_count: _, blocks } = self;
        let Blocks { block_info: _, blocks: bs, round: _, max_data_round: _, block: _, data_blocks: _ } = blocks;
        bs
    }
}


/// The bits the walk reads at row `y` of the strip whose right column is
/// `x`: the unmasked module at `(x, y)` if it carries data, then the one
/// at `(x - 1, y)` if it does.
pub open spec fn row_pair_bits(
    d: &QRData,
    loc: AlignmentLocation,
    mask: int,
    x: int,
    y: int,
) -> Seq<u8> {
    (if is_data_spec(d, loc, x, y) {
        seq![unmasked_bit(d, mask, x, y)]
    } else {
        Seq::<u8>::empty()
    }) + (if is_data_spec(d, loc, x - 1, y) {
        seq![unmasked_bit(d, mask, x - 1, y)]
    } else {
        Seq::<u8>::empty()
    })
}

/// The strip's bits over rows `n - 1` down to `0`.
pub open spec fn strip_bits_up(d: &QRData, loc: AlignmentLocation, mask: int, x: int, n: int) -> Seq<
    u8,
>
    decreases n,
{
    if n <= 0 {
        Seq::empty()
    } else {
        row_pair_bits(d, loc, mask, x, n - 1) + strip_bits_up(d, loc, mask, x, n - 1)
    }
}

/// The strip's bits over rows `n` up to the bottom edge.
pub open spec fn strip_bits_down(
    d: &QRData,
    loc: AlignmentLocation,
    mask: int,
    x: int,
    n: int,
) -> Seq<u8>
    decreases d.side - n,
{
    if n >= d.side {
        Seq::empty()
    } else {
        row_pair_bits(d, loc, mask, x, n) + strip_bits_down(d, loc, mask, x, n + 1)
    }
}

/// Whether the strip at right column `x` is walked upward.
pub open spec fn strip_upward(side: int, x: int) -> bool {
    ((if x < 6 {
        side - x - 2
    } else {
        side - x - 1
    }) % 4) == 0
}

/// The bits of one two-column strip, in its walk direction.
pub open spec fn strip_bits(d: &QRData, loc: AlignmentLocation, mask: int, x: int) -> Seq<u8> {
    if strip_upward(d.side as int, x) {
        strip_bits_up(d, loc, mask, x, d.side as int)
    } else {
        strip_bits_down(d, loc, mask, x, 0)
    }
}

/// The walk's bits from the strip at right column `x` leftward, strips
/// stepping by two columns and skipping the timing column.
pub open spec fn walk_from(d: &QRData, loc: AlignmentLocation, mask: int, x: int) -> Seq<u8>
    decreases x,
{
    if x < 1 {
        Seq::empty()
    } else if x == 1 {
        strip_bits(d, loc, mask, 1)
    } else {
        let nxt = if x - 2 == 6 {
            5int
        } else {
            x - 2
        };
        strip_bits(d, loc, mask, x) + walk_from(d, loc, mask, nxt)
    }
}

/// Every data module of the symbol in zig-zag walk order, with the mask
/// pattern taken back out.
pub open spec fn spec_walk_bits(d: &QRData, mask: int) -> Seq<u8> {
    walk_from(d, spec_alignment_location(d.version as int), mask, d.side - 1)
}

/// The deinterleaved codeword buffers of the symbol: the walked bits
/// packed into codewords and dealt round-robin over the blocks.
pub open spec fn spec_blocks(d: &QRData, level: ECLevel, mask: int) -> Seq<Seq<u8>> {
    spec_deal_bits(spec_block_info(d.version as int, level), spec_walk_bits(d, mask))
}

/// The deal's buffers have exactly the shapes of the version's block
/// structure.
pub open spec fn spec_blocks_shape_ok(d: &QRData, level: ECLevel, mask: int) -> bool {
    let bs = spec_blocks(d, level, mask);
    let bi = spec_block_info(d.version as int, level);
    bs.len() == bi.len() && forall|i: int|
        0 <= i < bi.len() ==> (#[trigger] bs[i]).len() == bi[i].total_per
}

/// Walk the data modules of the symbol in zig-zag order, deal the
/// codewords into their Reed-Solomon blocks, and check the shape.
///
/// The buffers returned are exactly [`spec_blocks`]: the walked bits of
/// [`spec_walk_bits`], packed into codewords and dealt round-robin; the
/// walk succeeds precisely when the deal fills every block of the
/// version's structure to its codeword count.
#[verifier::loop_isolation(false)]
#[verifier::rlimit(100)]
pub fn blocks(data: &QRData, level: &ECLevel, mask: u8) -> (r: Result<Vec<Vec<u8>>, QRError>)
    requires
        data.wf(),
        mask < 8,
    ensures
        r is Ok <==> spec_blocks_shape_ok(data, *level, mask as int),
        r is Ok ==> {
            let bs = spec_blocks(data, *level, mask as int);
            &&& r->Ok_0@.len() == bs.len()
            &&& forall|i: int| 0 <= i < bs.len() ==> (#[trigger] r->Ok_0@[i])@ == bs[i]
        },
        r is Ok ==> sum_lens(r->Ok_0@) == total_codewords(data.version as int),
        r is Ok ==> {
            let bi = spec_block_info(data.version as int, *level);
            &&& r->Ok_0@.len() == bi.len()
            &&& r->Ok_0@.len() >= 1
            &&& forall|i: int| 0 <= i < bi.len() ==> (#[trigger] r->Ok_0@[i])@.len() == bi[i].total_per
        },
{
    let bi = match block_info(data.version, level) {
        Ok(bi) => bi,
        Err(e) => {
            return Err(e);
        },
    };
    let ghost bi0 = bi@;
    let mut codewords = Codewords::new(bi);
    let ghost mut bits: Seq<u8> = Seq::empty();
    let mut x = data.side - 1;
    let loc = match alignment_location(data.version) {
        Ok(loc) => loc,
        Err(e) => {
            return Err(e);
        },
    };
    let ghost sloc = spec_alignment_location(data.version as int);
    let ghost sw = spec_walk_bits(data, mask as int);

    proof {
        assert(Seq::<u8>::empty() + walk_from(data, sloc, mask as int, x as int) =~= walk_from(
            data,
            sloc,
            mask as int,
            x as int,
        ));
    }

    while x >= 1
        invariant
            codewords.wf(),
            codewords.blocks.block_info@ == bi0,
            x <= data.side - 1,
            codewords.st() == spec_feed_bits(bi0, spec_packer_init(bi0), bits),
            bits + walk_from(data, sloc, mask as int, x as int) == sw,
        decreases x,
    {
        let upward = y_upward(x, data.side);

        let ghost bits0 = bits;
        let mut y: u32 = if upward {
            data.side
        } else {
            0
        };
        // walk one two-column strip in the current direction
        if upward {
            while y > 0
                invariant
                    y <= data.side,
                    codewords.wf(),
                    codewords.blocks.block_info@ == bi0,
                    codewords.st() == spec_feed_bits(bi0, spec_packer_init(bi0), bits),
                    bits + strip_bits_up(data, sloc, mask as int, x as int, y as int) == bits0
                        + strip_bits_up(data, sloc, mask as int, x as int, data.side as int),
                decreases y,
            {
                y -= 1;
                let ghost row0 = bits;
                if is_data(data, &loc, x, y) {
                    let b = qrmask(data, mask, x, y);
                    proof {
                        assert(bits.push(b).drop_last() =~= bits);
                    }
                    codewords.add_bit(b);
                    proof {
                        bits = bits.push(b);
                        assert(codewords.st() == spec_feed_bits(bi0, spec_packer_init(bi0), bits));
                    }
                }
                if is_data(data, &loc, x - 1, y) {
                    let b = qrmask(data, mask, x - 1, y);
                    proof {
                        assert(bits.push(b).drop_last() =~= bits);
                    }
                    codewords.add_bit(b);
                    proof {
                        bits = bits.push(b);
                        assert(codewords.st() == spec_feed_bits(bi0, spec_packer_init(bi0), bits));
                    }
                }
                proof {
                    assert(bits =~= row0 + row_pair_bits(data, sloc, mask as int, x as int, y as int));
                    assert((row0 + row_pair_bits(data, sloc, mask as int, x as int, y as int))
                        + strip_bits_up(data, sloc, mask as int, x as int, y as int) =~= row0 + (
                    row_pair_bits(data, sloc, mask as int, x as int, y as int) + strip_bits_up(
                        data,
                        sloc,
                        mask as int,
                        x as int,
                        y as int,
                    )));
                }
            }
            proof {
                assert(bits + strip_bits_up(data, sloc, mask as int, x as int, 0) =~= bits);
            }
        } else {
            while y < data.side
                invariant
                    y <= data.side,
                    codewords.wf(),
                    codewords.blocks.block_info@ == bi0,
                    codewords.st() == spec_feed_bits(bi0, spec_packer_init(bi0), bits),
                    bits + strip_bits_down(data, sloc, mask as int, x as int, y as int) == bits0
                        + strip_bits_down(data, sloc, mask as int, x as int, 0),
                decreases data.side - y,
            {
                let ghost row0 = bits;
                if is_data(data, &loc, x, y) {
                    let b = qrmask(data, mask, x, y);
                    proof {
                        assert(bits.push(b).drop_last() =~= bits);
                    }
                    codewords.add_bit(b);
                    proof {
                        bits = bits.push(b);
                        assert(codewords.st() == spec_feed_bits(bi0, spec_packer_init(bi0), bits));
                    }
                }
                if is_data(data, &loc, x - 1, y) {
                    let b = qrmask(data, mask, x - 1, y);
                    proof {
                        assert(bits.push(b).drop_last() =~= bits);
                    }
                    codewords.add_bit(b);
                    proof {
                        bits = bits.push(b);
                        assert(codewords.st() == spec_feed_bits(bi0, spec_packer_init(bi0), bits));
                    }
                }
                proof {
                    assert(bits =~= row0 + row_pair_bits(data, sloc, mask as int, x as int, y as int));
                    assert((row0 + row_pair_bits(data, sloc, mask as int, x as int, y as int))
                        + strip_bits_down(data, sloc, mask as int, x as int, y + 1) =~= row0 + (
                    row_pair_bits(data, sloc, mask as int, x as int, y as int) + strip_bits_down(
                        data,
                        sloc,
                        mask as int,
                        x as int,
                        y + 1,
                    )));
                }
                y += 1;
            }
            proof {
                assert(bits + strip_bits_down(
                    data,
                    sloc,
                    mask as int,
                    x as int,
                    data.side as int,
                ) =~= bits);
            }
        }

        proof {
            assert(bits == bits0 + strip_bits(data, sloc, mask as int, x as int));
        }

        if x == 1 {
            proof {
                assert(bits + walk_from(data, sloc, mask as int, 0) =~= bits);
            }
            x = 0;
        } else {
            proof {
                let nxt: int = if x - 2 == 6 {
                    5int
                } else {
                    x - 2
                };
                assert((bits0 + strip_bits(data, sloc, mask as int, x as int)) + walk_from(
                    data,
                    sloc,
                    mask as int,
                    nxt,
                ) =~= bits0 + (strip_bits(data, sloc, mask as int, x as int) + walk_from(
                    data,
                    sloc,
                    mask as int,
                    nxt,
                )));
            }
            x -= 2;
            if x == 6 {
                // skip the timing column
                x = 5;
            }
        }
    }

    proof {
        assert(bits + walk_from(data, sloc, mask as int, 0) =~= bits);
        assert(bits == sw);
    }

    let bi = match block_info(data.version, level) {
        Ok(bi) => bi,
        Err(e) => {
            return Err(e);
        },
    };
    let blocks = codewords.into_blocks();

    proof {
        assert(blocks@.len() == spec_blocks(data, *level, mask as int).len());
        assert(forall|i: int|
            0 <= i < blocks@.len() ==> (#[trigger] blocks@[i])@ == spec_blocks(
                data,
                *level,
                mask as int,
            )[i]);
    }

    if blocks.len() != bi.len() {
        return Err(QRError { msg: "Unexpected number of blocks".to_owned() });
    }

    let mut i: usize = 0;
    while i < blocks.len()
        invariant
            blocks@.len() == bi@.len(),
            i <= blocks@.len(),
            forall|j: int| 0 <= j < i ==> (#[trigger] blocks@[j])@.len() == bi@[j].total_per,
        decreases blocks@.len() - i,
    {
        if bi[i].total_per as usize != blocks[i].len() {
            return Err(QRError { msg: "Unexpected codeword count in a block".to_owned() });
        }
        i += 1;
    }

    proof {
        lemma_sum_lens_eq(blocks@, bi@);
    }

    Ok(blocks)
}

} // verus!
