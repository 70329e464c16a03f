//! Decoding a sampled module grid into text: format information, block
//! extraction, error correction, and the bit-stream interpreter in turn.

use crate::blockinfo::{block_info, spec_block_info, sum_data_per, total_codewords, BlockInfo};
use crate::blocks::{blocks, spec_blocks, spec_blocks_shape_ok, sum_lens};
use crate::correct::{changed_positions, diff_bits, rs_syndrome, syndromes_clean};
use crate::galois::EXP8;
use crate::correct::correct_with_error_count;
use crate::chomp::bits_of;
use crate::data::{data, spec_segments};
use crate::format::spec_format;
use crate::qr::{ECLevel, QRData, QRError, QRInfo};
use vstd::prelude::*;

verus! {

/// Decode extracted data into a resulting value.
///
/// For convenience and easy pipelining the input is the [`Result`]
/// returned from the extraction step; implementors pass any error given
/// to them through as it stands.
pub trait Decode<DATA, RESULT, ERROR> {
    /// Does the actual decoding
    fn decode(&self, data: Result<DATA, ERROR>) -> Result<RESULT, ERROR>;
}

/// Every version's codeword capacity fits comfortably in the machine.
proof fn lemma_total_codewords_bound()
    ensures
        forall|v: int| 1 <= v <= 40 ==> 0 <= #[trigger] total_codewords(v) <= 3706,
{
}

/// A prefix extended by one shape grows its data codeword sum by that
/// shape.
proof fn lemma_sum_data_take(bi: Seq<BlockInfo>, i: int)
    requires
        0 <= i < bi.len(),
    ensures
        sum_data_per(bi.take(i + 1)) == sum_data_per(bi.take(i)) + bi[i].data_per,
{
    assert(bi.take(i + 1).drop_last() =~= bi.take(i));
    assert(bi.take(i + 1).last() == bi[i]);
}

/// A prefix extended by one block grows its length sum by that block.
proof fn lemma_sum_lens_take(bs: Seq<Vec<u8>>, i: int)
    requires
        0 <= i < bs.len(),
    ensures
        sum_lens(bs.take(i + 1)) == sum_lens(bs.take(i)) + bs[i]@.len(),
    decreases bs.len(),
{
    assert(bs.take(i + 1).drop_last() =~= bs.take(i));
    assert(bs.take(i + 1).last() == bs[i]);
}

/// A prefix never outweighs the whole.
proof fn lemma_sum_lens_prefix(bs: Seq<Vec<u8>>, i: int)
    requires
        0 <= i <= bs.len(),
    ensures
        sum_lens(bs.take(i)) <= sum_lens(bs),
    decreases bs.len() - i,
{
    if i < bs.len() {
        lemma_sum_lens_take(bs, i);
        lemma_sum_lens_prefix(bs, i + 1);
    } else {
        assert(bs.take(i) =~= bs);
    }
}


/// The first `n` buffers each truncated to its data share, in order.
pub open spec fn data_concat_upto(bs: Seq<Seq<u8>>, bi: Seq<BlockInfo>, n: int) -> Seq<u8>
    decreases n,
{
    if n <= 0 {
        Seq::empty()
    } else {
        data_concat_upto(bs, bi, n - 1) + bs[n - 1].take(bi[n - 1].data_per as int)
    }
}

/// The data codewords of a symbol at a level and mask: every deal buffer
/// truncated to its data share, concatenated in block order.
pub open spec fn spec_data_codewords(d: &QRData, level: ECLevel, mask: int) -> Seq<u8> {
    let bs = spec_blocks(d, level, mask);
    let bi = spec_block_info(d.version as int, level);
    data_concat_upto(bs, bi, bi.len() as int)
}

/// Every block of the symbol has all its syndromes zero.
pub open spec fn spec_all_blocks_clean(d: &QRData, level: ECLevel, mask: int) -> bool {
    let bs = spec_blocks(d, level, mask);
    let bi = spec_block_info(d.version as int, level);
    forall|i: int| 0 <= i < bi.len() ==> syndromes_clean(#[trigger] bs[i], bi[i].ec_cap as int)
}

/// Bits of difference between the first `n` buffers and their corrected
/// forms, summed.
pub open spec fn sum_diff_upto(bs: Seq<Seq<u8>>, cs: Seq<Seq<u8>>, n: int) -> int
    decreases n,
{
    if n <= 0 {
        0
    } else {
        sum_diff_upto(bs, cs, n - 1) + diff_bits(bs[n - 1], cs[n - 1])
    }
}

/// Extending the corrected list leaves the concatenation of an earlier
/// prefix alone.
proof fn lemma_data_concat_push(cs: Seq<Seq<u8>>, bi: Seq<BlockInfo>, n: int, c: Seq<u8>)
    requires
        0 <= n <= cs.len(),
    ensures
        data_concat_upto(cs.push(c), bi, n) == data_concat_upto(cs, bi, n),
    decreases n,
{
    if n > 0 {
        lemma_data_concat_push(cs, bi, n - 1, c);
        assert(cs.push(c)[n - 1] == cs[n - 1]);
    }
}

/// Extending the corrected list leaves an earlier difference sum alone.
proof fn lemma_sum_diff_push(bs: Seq<Seq<u8>>, cs: Seq<Seq<u8>>, n: int, c: Seq<u8>)
    requires
        0 <= n <= cs.len(),
    ensures
        sum_diff_upto(bs, cs.push(c), n) == sum_diff_upto(bs, cs, n),
    decreases n,
{
    if n > 0 {
        lemma_sum_diff_push(bs, cs, n - 1, c);
        assert(cs.push(c)[n - 1] == cs[n - 1]);
    }
}

/// Copy one block out of the deinterleaved buffers.
fn take_block(blocks: &Vec<Vec<u8>>, i: usize) -> (r: Vec<u8>)
    requires
        i < blocks@.len(),
    ensures
        r@ == blocks@[i as int]@,
{
    let inner: &Vec<u8> = &blocks[i];
    let mut r: Vec<u8> = Vec::new();
    let mut j: usize = 0;
    while j < inner.len()
        invariant
            j <= inner@.len(),
            r@ == inner@.take(j as int),
        decreases inner@.len() - j,
    {
        let b = inner[j];
        r.push(b);
        proof {
            assert(inner@.take(j as int).push(b) =~= inner@.take(j + 1));
        }
        j += 1;
    }
    proof {
        assert(inner@.take(inner@.len() as int) =~= inner@);
    }
    r
}

/// Decode one symbol: determine the format information, extract and
/// deinterleave the codeword blocks, correct each block, and interpret
/// the corrected data codewords; count the corrected bits on the way.
///
/// An error handed in is handed back unchanged. On success the level
/// comes from the symbol's format information, the data bit count comes
/// from the version's block structure at that level, and the text is the
/// segment-grammar reading of corrected forms of the walked codeword
/// blocks, with the error count their bit difference. For a symbol whose
/// blocks are already clean, success is owed and the text is pinned to
/// the grid outright.
#[verifier::loop_isolation(false)]
#[verifier::rlimit(100)]
pub fn qr_decode_with_info(input: Result<QRData, QRError>) -> (r: Result<
    (String, QRInfo),
    QRError,
>)
    requires
        input matches Ok(d) ==> d.wf(),
    ensures
        input matches Err(e) ==> r == Err::<(String, QRInfo), QRError>(e),
        r is Ok ==> input is Ok && r->Ok_0.1.version == input->Ok_0.version && r->Ok_0.1.total_data
            % 8 == 0,
        r is Ok ==> r->Ok_0.1.total_data == 8 * sum_data_per(
            spec_block_info(input->Ok_0.version as int, r->Ok_0.1.ec_level),
        ),
        r is Ok ==> spec_format(&input->Ok_0) is Some && r->Ok_0.1.ec_level == (spec_format(
            &input->Ok_0,
        )->0).0,
        input matches Ok(d) ==> spec_format(&d) is Some ==> {
            let (level, mask) = spec_format(&d)->0;
            spec_blocks_shape_ok(&d, level, mask as int) && spec_all_blocks_clean(
                &d,
                level,
                mask as int,
            ) ==> {
                let text = spec_segments(
                    bits_of(spec_data_codewords(&d, level, mask as int)),
                    d.version as int,
                );
                &&& (r is Ok <==> text is Some)
                &&& (r is Ok ==> r->Ok_0.0@ == text->0 && r->Ok_0.1.errors == 0)
            }
        },
        r is Ok ==> {
            let d = input->Ok_0;
            let (level, mask) = spec_format(&d)->0;
            exists|correcteds: Seq<Seq<u8>>|
                {
                    let bs = spec_blocks(&d, level, mask as int);
                    let bi = spec_block_info(d.version as int, level);
                    &&& #[trigger] correcteds.len() == bi.len()
                    &&& (forall|i: int|
                        0 <= i < bi.len() ==> rs_syndrome(#[trigger] correcteds[i], EXP8[0]) == 0
                            && correcteds[i].len() == bs[i].len() && changed_positions(
                            bs[i],
                            correcteds[i],
                        ) <= 2 * bi[i].ec_cap)
                    &&& r->Ok_0.1.errors == sum_diff_upto(bs, correcteds, bi.len() as int)
                    &&& spec_segments(
                        bits_of(data_concat_upto(correcteds, bi, bi.len() as int)),
                        d.version as int,
                    ) == Some(r->Ok_0.0@)
                }
        },
{
    let qr_data = match input {
        Ok(d) => d,
        Err(e) => {
            return Err(e);
        },
    };

    let (level, mask) = match crate::format::format(&qr_data) {
        Ok(f) => f,
        Err(e) => {
            return Err(e);
        },
    };

    let blocks = match blocks(&qr_data, &level, mask) {
        Ok(b) => b,
        Err(e) => {
            return Err(e);
        },
    };

    let bi = match block_info(qr_data.version, &level) {
        Ok(b) => b,
        Err(e) => {
            return Err(e);
        },
    };

    proof {
        lemma_total_codewords_bound();
    }

    let ghost sbs = spec_blocks(&qr_data, level, mask as int);
    let ghost clean = spec_all_blocks_clean(&qr_data, level, mask as int);
    let ghost mut correcteds: Seq<Seq<u8>> = Seq::empty();
    let mut all_blocks: Vec<u8> = Vec::new();
    let mut total_errors: u32 = 0;

    let mut i: usize = 0;
    while i < blocks.len() && i < bi.len()
        invariant
            i <= blocks@.len(),
            i <= bi@.len(),
            bi@ == spec_block_info(qr_data.version as int, level),
            all_blocks@.len() <= sum_lens(blocks@.take(i as int)),
            all_blocks@.len() == sum_data_per(bi@.take(i as int)),
            sum_lens(blocks@.take(i as int)) <= total_codewords(qr_data.version as int),
            total_errors <= 4080 * i,
            i <= sum_lens(blocks@.take(i as int)),
            correcteds.len() == i,
            forall|k: int|
                0 <= k < i ==> rs_syndrome(#[trigger] correcteds[k], EXP8[0]) == 0
                    && correcteds[k].len() == sbs[k].len() && changed_positions(
                    sbs[k],
                    correcteds[k],
                ) <= 2 * bi@[k].ec_cap,
            total_errors == sum_diff_upto(sbs, correcteds, i as int),
            all_blocks@ == data_concat_upto(correcteds, bi@, i as int),
            clean ==> total_errors == 0 && all_blocks@ == data_concat_upto(sbs, bi@, i as int),
        decreases blocks@.len() - i,
    {
        proof {
            lemma_sum_lens_take(blocks@, i as int);
            lemma_sum_lens_prefix(blocks@, i + 1);
            lemma_sum_data_take(bi@, i as int);
        }
        let block = take_block(&blocks, i);
        let binfo = bi[i];

        if !binfo.wf_exec() || block.len() != binfo.total_per as usize {
            return Err(QRError { msg: "Unexpected codeword count in a block".to_owned() });
        }

        let (corrected, error_count) = match correct_with_error_count(block, &binfo) {
            Ok(c) => c,
            Err(e) => {
                return Err(e);
            },
        };

        let ghost all0 = all_blocks@;
        let mut j: usize = 0;
        while j < binfo.data_per as usize
            invariant
                j <= binfo.data_per,
                corrected@.len() == blocks@[i as int]@.len(),
                binfo.data_per < corrected@.len(),
                all_blocks@.len() <= sum_lens(blocks@.take(i as int)) + j,
                all_blocks@.len() == sum_data_per(bi@.take(i as int)) + j,
                all_blocks@ == all0 + corrected@.take(j as int),
            decreases binfo.data_per - j,
        {
            let b = corrected[j];
            proof {
                assert((all0 + corrected@.take(j as int)).push(b) =~= all0 + corrected@.take(j + 1));
            }
            all_blocks.push(b);
            j += 1;
        }

        proof {
            lemma_data_concat_push(correcteds, bi@, i as int, corrected@);
            lemma_sum_diff_push(sbs, correcteds, i as int, corrected@);
            correcteds = correcteds.push(corrected@);
            assert(correcteds[i as int] == corrected@);
        }
        total_errors = total_errors + error_count;
        i += 1;
    }

    proof {
        lemma_sum_lens_prefix(blocks@, i as int);
        assert(bi@.take(bi@.len() as int) =~= bi@);
        assert(blocks@.take(blocks@.len() as int) =~= blocks@);
    }
    let total_data = (all_blocks.len() as u32) * 8;

    let ghost codewords = all_blocks@;
    let decoded = match data(all_blocks, qr_data.version) {
        Ok(d) => d,
        Err(e) => {
            return Err(e);
        },
    };
    proof {
        assert(spec_segments(bits_of(codewords), qr_data.version as int) == Some(decoded@));
    }

    Ok(
        (
            decoded,
            QRInfo {
                version: qr_data.version,
                ec_level: level,
                total_data,
                errors: total_errors,
            },
        ),
    )
}

/// Decode one symbol into its text alone.
///
/// An error handed in is handed back unchanged.
pub fn qr_decode(input: Result<QRData, QRError>) -> (r: Result<String, QRError>)
    requires
        input matches Ok(d) ==> d.wf(),
    ensures
        input matches Err(e) ==> r == Err::<String, QRError>(e),
        r is Ok ==> input is Ok,
        input matches Ok(d) ==> spec_format(&d) is Some ==> {
            let (level, mask) = spec_format(&d)->0;
            spec_blocks_shape_ok(&d, level, mask as int) && spec_all_blocks_clean(
                &d,
                level,
                mask as int,
            ) ==> {
                let text = spec_segments(
                    bits_of(spec_data_codewords(&d, level, mask as int)),
                    d.version as int,
                );
                &&& (r is Ok <==> text is Some)
                &&& (r is Ok ==> r->Ok_0@ == text->0)
            }
        },
        r is Ok ==> {
            let d = input->Ok_0;
            let (level, mask) = spec_format(&d)->0;
            exists|correcteds: Seq<Seq<u8>>|
                {
                    let bs = spec_blocks(&d, level, mask as int);
                    let bi = spec_block_info(d.version as int, level);
                    &&& #[trigger] correcteds.len() == bi.len()
                    &&& (forall|i: int|
                        0 <= i < bi.len() ==> rs_syndrome(#[trigger] correcteds[i], EXP8[0]) == 0
                            && correcteds[i].len() == bs[i].len() && changed_positions(
                            bs[i],
                            correcteds[i],
                        ) <= 2 * bi[i].ec_cap)
                    &&& spec_segments(
                        bits_of(data_concat_upto(correcteds, bi, bi.len() as int)),
                        d.version as int,
                    ) == Some(r->Ok_0@)
                }
        },
{
    match qr_decode_with_info(input) {
        Ok((text, info)) => {
            proof {
                let d = input->Ok_0;
                let (level, mask) = spec_format(&d)->0;
                let cw = choose|correcteds: Seq<Seq<u8>>|
                    {
                        let bs = spec_blocks(&d, level, mask as int);
                        let bi = spec_block_info(d.version as int, level);
                        &&& #[trigger] correcteds.len() == bi.len()
                        &&& (forall|i: int|
                            0 <= i < bi.len() ==> rs_syndrome(#[trigger] correcteds[i], EXP8[0])
                                == 0 && correcteds[i].len() == bs[i].len() && changed_positions(
                                bs[i],
                                correcteds[i],
                            ) <= 2 * bi[i].ec_cap)
                        &&& info.errors == sum_diff_upto(bs, correcteds, bi.len() as int)
                        &&& spec_segments(
                            bits_of(data_concat_upto(correcteds, bi, bi.len() as int)),
                            d.version as int,
                        ) == Some(text@)
                    };
                assert(cw.len() == spec_block_info(d.version as int, level).len());
            }
            Ok(text)
        },
        Err(e) => Err(e),
    }
}

/// Decode a QR symbol into a resulting String.
///
/// This decoder will, in order:
/// * Determine QR format information
/// * Extract the interleaved blocks of codewords
/// * Perform error correction
/// * Decode the blocks into a String
pub struct QRDecoder {}

impl QRDecoder {
    /// Construct a new QRDecoder
    pub fn new() -> (r: QRDecoder)
        ensures
            r == (QRDecoder {  }),
    {
        QRDecoder {  }
    }
}

impl Decode<QRData, String, QRError> for QRDecoder {
    fn decode(&self, data: Result<QRData, QRError>) -> Result<String, QRError> {
        if match &data {
            Ok(d) => d.wf_exec(),
            Err(_) => true,
        } {
            qr_decode(data)
        } else {
            Err(QRError { msg: "Malformed module grid".to_owned() })
        }
    }
}

/// Decode a QR symbol into a resulting String, together with information
/// about the decoded symbol.
pub struct QRDecoderWithInfo {}

impl QRDecoderWithInfo {
    /// Construct a new QRDecoder
    pub fn new() -> (r: QRDecoderWithInfo)
        ensures
            r == (QRDecoderWithInfo {  }),
    {
        QRDecoderWithInfo {  }
    }
}

impl Decode<QRData, (String, QRInfo), QRError> for QRDecoderWithInfo {
    fn decode(&self, data: Result<QRData, QRError>) -> Result<(String, QRInfo), QRError> {
        if match &data {
            Ok(d) => d.wf_exec(),
            Err(_) => true,
        } {
            qr_decode_with_info(data)
        } else {
            Err(QRError { msg: "Malformed module grid".to_owned() })
        }
    }
}

} // verus!
