//! Format information of a QR symbol: reading the two 15-bit copies,
//! BCH-correcting them, and interpreting level and mask.

use crate::galois::{gf4_add, gf4_div, gf4_mul, lemma_gf4_table_bounds, EXP4, GF4, LOG4};
use crate::qr::{ECLevel, QRData, QRError};
use vstd::prelude::*;

verus! {

/// The fixed mask that the 15 format bits are XOR-ed with.
pub const MASK: [u8; 15] = [1, 0, 1, 0, 1, 0, 0, 0, 0, 0, 1, 0, 0, 1, 0];

/// Term `i` of a BCH syndrome over GF(2^4): the bit `i` positions from the
/// back of the word, times the generator raised to `k * i`.
pub open spec fn bch_term(s: Seq<u8>, k: int, i: int) -> u8 {
    gf4_mul(s[s.len() - 1 - i], EXP4[(k * i) % 15])
}

/// The first `n` terms of a BCH syndrome over GF(2^4).
pub open spec fn bch_syn_upto(s: Seq<u8>, k: int, n: int) -> u8
    decreases n,
{
    if n <= 0 {
        0
    } else {
        gf4_add(bch_syn_upto(s, k, n - 1), bch_term(s, k, n - 1))
    }
}

/// BCH syndrome of a word over GF(2^4) at the generator raised to `k`.
pub open spec fn bch_syndrome(s: Seq<u8>, k: int) -> u8 {
    bch_syn_upto(s, k, s.len() as int)
}

/// Value of the error locator polynomial at `x`, as the corrector forms
/// it: `sigma3 + sigma2 x + sigma1 x^2 + x^3` over GF(2^4).
pub open spec fn bch_locator_at(sigma1: u8, sigma2: u8, sigma3: u8, x: u8) -> u8 {
    gf4_add(
        gf4_add(gf4_add(sigma3, gf4_mul(sigma2, x)), gf4_mul(gf4_mul(sigma1, x), x)),
        gf4_mul(gf4_mul(x, x), x),
    )
}

/// The error positions the corrector collects from the first `n` field
/// elements: the logarithms of the nonzero locator roots, in order.
pub open spec fn bch_err_positions(sigma1: u8, sigma2: u8, sigma3: u8, n: int) -> Seq<u8>
    decreases n,
{
    if n <= 0 {
        Seq::empty()
    } else {
        let prev = bch_err_positions(sigma1, sigma2, sigma3, n - 1);
        let x = (n - 1) as u8;
        if bch_locator_at(sigma1, sigma2, sigma3, x) == 0 && LOG4[x as int] != 0 {
            prev.push(LOG4[x as int])
        } else {
            prev
        }
    }
}

/// The word after the first `n` collected error positions are flipped,
/// each position counted from the back of the word.
pub open spec fn bch_flips_upto(w: Seq<u8>, errs: Seq<u8>, n: int) -> Seq<u8>
    decreases n,
{
    if n <= 0 {
        w
    } else {
        let prev = bch_flips_upto(w, errs, n - 1);
        let idx = w.len() - errs[n - 1] - 1;
        prev.update(idx as int, prev[idx as int] ^ 1)
    }
}

/// The closed-form BCH corrector, as a function of the word: a clean
/// word stands; otherwise the error locator is fitted from the
/// syndromes, its nonzero roots are flipped, and the result stands only
/// when its first syndrome has become zero.
pub open spec fn spec_bch_correct(w: Seq<u8>) -> Option<Seq<u8>> {
    let s1 = bch_syndrome(w, 1);
    if s1 == 0 {
        Some(w)
    } else {
        let s2 = gf4_mul(s1, s1);
        let s4 = gf4_mul(s2, s2);
        let s3 = bch_syndrome(w, 3);
        let s5 = bch_syndrome(w, 5);
        let sigma1 = s1;
        let sigma2 = gf4_div(
            gf4_add(gf4_add(s5, gf4_mul(s4, sigma1)), gf4_mul(s2, gf4_add(s3, gf4_mul(s2, sigma1)))),
            gf4_add(s3, gf4_mul(s1, s2)),
        );
        let sigma3 = gf4_add(gf4_add(s3, gf4_mul(s2, sigma1)), gf4_mul(s1, sigma2));
        let errs = bch_err_positions(sigma1, sigma2, sigma3, 16);
        let fixed = bch_flips_upto(w, errs, errs.len() as int);
        if bch_syndrome(fixed, 1) == 0 {
            Some(fixed)
        } else {
            None
        }
    }
}

/// A sequence of bits: every entry 0 or 1.
pub open spec fn all_bits(s: Seq<u8>) -> bool {
    forall|i: int| 0 <= i < s.len() ==> s[i] <= 1
}

/// Bit `j` of format copy A before unmasking, read along row 8 skipping
/// the timing column, then down column 8 skipping the timing row.
pub open spec fn copy_a_bit(d: &QRData, j: int) -> u8 {
    if j < 6 {
        d.bit_at(j, 8)
    } else if j < 8 {
        d.bit_at(j + 1, 8)
    } else if j == 8 {
        d.bit_at(8, 7)
    } else {
        d.bit_at(8, 14 - j)
    }
}

/// Format copy A with the fixed mask applied.
pub open spec fn copy_a_masked(d: &QRData) -> Seq<u8> {
    Seq::new(15, |j: int| copy_a_bit(d, j) ^ MASK[j])
}

/// Bit `j` of format copy B before unmasking, read up column 8 from the
/// bottom edge, then along row 8 to the right edge.
pub open spec fn copy_b_bit(d: &QRData, j: int) -> u8 {
    if j < 7 {
        d.bit_at(8, d.side - 1 - j)
    } else {
        d.bit_at(d.side - 15 + j, 8)
    }
}

/// Format copy B with the fixed mask applied.
pub open spec fn copy_b_masked(d: &QRData) -> Seq<u8> {
    Seq::new(15, |j: int| copy_b_bit(d, j) ^ MASK[j])
}

/// The error correction level a corrected format word names in its two
/// high bits.
pub open spec fn format_level(w: Seq<u8>) -> ECLevel {
    let v = 2 * w[0] + w[1];
    if v == 1 {
        ECLevel::LOW
    } else if v == 0 {
        ECLevel::MEDIUM
    } else if v == 3 {
        ECLevel::QUARTILE
    } else {
        ECLevel::HIGH
    }
}

/// The mask id a corrected format word names in its next three bits.
pub open spec fn format_mask_id(w: Seq<u8>) -> u8 {
    (4 * w[2] + 2 * w[3] + w[4]) as u8
}

/// Level and mask id of a corrected format word.
pub open spec fn format_interp(w: Seq<u8>) -> (ECLevel, u8) {
    (format_level(w), format_mask_id(w))
}

/// The format information of a symbol: the interpretation of whichever
/// of the two masked copies the corrector accepts, copy A tried first.
pub open spec fn spec_format(d: &QRData) -> Option<(ECLevel, u8)> {
    match spec_bch_correct(copy_a_masked(d)) {
        Some(w) => Some(format_interp(w)),
        None => match spec_bch_correct(copy_b_masked(d)) {
            Some(w) => Some(format_interp(w)),
            None => None,
        },
    }
}

/// BCH syndrome of a bit word at the generator raised to `k`.
fn syndrome4(word: &Vec<u8>, k: u32) -> (r: GF4)
    requires
        all_bits(word@),
        word@.len() <= 15,
        1 <= k <= 5,
    ensures
        r.0 == bch_syndrome(word@, k as int),
        r.0 < 16,
{
    let mut s = GF4(0);
    let mut i: usize = 0;
    let mut ki: u32 = 0;
    proof {
        lemma_gf4_table_bounds();
    }
    while i < word.len()
        invariant
            all_bits(word@),
            word@.len() <= 15,
            1 <= k <= 5,
            i <= word.len(),
            ki == k * i,
            s.0 == bch_syn_upto(word@, k as int, i as int),
            s.0 < 16,
            forall|j: int| 0 <= j < 16 ==> EXP4[j] < 16,
        decreases word.len() - i,
    {
        let term = GF4(word[word.len() - 1 - i]).mul(GF4(EXP4[(ki % 15) as usize]));
        s = s.add(term);
        proof {
            vstd::arithmetic::mul::lemma_mul_is_distributive_add(k as int, i as int, 1);
            vstd::arithmetic::mul::lemma_mul_basics(k as int);
            assert(k * (i + 1) == k * i + k);
            assert(ki + k <= 80) by (nonlinear_arith)
                requires
                    ki == k * i,
                    1 <= k <= 5,
                    i < 15,
            ;
        }
        ki = ki + k;
        i = i + 1;
    }
    s
}

/// BCH-correct a 15-bit format word in place.
///
/// The result is exactly what the closed-form corrector assigns to the
/// word: a word whose first syndrome is zero comes back unchanged, and
/// otherwise the fitted locator's roots are flipped and the result
/// stands only if its first syndrome has become zero. That every word
/// within three flips of a codeword comes back as that codeword is a
/// property of the BCH(15,5) code that this contract does not state; the
/// tests exercise it on concrete words.
pub fn correct(format: Vec<u8>) -> (r: Result<Vec<u8>, QRError>)
    requires
        format@.len() == 15,
        all_bits(format@),
    ensures
        bch_syndrome(format@, 1) == 0 ==> r == Ok::<Vec<u8>, QRError>(format),
        r is Ok <==> spec_bch_correct(format@) is Some,
        r is Ok ==> r->Ok_0@ == spec_bch_correct(format@)->0,
        r is Ok ==> {
            &&& r->Ok_0@.len() == 15
            &&& all_bits(r->Ok_0@)
            &&& bch_syndrome(r->Ok_0@, 1) == 0
        },
        r is Err ==> bch_syndrome(format@, 1) != 0,
{
    let ghost w0 = format@;
    let mut format = format;
    proof {
        lemma_gf4_table_bounds();
    }
    let s1 = syndrome4(&format, 1);

    if s1.0 == 0 {
        // syndrome == 0, no error detected
        return Ok(format);
    }

    let s2 = s1.mul(s1);
    let s4 = s2.mul(s2);
    let s3 = syndrome4(&format, 3);
    let s5 = syndrome4(&format, 5);

    let sigma1 = s1;
    let sigma2 = (s5.add(s4.mul(sigma1))).sub(s2.mul(s3.add(s2.mul(sigma1)))).div(
        s3.sub(s1.mul(s2)),
    );
    let sigma3 = s3.add(s2.mul(sigma1)).add(s1.mul(sigma2));

    let mut error_pos: Vec<u8> = Vec::new();

    let mut i: u8 = 0;
    while i < 16
        invariant
            i <= 16,
            sigma1.0 < 16,
            sigma2.0 < 16,
            sigma3.0 < 16,
            error_pos@ == bch_err_positions(sigma1.0, sigma2.0, sigma3.0, i as int),
            forall|j: int| 0 <= j < error_pos@.len() ==> 1 <= #[trigger] error_pos@[j] < 15,
        decreases 16 - i,
    {
        proof {
            lemma_gf4_table_bounds();
        }
        let x = GF4(i);
        let check = sigma3.add(sigma2.mul(x)).add(sigma1.mul(x).mul(x)).add(x.mul(x).mul(x));
        proof {
            assert(check.0 == bch_locator_at(sigma1.0, sigma2.0, sigma3.0, i));
        }
        if check.0 == 0 {
            let log = LOG4[i as usize];
            if log != 0 {
                error_pos.push(log);
            }
        }
        i += 1;
    }

    let mut e: usize = 0;
    while e < error_pos.len()
        invariant
            e <= error_pos@.len(),
            format@.len() == 15,
            w0.len() == 15,
            all_bits(format@),
            format@ == bch_flips_upto(w0, error_pos@, e as int),
            forall|j: int| 0 <= j < error_pos@.len() ==> 1 <= #[trigger] error_pos@[j] < 15,
        decreases error_pos.len() - e,
    {
        let error = error_pos[e];
        let len = format.len();
        let idx = len - error as usize - 1;
        let flipped = format[idx] ^ 1;
        proof {
            let fb: u8 = format@[idx as int];
            assert(fb <= 1);
            assert(fb ^ 1 <= 1) by (bit_vector)
                requires
                    fb <= 1,
            ;
            assert(flipped == fb ^ 1);
        }
        format.set(idx, flipped);
        e += 1;
    }

    proof {
        let ss1 = bch_syndrome(w0, 1);
        let ss2 = gf4_mul(ss1, ss1);
        let ss4 = gf4_mul(ss2, ss2);
        let ss3 = bch_syndrome(w0, 3);
        let ss5 = bch_syndrome(w0, 5);
        assert(sigma1.0 == ss1 && s2.0 == ss2 && s4.0 == ss4 && s3.0 == ss3 && s5.0 == ss5);
        let sg2 = gf4_div(
            gf4_add(
                gf4_add(ss5, gf4_mul(ss4, ss1)),
                gf4_mul(ss2, gf4_add(ss3, gf4_mul(ss2, ss1))),
            ),
            gf4_add(ss3, gf4_mul(ss1, ss2)),
        );
        assert(sigma2.0 == sg2);
        let sg3 = gf4_add(gf4_add(ss3, gf4_mul(ss2, ss1)), gf4_mul(ss1, sg2));
        assert(sigma3.0 == sg3);
        assert(error_pos@ == bch_err_positions(ss1, sg2, sg3, 16));
        assert(format@ == bch_flips_upto(w0, error_pos@, error_pos@.len() as int));
    }
    let s1 = syndrome4(&format, 1);

    if s1.0 == 0 {
        // syndrome == 0, no remaining error detected
        proof {
            assert(spec_bch_correct(w0) == Some(format@));
        }
        return Ok(format);
    }

    proof {
        assert(spec_bch_correct(w0) is None);
    }
    Err(QRError { msg: "Format information corrupted".to_owned() })
}


/// Read format copy A from the grid, masked.
fn format1(data: &QRData) -> (r: Result<Vec<u8>, QRError>)
    requires
        data.wf(),
    ensures
        r is Ok <==> spec_bch_correct(copy_a_masked(data)) is Some,
        r is Ok ==> r->Ok_0@ == spec_bch_correct(copy_a_masked(data))->0,
        r is Ok ==> {
            &&& r->Ok_0@.len() == 15
            &&& all_bits(r->Ok_0@)
            &&& bch_syndrome(r->Ok_0@, 1) == 0
        },
{
    let mut format1: Vec<u8> = Vec::new();

    let mut x: u32 = 0;
    while x < 9
        invariant
            data.wf(),
            x <= 9,
            format1@.len() == if x <= 6 {
                x as int
            } else {
                x - 1
            },
            forall|j: int| 0 <= j < format1@.len() ==> (#[trigger] format1@[j]) == copy_a_bit(
                data,
                j,
            ),
        decreases 9 - x,
    {
        if x != 6 {
            format1.push(data.index(x, 8));
        }
        x += 1;
    }

    let mut y: u32 = 8;
    while y > 0
        invariant
            data.wf(),
            y <= 8,
            format1@.len() == if y >= 7 {
                16 - y
            } else {
                15 - y
            },
            forall|j: int| 0 <= j < format1@.len() ==> (#[trigger] format1@[j]) == copy_a_bit(
                data,
                j,
            ),
        decreases y,
    {
        y -= 1;
        if y != 6 {
            format1.push(data.index(8, y));
        }
    }

    proof {
        assert(forall|j: int| 0 <= j < 15 ==> #[trigger] format1@[j] <= 1);
    }
    apply_mask_and_correct(format1, Ghost(copy_a_masked(data)))
}

/// Read format copy B from the grid, masked.
fn format2(data: &QRData) -> (r: Result<Vec<u8>, QRError>)
    requires
        data.wf(),
    ensures
        r is Ok <==> spec_bch_correct(copy_b_masked(data)) is Some,
        r is Ok ==> r->Ok_0@ == spec_bch_correct(copy_b_masked(data))->0,
        r is Ok ==> {
            &&& r->Ok_0@.len() == 15
            &&& all_bits(r->Ok_0@)
            &&& bch_syndrome(r->Ok_0@, 1) == 0
        },
{
    let mut format2: Vec<u8> = Vec::new();

    let mut j: u32 = 0;
    while j < 7
        invariant
            data.wf(),
            j <= 7,
            format2@.len() == j,
            forall|k: int| 0 <= k < format2@.len() ==> (#[trigger] format2@[k]) == copy_b_bit(
                data,
                k,
            ),
        decreases 7 - j,
    {
        format2.push(data.index(8, data.side - 1 - j));
        j += 1;
    }

    let mut x: u32 = data.side - 8;
    while x < data.side
        invariant
            data.wf(),
            data.side - 8 <= x <= data.side,
            format2@.len() == x - (data.side - 15),
            forall|k: int| 0 <= k < format2@.len() ==> (#[trigger] format2@[k]) == copy_b_bit(
                data,
                k,
            ),
        decreases data.side - x,
    {
        format2.push(data.index(x, 8));
        x += 1;
    }

    proof {
        assert(forall|j: int| 0 <= j < 15 ==> #[trigger] format2@[j] <= 1);
    }
    apply_mask_and_correct(format2, Ghost(copy_b_masked(data)))
}

/// XOR the fixed mask over a freshly read format word, then correct it.
fn apply_mask_and_correct(word: Vec<u8>, expected: Ghost<Seq<u8>>) -> (r: Result<Vec<u8>, QRError>)
    requires
        word@.len() == 15,
        all_bits(word@),
        expected@.len() == 15,
        forall|j: int| 0 <= j < 15 ==> expected@[j] == word@[j] ^ MASK[j],
    ensures
        r is Ok <==> spec_bch_correct(expected@) is Some,
        r is Ok ==> r->Ok_0@ == spec_bch_correct(expected@)->0,
        r is Ok ==> {
            &&& r->Ok_0@.len() == 15
            &&& all_bits(r->Ok_0@)
            &&& bch_syndrome(r->Ok_0@, 1) == 0
        },
{
    let mut word = word;
    let mut i: usize = 0;
    while i < 15
        invariant
            word@.len() == 15,
            i <= 15,
            forall|j: int|
                0 <= j < i ==> (#[trigger] word@[j]) == expected@[j] && word@[j] <= 1,
            forall|j: int|
                i <= j < 15 ==> (#[trigger] word@[j]) <= 1 && expected@[j] == word@[j] ^ MASK[j],
        decreases 15 - i,
    {
        let masked = word[i] ^ MASK[i];
        proof {
            assert(forall|j: int| 0 <= j < 15 ==> MASK[j] <= 1);
            let wb: u8 = word@[i as int];
            let mb: u8 = MASK[i as int];
            assert(wb <= 1 && mb <= 1);
            assert(wb ^ mb <= 1) by (bit_vector)
                requires
                    wb <= 1,
                    mb <= 1,
            ;
            assert(masked == wb ^ mb);
        }
        word.set(i, masked);
        i += 1;
    }
    proof {
        assert(word@ =~= expected@);
    }
    correct(word)
}

/// The level named by two format bits, as the standard maps them.
fn error_correction(bytes: u8) -> (r: Option<ECLevel>)
    ensures
        bytes == 0b01 ==> r == Some(ECLevel::LOW),
        bytes == 0b00 ==> r == Some(ECLevel::MEDIUM),
        bytes == 0b11 ==> r == Some(ECLevel::QUARTILE),
        bytes == 0b10 ==> r == Some(ECLevel::HIGH),
        bytes > 3 ==> r is None,
{
    match bytes {
        0b01 => Some(ECLevel::LOW),
        0b00 => Some(ECLevel::MEDIUM),
        0b11 => Some(ECLevel::QUARTILE),
        0b10 => Some(ECLevel::HIGH),
        _ => None,
    }
}

/// The mask id named by three format bits; ids above 7 name no mask.
fn mask(bytes: u8) -> (r: Option<u8>)
    ensures
        bytes < 8 ==> r == Some(bytes),
        bytes >= 8 ==> r is None,
{
    if bytes < 8 {
        Some(bytes)
    } else {
        None
    }
}

/// Determine the level and mask id of the symbol from its format
/// information, trying copy A first and copy B second.
pub fn format(data: &QRData) -> (r: Result<(ECLevel, u8), QRError>)
    requires
        data.wf(),
    ensures
        r is Ok <==> spec_format(data) is Some,
        r is Ok ==> r->Ok_0 == spec_format(data)->0,
        r is Ok ==> r->Ok_0.1 < 8,
{
    let mut format = format1(data);

    if format.is_err() {
        format = format2(data);
    }

    let format = match format {
        Ok(f) => f,
        Err(e) => {
            return Err(e);
        },
    };

    let correction = match error_correction(2 * format[0] + format[1]) {
        Some(c) => c,
        None => {
            return Err(QRError { msg: "Invalid error correction level".to_owned() });
        },
    };
    let mask_id = match mask(4 * format[2] + 2 * format[3] + format[4]) {
        Some(m) => m,
        None => {
            return Err(QRError { msg: "Invalid mask id".to_owned() });
        },
    };

    proof {
        assert((correction, mask_id) == format_interp(format@));
    }
    Ok((correction, mask_id))
}

/// The mask predicate of a mask id, over module column `x` and row `y`.
pub open spec fn mask_bit(mask: int, x: int, y: int) -> bool {
    if mask == 0 {
        (x + y) % 2 == 0
    } else if mask == 1 {
        y % 2 == 0
    } else if mask == 2 {
        x % 3 == 0
    } else if mask == 3 {
        (x + y) % 3 == 0
    } else if mask == 4 {
        (y / 2 + x / 3) % 2 == 0
    } else if mask == 5 {
        (x * y) % 2 + (x * y) % 3 == 0
    } else if mask == 6 {
        ((x * y) % 2 + (x * y) % 3) % 2 == 0
    } else {
        ((x * y) % 3 + (x + y) % 2) % 2 == 0
    }
}

/// The module bit at `(x, y)` with the mask pattern taken back out.
pub open spec fn unmasked_bit(d: &QRData, mask: int, x: int, y: int) -> u8 {
    d.bit_at(x, y) ^ (if mask_bit(mask, x, y) {
        1u8
    } else {
        0u8
    })
}

/// Read the module at `(x, y)` and XOR the mask pattern back out.
pub fn qrmask(q: &QRData, mask: u8, x: u32, y: u32) -> (r: u8)
    requires
        q.wf(),
        mask < 8,
        x < q.side,
        y < q.side,
    ensures
        r == unmasked_bit(q, mask as int, x as int, y as int),
        r <= 1,
{
    proof {
        assert(x * y <= 31329 && (x + y) <= 354) by (nonlinear_arith)
            requires
                x < 178,
                y < 178,
        ;
    }
    let m: bool = if mask == 0 {
        (x + y) % 2 == 0
    } else if mask == 1 {
        y % 2 == 0
    } else if mask == 2 {
        x % 3 == 0
    } else if mask == 3 {
        (x + y) % 3 == 0
    } else if mask == 4 {
        (y / 2 + x / 3) % 2 == 0
    } else if mask == 5 {
        (x * y) % 2 + (x * y) % 3 == 0
    } else if mask == 6 {
        ((x * y) % 2 + (x * y) % 3) % 2 == 0
    } else {
        ((x * y) % 3 + (x + y) % 2) % 2 == 0
    };
    let d = q.index(x, y);
    let r = d ^ if m {
        1u8
    } else {
        0u8
    };
    proof {
        let db: u8 = d;
        assert(db ^ 1u8 <= 1 && db ^ 0u8 == db) by (bit_vector)
            requires
                db <= 1,
        ;
    }
    r
}

} // verus!
