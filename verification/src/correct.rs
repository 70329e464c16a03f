//! Reed-Solomon error correction of one codeword block over GF(2^8).

use crate::blockinfo::BlockInfo;
use crate::galois::{gf8_add, gf8_div, gf8_mul, EXP8, GF8};
use crate::qr::QRError;
use vstd::prelude::*;

verus! {

/// The generator raised to the power `n` in GF(2^8).
pub open spec fn gf8_pow(base: u8, n: int) -> u8
    decreases n,
{
    if n <= 0 {
        1
    } else {
        gf8_mul(gf8_pow(base, n - 1), base)
    }
}

/// The first `n` terms of a Reed-Solomon syndrome: codewords taken from
/// the back of the block, each weighted by a growing power of the base.
pub open spec fn rs_syn_upto(block: Seq<u8>, base: u8, n: int) -> u8
    decreases n,
{
    if n <= 0 {
        0
    } else {
        gf8_add(
            rs_syn_upto(block, base, n - 1),
            gf8_mul(gf8_pow(base, n - 1), block[block.len() - n]),
        )
    }
}

/// Reed-Solomon syndrome of a block at the given base.
pub open spec fn rs_syndrome(block: Seq<u8>, base: u8) -> u8 {
    rs_syn_upto(block, base, block.len() as int)
}

/// All `2 * ec_cap` syndromes of the block are zero.
pub open spec fn syndromes_clean(block: Seq<u8>, ec_cap: int) -> bool {
    forall|i: int| 0 <= i < 2 * ec_cap ==> rs_syndrome(block, EXP8[i]) == 0
}

/// The number of one bits in a byte.
pub open spec fn spec_pop_count(b: u8, n: int) -> int
    decreases n,
{
    if n <= 0 {
        0
    } else {
        spec_pop_count(b, n - 1) + if b >> ((n - 1) as u8) & 1 == 1 {
            1int
        } else {
            0int
        }
    }
}

/// Every byte holds between zero and eight one bits.
proof fn lemma_pop_count_bound(b: u8, n: int)
    ensures
        0 <= spec_pop_count(b, n) <= (if n <= 0 {
            0int
        } else {
            n
        }),
    decreases n,
{
    if n > 0 {
        lemma_pop_count_bound(b, n - 1);
    }
}

/// The zero byte holds no one bits.
proof fn lemma_pop_count_zero(n: int)
    ensures
        spec_pop_count(0, n) == 0,
    decreases n,
{
    if n > 0 {
        lemma_pop_count_zero(n - 1);
        let nb: u8 = (n - 1) as u8;
        assert(0u8 >> nb & 1 != 1) by (bit_vector);
    }
}

/// Number of one bits in which two equal-length byte sequences differ.
pub open spec fn diff_bits(a: Seq<u8>, b: Seq<u8>) -> int
    decreases a.len(),
{
    if a.len() == 0 {
        0
    } else {
        diff_bits(a.drop_last(), b.drop_last()) + spec_pop_count(a.last() ^ b.last(), 8)
    }
}

/// Number of positions at which two equal-length byte sequences differ.
pub open spec fn changed_positions(a: Seq<u8>, b: Seq<u8>) -> int
    decreases a.len(),
{
    if a.len() == 0 {
        0
    } else {
        changed_positions(a.drop_last(), b.drop_last()) + (if a.last() == b.last() {
            0int
        } else {
            1int
        })
    }
}

/// A sequence differs from itself in no bit and no position.
pub proof fn lemma_diff_self(a: Seq<u8>)
    ensures
        diff_bits(a, a) == 0,
        changed_positions(a, a) == 0,
    decreases a.len(),
{
    if a.len() > 0 {
        lemma_diff_self(a.drop_last());
        let x = a.last();
        assert(x ^ x == 0) by (bit_vector);
        lemma_pop_count_zero(8);
    }
}

/// Changing one entry moves the difference counts by exactly that
/// entry's contribution.
proof fn lemma_diff_update(a: Seq<u8>, b: Seq<u8>, idx: int, v: u8)
    requires
        a.len() == b.len(),
        0 <= idx < b.len(),
    ensures
        diff_bits(a, b.update(idx, v)) == diff_bits(a, b) - spec_pop_count(a[idx] ^ b[idx], 8)
            + spec_pop_count(a[idx] ^ v, 8),
        changed_positions(a, b.update(idx, v)) == changed_positions(a, b) - (if a[idx] == b[idx] {
            0int
        } else {
            1int
        }) + (if a[idx] == v {
            0int
        } else {
            1int
        }),
    decreases a.len(),
{
    if idx == a.len() - 1 {
        assert(b.update(idx, v).drop_last() =~= b.drop_last());
        assert(b.update(idx, v).last() == v);
    } else {
        assert(b.update(idx, v).drop_last() =~= b.drop_last().update(idx, v));
        assert(b.update(idx, v).last() == b.last());
        lemma_diff_update(a.drop_last(), b.drop_last(), idx, v);
    }
}

/// Count the one bits of a byte.
fn pop_count(b: u8) -> (r: u32)
    ensures
        r == spec_pop_count(b, 8),
        r <= 8,
{
    let mut r: u32 = 0;
    let mut n: u32 = 0;
    while n < 8
        invariant
            n <= 8,
            r == spec_pop_count(b, n as int),
            r <= n,
        decreases 8 - n,
    {
        if (b >> n as u8) & 1 == 1 {
            r += 1;
        }
        n += 1;
    }
    r
}

/// Reed-Solomon syndrome of a block at the given base.
fn syndrome(block: &Vec<u8>, base: GF8) -> (r: GF8)
    ensures
        r.0 == rs_syndrome(block@, base.0),
{
    let mut synd = GF8(0);
    let mut alpha = GF8(1);

    let mut i: usize = 0;
    while i < block.len()
        invariant
            i <= block@.len(),
            synd.0 == rs_syn_upto(block@, base.0, i as int),
            alpha.0 == gf8_pow(base.0, i as int),
        decreases block@.len() - i,
    {
        let codeword = block[block.len() - 1 - i];
        synd = synd.add(alpha.mul(GF8(codeword)));
        alpha = alpha.mul(base);
        i += 1;
    }

    synd
}


/// Row `i` normalised: every entry from the pivot column on divided by
/// the row's original pivot.
pub open spec fn norm_row(row: Seq<GF8>, i: int) -> Seq<GF8> {
    Seq::new(row.len(), |k: int| if k >= i {
        GF8(gf8_div(row[k].0, row[i].0))
    } else {
        row[k]
    })
}

/// Row `j` with the normalised row `i`, scaled by row `j`'s own leading
/// coefficient, taken out from the pivot column on.
pub open spec fn elim_row(rowj: Seq<GF8>, rowi: Seq<GF8>, i: int) -> Seq<GF8> {
    Seq::new(rowj.len(), |k: int| if k >= i {
        GF8(gf8_add(rowj[k].0, gf8_mul(rowj[i].0, rowi[k].0)))
    } else {
        rowj[k]
    })
}

/// Forward elimination from row `i` on; when asked to, a pivot row
/// reduced to a bare right-hand side stops it.
pub open spec fn spec_gauss(eq: Seq<Seq<GF8>>, i: int, one: GF8, fail_on_rank: bool) -> Option<
    Seq<Seq<GF8>>,
>
    decreases eq.len() - i,
{
    if i < 0 || i >= eq.len() {
        Some(eq)
    } else {
        let eq1 = eq.update(i, norm_row(eq[i], i));
        let eq2 = Seq::new(eq1.len(), |j: int| if j > i {
            elim_row(eq1[j], eq1[i], i)
        } else {
            eq1[j]
        });
        if fail_on_rank && eq2[i][eq2[i].len() - 1].0 == one.0 {
            None
        } else {
            spec_gauss(eq2, i + 1, one, fail_on_rank)
        }
    }
}

/// The running value of one back substitution row after the solved
/// entries before column `j` are taken out.
pub open spec fn back_val(row: Seq<GF8>, sol: Seq<GF8>, i: int, j: int) -> u8
    decreases j - i,
{
    if j <= i + 1 {
        row[row.len() - 1].0
    } else {
        gf8_add(back_val(row, sol, i, j - 1), gf8_mul(row[j - 1].0, sol[j - 1].0))
    }
}

/// The solution entries from row `i` down, computed bottom row first.
pub open spec fn back_partial(eq: Seq<Seq<GF8>>, init: Seq<GF8>, i: int) -> Seq<GF8>
    decreases eq.len() - i,
{
    if i < 0 || i >= eq.len() {
        init
    } else {
        let prev = back_partial(eq, init, i + 1);
        prev.update(i, GF8(back_val(eq[i], prev, i, eq[i].len() - 1)))
    }
}

/// The Gaussian solver as a function of its system: forward elimination,
/// then back substitution over the reduced rows.
pub open spec fn spec_solve(eq: Seq<Seq<GF8>>, zero: GF8, one: GF8, fail_on_rank: bool) -> Option<
    Seq<GF8>,
> {
    if eq.len() == 0 {
        None
    } else {
        match spec_gauss(eq, 0, one, fail_on_rank) {
            None => None,
            Some(eq2) => Some(
                back_partial(eq2, Seq::new(eq.len(), |k: int| zero), 0),
            ),
        }
    }
}

/// The rows of a matrix of field elements, as sequences.
spec fn mat_view(eq: &Vec<Vec<GF8>>) -> Seq<Seq<GF8>> {
    Seq::new(eq@.len() as nat, |i: int| eq@[i]@)
}

/// Solve a linear system over GF(2^8) by Gaussian elimination; each row
/// holds the coefficients and, last, the right-hand side. When asked to,
/// fail on the rank-deficiency signal of a pivot row reduced to a bare
/// right-hand side; the result is exactly what the elimination assigns
/// to the system.
#[verifier::rlimit(100)]
fn solve(eq: Vec<Vec<GF8>>, zero: GF8, one: GF8, fail_on_rank: bool) -> (r: Option<Vec<GF8>>)
    requires
        forall|i: int| 0 <= i < eq@.len() ==> (#[trigger] eq@[i])@.len() == eq@.len() + 1,
    ensures
        r is Some ==> r->0@.len() == eq@.len(),
        r is Some <==> spec_solve(mat_view(&eq), zero, one, fail_on_rank) is Some,
        r is Some ==> r->0@ == spec_solve(mat_view(&eq), zero, one, fail_on_rank)->0,
{
    let ghost eq0 = mat_view(&eq);
    let mut eq = eq;
    let num_eq = eq.len();
    if num_eq == 0 {
        return None;
    }

    let num_coeff = eq[0].len();

    let mut failed = false;
    let mut i: usize = 0;
    while i < num_eq
        invariant
            eq@.len() == num_eq,
            num_coeff == num_eq + 1,
            i <= num_eq,
            forall|k: int| 0 <= k < eq@.len() ==> (#[trigger] eq@[k])@.len() == num_coeff,
            !failed ==> spec_gauss(eq0, 0, one, fail_on_rank) == spec_gauss(
                mat_view(&eq),
                i as int,
                one,
                fail_on_rank,
            ),
            failed ==> spec_gauss(eq0, 0, one, fail_on_rank) is None,
        decreases num_eq - i,
    {
        let ghost eq_head = mat_view(&eq);

        // normalise the row: divide it by its first nonzero coefficient,
        // which afterwards reads one
        let mut row = eq.remove(i);
        let ghost orig_row = row@;
        let mut j: usize = num_coeff;
        while j > i
            invariant
                row@.len() == num_coeff,
                i < num_coeff,
                i <= j <= num_coeff,
                forall|k: int|
                    0 <= k < row@.len() ==> (#[trigger] row@[k]) == (if k >= j {
                        GF8(gf8_div(orig_row[k].0, orig_row[i as int].0))
                    } else {
                        orig_row[k]
                    }),
            decreases j,
        {
            j -= 1;
            let v = row[j].div(row[i]);
            row.set(j, v);
        }
        proof {
            assert(row@ =~= norm_row(orig_row, i as int));
        }
        eq.insert(i, row);
        proof {
            assert(mat_view(&eq) =~~= eq_head.update(i as int, norm_row(eq_head[i as int], i as int)));
        }
        let ghost eq1 = mat_view(&eq);

        // subtract the normalised row from the ones below, scaled by their
        // leading coefficient, so their column `i` reads zero
        let mut j: usize = i + 1;
        while j < num_eq
            invariant
                eq@.len() == num_eq,
                num_coeff == num_eq + 1,
                i < j,
                j <= num_eq,
                forall|k: int| 0 <= k < eq@.len() ==> (#[trigger] eq@[k])@.len() == num_coeff,
                eq1.len() == num_eq,
                forall|jj: int|
                    0 <= jj < eq@.len() ==> (#[trigger] eq@[jj])@ == (if i < jj < j {
                        elim_row(eq1[jj], eq1[i as int], i as int)
                    } else {
                        eq1[jj]
                    }),
            decreases num_eq - j,
        {
            let ghost eq_mid = eq@;
            let mut row = eq.remove(j);
            let ghost orig_rowj = row@;
            proof {
                assert(orig_rowj == eq_mid[j as int]@);
                assert(orig_rowj == eq1[j as int]);
                assert(eq@[i as int] == eq_mid[i as int]);
                assert(eq@[i as int]@ == eq1[i as int]);
            }
            let mut k: usize = num_coeff;
            while k > i
                invariant
                    row@.len() == num_coeff,
                    i < j < eq@.len() + 1,
                    eq@.len() + 1 == num_eq,
                    num_coeff == num_eq + 1,
                    i <= k <= num_coeff,
                    forall|m: int| 0 <= m < eq@.len() ==> (#[trigger] eq@[m])@.len() == num_coeff,
                    eq@[i as int]@ == eq1[i as int],
                    forall|m: int|
                        0 <= m < row@.len() ==> (#[trigger] row@[m]) == (if m >= k {
                            GF8(
                                gf8_add(
                                    orig_rowj[m].0,
                                    gf8_mul(orig_rowj[i as int].0, eq1[i as int][m].0),
                                ),
                            )
                        } else {
                            orig_rowj[m]
                        }),
                decreases k,
            {
                k -= 1;
                let v = row[k].sub(row[i].mul(eq[i][k]));
                row.set(k, v);
            }
            proof {
                assert(row@ =~= elim_row(orig_rowj, eq1[i as int], i as int));
            }
            eq.insert(j, row);
            proof {
                assert(eq@ =~= eq_mid.update(j as int, eq@[j as int]));
                assert(eq@[j as int]@ =~= elim_row(orig_rowj, eq1[i as int], i as int));
                assert forall|jj: int| 0 <= jj < eq@.len() implies (#[trigger] eq@[jj])@ == (
                if i < jj < j + 1 {
                    elim_row(eq1[jj], eq1[i as int], i as int)
                } else {
                    eq1[jj]
                }) by {
                    if jj != j {
                        assert(eq@[jj] == eq_mid[jj]);
                    }
                }
            }
            j += 1;
        }

        proof {
            assert(mat_view(&eq) =~~= Seq::new(
                eq1.len(),
                |jj: int|
                    if jj > i {
                        elim_row(eq1[jj], eq1[i as int], i as int)
                    } else {
                        eq1[jj]
                    },
            ));
        }

        // a pivot row reduced to a bare right-hand side signals a rank
        // deficiency
        if fail_on_rank && eq[i][num_coeff - 1].0 == one.0 {
            proof {
                assert(spec_gauss(eq_head, i as int, one, fail_on_rank) is None);
            }
            failed = true;
            i = num_eq;
        } else {
            proof {
                assert(spec_gauss(eq_head, i as int, one, fail_on_rank) == spec_gauss(
                    mat_view(&eq),
                    i + 1,
                    one,
                    fail_on_rank,
                ));
            }
            i += 1;
        }
    }

    if failed {
        return None;
    }

    let ghost eqf = mat_view(&eq);

    let mut solution: Vec<GF8> = Vec::new();
    let mut n: usize = 0;
    while n < num_eq
        invariant
            solution@.len() == n,
            n <= num_eq,
            forall|k: int| 0 <= k < n ==> (#[trigger] solution@[k]) == zero,
        decreases num_eq - n,
    {
        solution.push(zero);
        n += 1;
    }
    proof {
        assert(solution@ =~= Seq::new(num_eq as nat, |k: int| zero));
        assert(back_partial(eqf, solution@, num_eq as int) == solution@);
    }

    let mut i: usize = num_eq;
    while i > 0
        invariant
            solution@.len() == num_eq,
            eq@.len() == num_eq,
            num_coeff == num_eq + 1,
            i <= num_eq,
            forall|k: int| 0 <= k < eq@.len() ==> (#[trigger] eq@[k])@.len() == num_coeff,
            mat_view(&eq) == eqf,
            solution@ == back_partial(eqf, Seq::new(num_eq as nat, |k: int| zero), i as int),
        decreases i,
    {
        i -= 1;
        let ghost sol_prev = solution@;
        let mut v = eq[i][num_coeff - 1];
        let mut j: usize = i + 1;
        while j < num_coeff - 1
            invariant
                solution@ == sol_prev,
                solution@.len() == num_eq,
                eq@.len() == num_eq,
                num_coeff == num_eq + 1,
                i < num_eq,
                i + 1 <= j <= num_coeff - 1,
                forall|k: int| 0 <= k < eq@.len() ==> (#[trigger] eq@[k])@.len() == num_coeff,
                mat_view(&eq) == eqf,
                v.0 == back_val(eqf[i as int], sol_prev, i as int, j as int),
            decreases num_coeff - 1 - j,
        {
            v = v.sub(eq[i][j].mul(solution[j]));
            j += 1;
        }
        solution.set(i, v);
    }

    proof {
        assert(spec_gauss(eqf, num_eq as int, one, fail_on_rank) == Some(eqf));
    }
    Some(solution)
}

/// Find the error locations of a dirty block: fit the largest solvable
/// error locator polynomial to the syndromes, then search its roots over
/// the whole field. The contract states the bounds and the strict order
/// of the locations; which exponents the fitted locator accepts is left
/// to the body, though the solver it builds on is itself pinned to
/// [`spec_solve`].
fn find_locs(block_info: &BlockInfo, syndromes: &Vec<GF8>) -> (r: Result<Vec<usize>, QRError>)
    requires
        block_info.wf(),
        syndromes@.len() == 2 * block_info.ec_cap,
    ensures
        r is Ok ==> forall|i: int|
            0 <= i < r->Ok_0@.len() ==> (#[trigger] r->Ok_0@[i]) < block_info.total_per,
        r is Ok ==> forall|k1: int, k2: int|
            0 <= k1 < k2 < r->Ok_0@.len() ==> (#[trigger] r->Ok_0@[k1]) < (#[trigger] r->Ok_0@[k2]),
{
    let mut sigma: Option<Vec<GF8>> = None;

    let mut z: usize = block_info.ec_cap as usize;
    while z >= 1
        invariant
            block_info.wf(),
            syndromes@.len() == 2 * block_info.ec_cap,
            z <= block_info.ec_cap,
            sigma is Some ==> z >= 1 && sigma->0@.len() == z,
        decreases z,
    {
        let mut eq: Vec<Vec<GF8>> = Vec::new();
        let mut i: usize = 0;
        while i < z
            invariant
                syndromes@.len() == 2 * block_info.ec_cap,
                z <= block_info.ec_cap,
                i <= z,
                eq@.len() == i,
                forall|k: int| 0 <= k < eq@.len() ==> (#[trigger] eq@[k])@.len() == z + 1,
            decreases z - i,
        {
            let mut row: Vec<GF8> = Vec::new();
            let mut j: usize = 0;
            while j <= z
                invariant
                    syndromes@.len() == 2 * block_info.ec_cap,
                    z <= block_info.ec_cap,
                    i < z,
                    j <= z + 1,
                    row@.len() == j,
                decreases z + 1 - j,
            {
                row.push(syndromes[i + j]);
                j += 1;
            }
            eq.push(row);
            i += 1;
        }

        proof {
            assert(eq@.len() == z);
        }
        sigma = solve(eq, GF8(0), GF8(1), true);

        if sigma.is_some() {
            break ;
        }
        z -= 1;
    }

    let sigma = match sigma {
        Some(s) => s,
        None => {
            return Err(QRError { msg: "Could not calculate SIGMA".to_owned() });
        },
    };

    let mut locs: Vec<usize> = Vec::new();

    let mut i: usize = 0;
    while i < block_info.total_per as usize
        invariant
            i <= block_info.total_per,
            sigma@.len() >= 1,
            forall|k: int| 0 <= k < locs@.len() ==> (#[trigger] locs@[k]) < block_info.total_per,
            forall|k: int| 0 <= k < locs@.len() ==> (#[trigger] locs@[k]) < i,
            forall|k1: int, k2: int|
                0 <= k1 < k2 < locs@.len() ==> (#[trigger] locs@[k1]) < (#[trigger] locs@[k2]),
        decreases block_info.total_per - i,
    {
        let exp = GF8(EXP8[i]);
        let mut x = exp;
        let mut check_value = sigma[0];
        let mut s: usize = 1;
        while s < sigma.len()
            invariant
                sigma@.len() >= 1,
                s <= sigma@.len(),
            decreases sigma@.len() - s,
        {
            check_value = check_value.add(x.mul(sigma[s]));
            x = x.mul(exp);
            s += 1;
        }
        check_value = check_value.add(x);

        if check_value.0 == 0 {
            locs.push(i);
        }
        i += 1;
    }

    Ok(locs)
}

/// Correct one block in place and count the corrected bits.
///
/// A block whose syndromes are all zero comes back unchanged with a zero
/// count. A corrected block always passes the closing syndrome re-check,
/// touches at most `2 * ec_cap` byte positions, and the count is exactly
/// the number of bits by which the result differs from the input. That a
/// block within `ec_cap` byte errors of a clean codeword is always
/// brought back to that codeword is a theorem of Reed-Solomon codes that
/// this contract does not state; the tests exercise it on concrete
/// blocks.
#[verifier::rlimit(100)]
pub fn correct_with_error_count(block: Vec<u8>, block_info: &BlockInfo) -> (r: Result<
    (Vec<u8>, u32),
    QRError,
>)
    requires
        block_info.wf(),
        block@.len() == block_info.total_per,
    ensures
        syndromes_clean(block@, block_info.ec_cap as int) ==> r == Ok::<(Vec<u8>, u32), QRError>(
            (block, 0u32),
        ),
        r is Ok ==> {
            &&& r->Ok_0.0@.len() == block@.len()
            &&& rs_syndrome(r->Ok_0.0@, EXP8[0]) == 0
            &&& r->Ok_0.1 == diff_bits(block@, r->Ok_0.0@)
            &&& changed_positions(block@, r->Ok_0.0@) <= 2 * block_info.ec_cap
            &&& r->Ok_0.1 <= 4080
        },
        r is Err ==> !syndromes_clean(block@, block_info.ec_cap as int),
{
    let mut block = block;
    let ec2 = 2 * block_info.ec_cap as usize;
    let mut syndromes: Vec<GF8> = Vec::new();

    let mut all_fine = true;
    let ghost mut bad: int = 0;
    let mut i: usize = 0;
    while i < ec2
        invariant
            block@.len() == block_info.total_per,
            ec2 == 2 * block_info.ec_cap,
            ec2 <= 254,
            i <= ec2,
            syndromes@.len() == i,
            forall|j: int|
                0 <= j < i ==> (#[trigger] syndromes@[j]).0 == rs_syndrome(block@, EXP8[j]),
            all_fine ==> (forall|j: int| 0 <= j < i ==> (#[trigger] syndromes@[j]).0 == 0),
            !all_fine ==> 0 <= bad < i && syndromes@[bad].0 != 0,
        decreases ec2 - i,
    {
        let s = syndrome(&block, GF8(EXP8[i]));
        syndromes.push(s);
        proof {
            assert(syndromes@[i as int] == s);
        }
        if s.0 != 0 {
            proof {
                bad = i as int;
            }
            all_fine = false;
        }
        i += 1;
    }

    if all_fine {
        // every syndrome is zero: nothing to correct
        proof {
            assert(syndromes@[0].0 == 0);
            assert(rs_syndrome(block@, EXP8[0]) == 0);
            lemma_diff_self(block@);
        }
        return Ok((block, 0));
    }
    proof {
        assert(rs_syndrome(block@, EXP8[bad]) != 0);
        assert(!syndromes_clean(block@, block_info.ec_cap as int));
    }

    let locs = match find_locs(block_info, &syndromes) {
        Ok(l) => l,
        Err(e) => {
            return Err(e);
        },
    };

    if locs.len() > syndromes.len() {
        // more roots than syndromes: no solvable magnitude system
        return Err(QRError { msg: "Could not calculate error distances".to_owned() });
    }

    let mut eq: Vec<Vec<GF8>> = Vec::new();
    let mut i: usize = 0;
    while i < locs.len()
        invariant
            locs@.len() <= syndromes@.len(),
            syndromes@.len() <= 510,
            forall|k: int| 0 <= k < locs@.len() ==> (#[trigger] locs@[k]) < block_info.total_per,
            block_info.total_per <= 255,
            i <= locs@.len(),
            eq@.len() == i,
            forall|k: int| 0 <= k < eq@.len() ==> (#[trigger] eq@[k])@.len() == locs@.len() + 1,
        decreases locs@.len() - i,
    {
        let mut row: Vec<GF8> = Vec::new();
        let mut j: usize = 0;
        while j < locs.len()
            invariant
                locs@.len() <= syndromes@.len(),
                syndromes@.len() <= 510,
                forall|k: int|
                    0 <= k < locs@.len() ==> (#[trigger] locs@[k]) < block_info.total_per,
                block_info.total_per <= 255,
                i < syndromes@.len(),
                j <= locs@.len(),
                row@.len() == j,
            decreases locs@.len() - j,
        {
            proof {
                assert(i * locs@[j as int] <= 130560) by (nonlinear_arith)
                    requires
                        i < 512,
                        locs@[j as int] < 256,
                ;
            }
            row.push(GF8(EXP8[(i * locs[j]) % 255]));
            j += 1;
        }
        row.push(syndromes[i]);
        eq.push(row);
        i += 1;
    }

    let distance = solve(eq, GF8(0), GF8(1), false);

    let distance = match distance {
        Some(d) => d,
        None => {
            return Err(QRError { msg: "Could not calculate error distances".to_owned() });
        },
    };

    let ghost block0 = block@;
    proof {
        lemma_diff_self(block@);
    }
    let mut total_errors: u32 = 0;
    let mut i: usize = 0;
    while i < locs.len()
        invariant
            block_info.wf(),
            block@.len() == block_info.total_per,
            block0.len() == block@.len(),
            distance@.len() == locs@.len(),
            locs@.len() <= 510,
            locs@.len() <= 2 * block_info.ec_cap,
            forall|k: int| 0 <= k < locs@.len() ==> (#[trigger] locs@[k]) < block_info.total_per,
            forall|k1: int, k2: int|
                0 <= k1 < k2 < locs@.len() ==> (#[trigger] locs@[k1]) < (#[trigger] locs@[k2]),
            i <= locs@.len(),
            total_errors <= 8 * i,
            total_errors == diff_bits(block0, block@),
            changed_positions(block0, block@) <= i,
            forall|j: int|
                0 <= j < block@.len() && (i == 0 || j < block_info.total_per - 1 - locs@[i - 1])
                    ==> (#[trigger] block@[j]) == block0[j],
        decreases locs@.len() - i,
    {
        let idx = block_info.total_per as usize - 1 - locs[i];
        let d = distance[i].0;
        let fixed = block[idx] ^ d;
        proof {
            // locations grow, so this fix lands below every earlier one,
            // on a byte the loop has not touched yet
            assert(block@[idx as int] == block0[idx as int]);
            lemma_diff_update(block0, block@, idx as int, fixed);
            let ob: u8 = block0[idx as int];
            assert(ob ^ ob == 0 && ob ^ (ob ^ d) == d) by (bit_vector);
            lemma_pop_count_zero(8);
            lemma_pop_count_bound(d, 8);
        }
        block.set(idx, fixed);
        total_errors += pop_count(d);
        i += 1;
    }
    proof {
        assert(changed_positions(block0, block@) <= 2 * block_info.ec_cap);
    }

    if syndrome(&block, GF8(EXP8[0])).0 != 0 {
        return Err(QRError { msg: "Error correcting did not fix corrupted data".to_owned() });
    }

    Ok((block, total_errors))
}

/// Correct one block in place.
///
/// A block whose syndromes are all zero comes back unchanged; a corrected
/// block always passes the closing syndrome re-check and differs from the
/// input in at most `2 * ec_cap` byte positions.
pub fn correct(block: Vec<u8>, block_info: &BlockInfo) -> (r: Result<Vec<u8>, QRError>)
    requires
        block_info.wf(),
        block@.len() == block_info.total_per,
    ensures
        syndromes_clean(block@, block_info.ec_cap as int) ==> r == Ok::<Vec<u8>, QRError>(block),
        r is Ok ==> {
            &&& r->Ok_0@.len() == block@.len()
            &&& rs_syndrome(r->Ok_0@, EXP8[0]) == 0
            &&& changed_positions(block@, r->Ok_0@) <= 2 * block_info.ec_cap
        },
        r is Err ==> !syndromes_clean(block@, block_info.ec_cap as int),
{
    match correct_with_error_count(block, block_info) {
        Ok((corrected, _)) => Ok(corrected),
        Err(e) => Err(e),
    }
}

} // verus!
