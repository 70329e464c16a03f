//! Bit-level reader over a byte vector.

use vstd::arithmetic::power2::{lemma2_to64, lemma_pow2_strictly_increases, pow2};
use vstd::prelude::*;

verus! {

/// The bit `i` of byte `b`, counting from the most significant end.
pub open spec fn byte_bit(b: u8, i: int) -> bool {
    b >> (7 - i) as u8 & 1 == 1
}

/// The bits of a byte sequence, each byte most significant bit first.
pub open spec fn bits_of(bytes: Seq<u8>) -> Seq<bool> {
    Seq::new(bytes.len() * 8, |i: int| byte_bit(bytes[i / 8], i % 8))
}

/// The number a bit sequence spells, most significant bit first.
pub open spec fn bits_value(s: Seq<bool>) -> nat
    decreases s.len(),
{
    if s.len() == 0 {
        0
    } else {
        bits_value(s.drop_last()) * 2 + if s.last() {
            1nat
        } else {
            0nat
        }
    }
}

/// The value of a bit sequence is bounded by the power of two of its length.
pub proof fn lemma_bits_value_bound(s: Seq<bool>)
    ensures
        bits_value(s) < pow2(s.len()),
    decreases s.len(),
{
    if s.len() == 0 {
        lemma2_to64();
    } else {
        lemma_bits_value_bound(s.drop_last());
        assert(pow2(s.len()) == 2 * pow2((s.len() - 1) as nat)) by {
            vstd::arithmetic::power2::lemma_pow2_unfold(s.len());
        }
    }
}

/// Splitting a bit sequence splits its value: the first `k` bits weigh
/// `2^(n - k)` times their own value.
pub proof fn lemma_bits_value_split(s: Seq<bool>, k: int, n: int)
    requires
        0 <= k <= n <= s.len(),
    ensures
        bits_value(s.take(n)) == bits_value(s.take(k)) * pow2((n - k) as nat) + bits_value(
            s.take(n).skip(k),
        ),
    decreases n - k,
{
    if k == n {
        assert(s.take(n).skip(n) =~= Seq::<bool>::empty());
        assert(pow2(0) == 1) by {
            lemma2_to64();
        }
        assert(bits_value(s.take(n).skip(k)) == 0);
        assert(bits_value(s.take(n)) == bits_value(s.take(k)));
        assert(bits_value(s.take(k)) * 1 == bits_value(s.take(k)));
    } else {
        lemma_bits_value_split(s, k, n - 1);
        assert(s.take(n).drop_last() =~= s.take(n - 1));
        assert(s.take(n).skip(k).drop_last() =~= s.take(n - 1).skip(k));
        assert(s.take(n).skip(k).last() == s.take(n).last());
        let a = bits_value(s.take(k));
        let tail = if s.take(n).last() {
            1nat
        } else {
            0nat
        };
        assert(bits_value(s.take(k)) * pow2((n - k) as nat) == (bits_value(s.take(k)) * pow2(
            (n - 1 - k) as nat,
        )) * 2) by {
            assert(pow2((n - k) as nat) == 2 * pow2((n - 1 - k) as nat)) by {
                vstd::arithmetic::power2::lemma_pow2_unfold((n - k) as nat);
            }
            vstd::arithmetic::mul::lemma_mul_is_commutative(2, pow2((n - 1 - k) as nat) as int);
            vstd::arithmetic::mul::lemma_mul_is_associative(
                bits_value(s.take(k)) as int,
                pow2((n - 1 - k) as nat) as int,
                2,
            );
        }
        assert(bits_value(s.take(n)) == bits_value(s.take(n - 1)) * 2 + tail);
        assert(bits_value(s.take(n).skip(k)) == bits_value(s.take(n - 1).skip(k)) * 2 + tail);
        assert(bits_value(s.take(n - 1)) * 2 == (a * pow2((n - 1 - k) as nat)) * 2 + bits_value(
            s.take(n - 1).skip(k),
        ) * 2);
        assert(bits_value(s.take(n)) == a * pow2((n - k) as nat) + bits_value(s.take(n).skip(k)));
    }
    assert(bits_value(s.take(n)) == bits_value(s.take(k)) * pow2((n - k) as nat) + bits_value(
        s.take(n).skip(k),
    ));
}

/// Chomp arbitrary numbers of bits off the front of a `Vec<u8>`, most
/// significant bit first.
pub struct Chomp {
    bytes: Vec<u8>,
    pos: usize,
}

impl Chomp {
    /// All bits of the underlying bytes.
    pub closed spec fn all_bits(&self) -> Seq<bool> {
        bits_of(self.bytes@)
    }

    /// The bits not yet consumed.
    pub closed spec fn remaining(&self) -> Seq<bool> {
        self.all_bits().skip(self.pos as int)
    }

    /// The reader never runs past its bytes, and the bit count fits the machine.
    pub closed spec fn wf(&self) -> bool {
        self.pos <= self.bytes@.len() * 8 && self.bytes@.len() * 8 <= usize::MAX
    }

    /// Create a Chomp over the provided bytes.
    pub fn new(bytes: Vec<u8>) -> (r: Chomp)
        requires
            bytes@.len() <= usize::MAX / 8,
        ensures
            r.wf(),
            r.remaining() == bits_of(bytes@),
    {
        let r = Chomp { bytes, pos: 0 };
        proof {
            assert(r.remaining() =~= r.all_bits());
        }
        r
    }

    /// Read a bit without consuming it; `k` counts from the front of the
    /// unconsumed bits.
    fn peek_bit(&self, k: usize) -> (r: bool)
        requires
            self.wf(),
            k < self.remaining().len(),
        ensures
            r == self.remaining()[k as int],
    {
        let p = self.pos + k;
        let b = self.bytes[p / 8];
        let shift: u8 = 7 - (p % 8) as u8;
        let r = b >> shift & 1 == 1;
        proof {
            assert(self.remaining()[k as int] == self.all_bits()[self.pos + k]);
            assert(self.all_bits()[p as int] == byte_bit(self.bytes@[p as int / 8], p as int % 8));
        }
        r
    }

    /// Try to chomp `nr_bits` bits. [`None`] is returned when asking for
    /// fewer than 1 or more than 8 bits, or for more bits than are left.
    /// The result sits in the least significant bits of the `u8`.
    pub fn chomp(&mut self, nr_bits: u8) -> (r: Option<u8>)
        requires
            old(self).wf(),
        ensures
            final (self).wf(),
            r is None <==> (nr_bits < 1 || nr_bits > 8 || nr_bits > old(self).remaining().len()),
            r is None ==> *final (self) == *old(self),
            r is Some ==> {
                &&& r->0 == bits_value(old(self).remaining().take(nr_bits as int))
                &&& final (self).remaining() == old(self).remaining().skip(nr_bits as int)
            },
    {
        if nr_bits < 1 || nr_bits > 8 {
            return None;
        }
        let left = self.bytes.len() * 8 - self.pos;
        if nr_bits as usize > left {
            return None;
        }
        let mut v: u8 = 0;
        let mut i: usize = 0;
        while i < nr_bits as usize
            invariant
                self.wf(),
                i <= nr_bits <= 8,
                nr_bits <= self.remaining().len(),
                v == bits_value(self.remaining().take(i as int)),
            decreases nr_bits as int - i,
        {
            let bit = self.peek_bit(i);
            proof {
                assert(self.remaining().take(i + 1).drop_last() =~= self.remaining().take(i as int));
                assert(self.remaining().take(i + 1).last() == self.remaining()[i as int]);
                lemma_bits_value_bound(self.remaining().take(i as int));
                if (i as nat) < 7 {
                    lemma_pow2_strictly_increases(i as nat, 7);
                }
                lemma2_to64();
            }
            v = v * 2 + if bit {
                1
            } else {
                0
            };
            i += 1;
        }
        let ghost before = *self;
        self.pos = self.pos + nr_bits as usize;
        proof {
            assert(self.remaining() =~= before.remaining().skip(nr_bits as int));
        }
        Some(v)
    }

    /// Chomp `nr_bits` bits or fail with the provided error. The result
    /// sits in the least significant bits of the `u8`.
    pub fn chomp_or<E>(&mut self, nr_bits: u8, err: E) -> (r: Result<u8, E>)
        requires
            old(self).wf(),
        ensures
            final (self).wf(),
            r is Err <==> (nr_bits < 1 || nr_bits > 8 || nr_bits > old(self).remaining().len()),
            r is Err ==> *final (self) == *old(self),
            r is Ok ==> {
                &&& r->Ok_0 == bits_value(old(self).remaining().take(nr_bits as int))
                &&& final (self).remaining() == old(self).remaining().skip(nr_bits as int)
            },
    {
        match self.chomp(nr_bits) {
            Some(v) => Ok(v),
            None => Err(err),
        }
    }

    /// Chomp up to 16 bits or fail with the provided error. The result
    /// sits in the least significant bits of the `u16`. A failing read may
    /// still have consumed up to 8 bits, as in the byte-buffered reader
    /// this one mirrors.
    pub fn chomp_or_u16<E>(&mut self, nr_bits: u8, err: E) -> (r: Result<u16, E>)
        requires
            old(self).wf(),
            1 <= nr_bits <= 16,
        ensures
            final (self).wf(),
            r is Err <==> nr_bits > old(self).remaining().len(),
            r is Ok ==> {
                &&& r->Ok_0 == bits_value(old(self).remaining().take(nr_bits as int))
                &&& final (self).remaining() == old(self).remaining().skip(nr_bits as int)
            },
    {
        if nr_bits > 8 {
            let ghost rem0 = self.remaining();
            let hi = match self.chomp(8) {
                Some(v) => v,
                None => {
                    return Err(err);
                },
            };
            let low_bits = nr_bits - 8;
            match self.chomp(low_bits) {
                Some(lo) => {
                    proof {
                        lemma_bits_value_split(rem0, 8, nr_bits as int);
                        lemma_bits_value_bound(rem0.take(8));
                        lemma_bits_value_bound(rem0.take(nr_bits as int));
                        lemma2_to64();
                        if nr_bits < 16 {
                            lemma_pow2_strictly_increases(nr_bits as nat, 16);
                        }
                        if low_bits < 8 {
                            lemma_pow2_strictly_increases(low_bits as nat, 8);
                        }
                        vstd::arithmetic::mul::lemma_mul_upper_bound(
                            hi as int,
                            255,
                            pow2(low_bits as nat) as int,
                            256,
                        );
                        assert(rem0.skip(8).take(low_bits as int) =~= rem0.take(nr_bits as int).skip(
                            8,
                        ));
                        vstd::bits::lemma_u16_shl_is_mul(hi as u16, low_bits as u16);
                        assert(rem0.skip(8).skip(low_bits as int) =~= rem0.skip(nr_bits as int));
                    }
                    let r: u16 = ((hi as u16) << (low_bits as u16)) + lo as u16;
                    Ok(r)
                },
                None => Err(err),
            }
        } else {
            match self.chomp(nr_bits) {
                Some(v) => Ok(v as u16),
                None => Err(err),
            }
        }
    }
}

} // verus!
