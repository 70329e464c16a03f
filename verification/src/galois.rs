//! Arithmetic in the Galois fields GF(2^8) and GF(2^4).
//!
//! GF(2^8) is the field of bytes modulo the primitive polynomial 0x11D,
//! GF(2^4) the field of nibbles modulo 0x13; both use the generator 2.
//! Addition is XOR; multiplication and division go through the
//! exponent and logarithm tables of the generator.

use vstd::prelude::*;

verus! {

pub const EXP8: [u8; 256] = [
    1, 2, 4, 8, 16, 32, 64, 128, 29, 58, 116, 232, 205, 135, 19, 38,
    76, 152, 45, 90, 180, 117, 234, 201, 143, 3, 6, 12, 24, 48, 96, 192,
    157, 39, 78, 156, 37, 74, 148, 53, 106, 212, 181, 119, 238, 193, 159, 35,
    70, 140, 5, 10, 20, 40, 80, 160, 93, 186, 105, 210, 185, 111, 222, 161,
    95, 190, 97, 194, 153, 47, 94, 188, 101, 202, 137, 15, 30, 60, 120, 240,
    253, 231, 211, 187, 107, 214, 177, 127, 254, 225, 223, 163, 91, 182, 113, 226,
    217, 175, 67, 134, 17, 34, 68, 136, 13, 26, 52, 104, 208, 189, 103, 206,
    129, 31, 62, 124, 248, 237, 199, 147, 59, 118, 236, 197, 151, 51, 102, 204,
    133, 23, 46, 92, 184, 109, 218, 169, 79, 158, 33, 66, 132, 21, 42, 84,
    168, 77, 154, 41, 82, 164, 85, 170, 73, 146, 57, 114, 228, 213, 183, 115,
    230, 209, 191, 99, 198, 145, 63, 126, 252, 229, 215, 179, 123, 246, 241, 255,
    227, 219, 171, 75, 150, 49, 98, 196, 149, 55, 110, 220, 165, 87, 174, 65,
    130, 25, 50, 100, 200, 141, 7, 14, 28, 56, 112, 224, 221, 167, 83, 166,
    81, 162, 89, 178, 121, 242, 249, 239, 195, 155, 43, 86, 172, 69, 138, 9,
    18, 36, 72, 144, 61, 122, 244, 245, 247, 243, 251, 235, 203, 139, 11, 22,
    44, 88, 176, 125, 250, 233, 207, 131, 27, 54, 108, 216, 173, 71, 142, 0,
];

pub const LOG8: [u8; 256] = [
    0, 0, 1, 25, 2, 50, 26, 198, 3, 223, 51, 238, 27, 104, 199, 75,
    4, 100, 224, 14, 52, 141, 239, 129, 28, 193, 105, 248, 200, 8, 76, 113,
    5, 138, 101, 47, 225, 36, 15, 33, 53, 147, 142, 218, 240, 18, 130, 69,
    29, 181, 194, 125, 106, 39, 249, 185, 201, 154, 9, 120, 77, 228, 114, 166,
    6, 191, 139, 98, 102, 221, 48, 253, 226, 152, 37, 179, 16, 145, 34, 136,
    54, 208, 148, 206, 143, 150, 219, 189, 241, 210, 19, 92, 131, 56, 70, 64,
    30, 66, 182, 163, 195, 72, 126, 110, 107, 58, 40, 84, 250, 133, 186, 61,
    202, 94, 155, 159, 10, 21, 121, 43, 78, 212, 229, 172, 115, 243, 167, 87,
    7, 112, 192, 247, 140, 128, 99, 13, 103, 74, 222, 237, 49, 197, 254, 24,
    227, 165, 153, 119, 38, 184, 180, 124, 17, 68, 146, 217, 35, 32, 137, 46,
    55, 63, 209, 91, 149, 188, 207, 205, 144, 135, 151, 178, 220, 252, 190, 97,
    242, 86, 211, 171, 20, 42, 93, 158, 132, 60, 57, 83, 71, 109, 65, 162,
    31, 45, 67, 216, 183, 123, 164, 118, 196, 23, 73, 236, 127, 12, 111, 246,
    108, 161, 59, 82, 41, 157, 85, 170, 251, 96, 134, 177, 187, 204, 62, 90,
    203, 89, 95, 176, 156, 169, 160, 81, 11, 245, 22, 235, 122, 117, 44, 215,
    79, 174, 213, 233, 230, 231, 173, 232, 116, 214, 244, 234, 168, 80, 88, 175,
];

pub const EXP4: [u8; 16] = [
    1, 2, 4, 8, 3, 6, 12, 11, 5, 10, 7, 14, 15, 13, 9, 0,
];

pub const LOG4: [u8; 16] = [
    0, 0, 1, 4, 2, 8, 5, 10, 3, 14, 9, 7, 6, 13, 11, 12,
];


/// Sum in GF(2^8): plain XOR.
pub open spec fn gf8_add(a: u8, b: u8) -> u8 {
    a ^ b
}

/// Product in GF(2^8), through the exponent and logarithm tables.
pub open spec fn gf8_mul(a: u8, b: u8) -> u8 {
    if a == 0 || b == 0 {
        EXP8[255]
    } else {
        EXP8[(LOG8[a as int] + LOG8[b as int]) % 255]
    }
}

/// Quotient in GF(2^8), through the exponent and logarithm tables.
pub open spec fn gf8_div(a: u8, b: u8) -> u8 {
    let d = LOG8[a as int] - LOG8[b as int];
    if d < 0 {
        EXP8[d + 255]
    } else {
        EXP8[d]
    }
}

/// Sum in GF(2^4): plain XOR.
pub open spec fn gf4_add(a: u8, b: u8) -> u8 {
    a ^ b
}

/// Product in GF(2^4), through the exponent and logarithm tables.
pub open spec fn gf4_mul(a: u8, b: u8) -> u8 {
    if a == 0 || b == 0 {
        EXP4[15]
    } else {
        EXP4[(LOG4[a as int] + LOG4[b as int]) % 15]
    }
}

/// Quotient in GF(2^4), through the exponent and logarithm tables.
pub open spec fn gf4_div(a: u8, b: u8) -> u8 {
    let d = LOG4[a as int] - LOG4[b as int];
    if d < 0 {
        EXP4[d + 15]
    } else {
        EXP4[d]
    }
}

/// An element of GF(2^8).
#[derive(Debug, Copy, Clone, PartialEq, Eq, Structural)]
pub struct GF8(pub u8);

/// An element of GF(2^4). Only the low nibble is ever nonzero.
#[derive(Debug, Copy, Clone, PartialEq, Eq, Structural)]
pub struct GF4(pub u8);

impl GF8 {
    /// Sum of two field elements.
    pub fn add(self, other: GF8) -> (r: GF8)
        ensures
            r.0 == gf8_add(self.0, other.0),
    {
        GF8(self.0 ^ other.0)
    }

    /// Difference of two field elements; in a field of characteristic 2 it equals the sum.
    pub fn sub(self, other: GF8) -> (r: GF8)
        ensures
            r.0 == gf8_add(self.0, other.0),
    {
        GF8(self.0 ^ other.0)
    }

    /// Product of two field elements.
    pub fn mul(self, other: GF8) -> (r: GF8)
        ensures
            r.0 == gf8_mul(self.0, other.0),
    {
        if self.0 == 0 || other.0 == 0 {
            return GF8(EXP8[255]);
        }
        let log_self = LOG8[self.0 as usize];
        let log_other = LOG8[other.0 as usize];
        GF8(EXP8[((log_self as u16 + log_other as u16) % 255) as usize])
    }

    /// Quotient of two field elements. As in the reference tables, a zero
    /// divisor is looked up like any other value and yields no error.
    pub fn div(self, other: GF8) -> (r: GF8)
        ensures
            r.0 == gf8_div(self.0, other.0),
    {
        let log_self = LOG8[self.0 as usize];
        let log_other = LOG8[other.0 as usize];
        let mut diff: i16 = log_self as i16 - log_other as i16;
        diff = if diff < 0 {
            diff + 255
        } else {
            diff
        };
        GF8(EXP8[diff as usize])
    }
}

impl GF4 {
    /// Sum of two field elements.
    pub fn add(self, other: GF4) -> (r: GF4)
        requires
            self.0 < 16,
            other.0 < 16,
        ensures
            r.0 == gf4_add(self.0, other.0),
            r.0 < 16,
    {
        proof {
            lemma_nibble_xor(self.0, other.0);
        }
        GF4(self.0 ^ other.0)
    }

    /// Difference of two field elements; in a field of characteristic 2 it equals the sum.
    pub fn sub(self, other: GF4) -> (r: GF4)
        requires
            self.0 < 16,
            other.0 < 16,
        ensures
            r.0 == gf4_add(self.0, other.0),
            r.0 < 16,
    {
        proof {
            lemma_nibble_xor(self.0, other.0);
        }
        GF4(self.0 ^ other.0)
    }

    /// Product of two field elements.
    pub fn mul(self, other: GF4) -> (r: GF4)
        requires
            self.0 < 16,
            other.0 < 16,
        ensures
            r.0 == gf4_mul(self.0, other.0),
            r.0 < 16,
    {
        if self.0 == 0 || other.0 == 0 {
            return GF4(EXP4[15]);
        }
        let log_self = LOG4[self.0 as usize];
        let log_other = LOG4[other.0 as usize];
        GF4(EXP4[((log_self as u16 + log_other as u16) % 15) as usize])
    }

    /// Quotient of two field elements. A zero divisor is looked up like any
    /// other value and yields no error.
    pub fn div(self, other: GF4) -> (r: GF4)
        requires
            self.0 < 16,
            other.0 < 16,
        ensures
            r.0 == gf4_div(self.0, other.0),
            r.0 < 16,
    {
        let log_self = LOG4[self.0 as usize];
        let log_other = LOG4[other.0 as usize];
        let mut diff: i16 = log_self as i16 - log_other as i16;
        diff = if diff < 0 {
            diff + 15
        } else {
            diff
        };
        GF4(EXP4[diff as usize])
    }
}

/// The XOR of two nibbles is a nibble.
proof fn lemma_nibble_xor(a: u8, b: u8)
    requires
        a < 16,
        b < 16,
    ensures
        a ^ b < 16,
{
    assert(a < 16 && b < 16 ==> (a ^ b) < 16) by (bit_vector);
}

/// The exponent table inverts the logarithm table on every nonzero byte,
/// and the final exponent entry is zero, so a product with a zero factor
/// is zero.
pub proof fn lemma_gf8_tables()
    ensures
        forall|a: u8| 1 <= a ==> EXP8[LOG8[a as int] as int] == a,
        EXP8[255] == 0,
{
}

/// Every nibble-table entry is a nibble, and every nibble logarithm is
/// an exponent below 15.
pub proof fn lemma_gf4_table_bounds()
    ensures
        forall|i: int| 0 <= i < 16 ==> EXP4[i] < 16,
        forall|i: int| 0 <= i < 16 ==> LOG4[i] < 15,
{
}

/// The nibble tables satisfy the same identities as the byte tables.
pub proof fn lemma_gf4_tables()
    ensures
        forall|a: u8| 1 <= a < 16 ==> EXP4[LOG4[a as int] as int] == a,
        EXP4[15] == 0,
{
}

} // verus!
