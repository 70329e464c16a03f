//! Interpreting the corrected data codewords as text segments.

use crate::chomp::{bits_of, Chomp};
use crate::qr::QRError;
use vstd::prelude::*;
use vstd::string::StringExecFns;

verus! {

/// Relies on String::push: it appends exactly the one character.
pub assume_specification[ String::push ](s: &mut String, c: char)
    ensures
        final (s)@ == old(s)@.push(c),
;

/// The 45-symbol alphabet of the alphanumeric mode.
pub const ALPHANUMERIC: [char; 45] = [
    '0', '1', '2', '3', '4', '5', '6', '7', '8', '9', 'A', 'B', 'C', 'D', 'E', 'F', 'G', 'H', 'I',
    'J', 'K', 'L', 'M', 'N', 'O', 'P', 'Q', 'R', 'S', 'T', 'U', 'V', 'W', 'X', 'Y', 'Z', ' ', '$',
    '%', '*', '+', '-', '.', '/', ':',
];

/// Width of the numeric length field per version.
pub open spec fn num_len_bits(version: int) -> int {
    if version <= 9 {
        10
    } else if version <= 26 {
        12
    } else {
        14
    }
}

/// Width of the alphanumeric length field per version.
pub open spec fn alnum_len_bits(version: int) -> int {
    if version <= 9 {
        9
    } else if version <= 26 {
        11
    } else {
        13
    }
}

/// Width of the byte-mode length field per version.
pub open spec fn byte_len_bits(version: int) -> int {
    if version <= 9 {
        8
    } else {
        16
    }
}

/// Take `n` bits off the front of the reservoir as a number, most
/// significant bit first; fewer bits than asked for is a failure.
pub open spec fn take_bits(rem: Seq<bool>, n: int) -> Option<(int, Seq<bool>)> {
    if 0 < n <= rem.len() {
        Some((crate::chomp::bits_value(rem.take(n)) as int, rem.skip(n)))
    } else {
        None
    }
}

/// The digit character of a decimal digit.
pub open spec fn digit_char(d: int) -> char {
    ((48 + d) as u8) as char
}

/// The decimal rendering of a number, zero padded to the given width.
pub open spec fn spec_decimal(v: int, w: int) -> Seq<char>
    decreases (if v <= 0 {
        0int
    } else {
        v
    }), (if w <= 0 {
        0int
    } else {
        w
    }),
{
    if v < 10 && w <= 1 {
        seq![digit_char(v)]
    } else {
        proof {
            if v >= 10 {
                assert(v / 10 < v && v / 10 >= 1) by (nonlinear_arith)
                    requires
                        v >= 10,
                ;
            }
            if 0 < v < 10 {
                assert(v / 10 == 0) by (nonlinear_arith)
                    requires
                        0 < v < 10,
                ;
            }
            if v <= 0 {
                assert(v / 10 <= 0) by (nonlinear_arith)
                    requires
                        v <= 0,
                ;
            }
        }
        spec_decimal(
            v / 10,
            if w <= 1 {
                0int
            } else {
                w - 1
            },
        ).push(digit_char(v % 10))
    }
}

/// The digits a numeric segment body of the given digit count spells:
/// groups of three digits in ten bits, then a two-digit group in seven
/// bits or a single digit in four.
pub open spec fn spec_numeric_groups(rem: Seq<bool>, length: int) -> Option<(Seq<char>, Seq<bool>)>
    decreases length,
{
    if length <= 0 {
        Some((Seq::empty(), rem))
    } else if length >= 3 {
        match take_bits(rem, 10) {
            None => None,
            Some((v, rem2)) => match spec_numeric_groups(rem2, length - 3) {
                None => None,
                Some((cs, rem3)) => Some((spec_decimal(v, 3) + cs, rem3)),
            },
        }
    } else if length == 2 {
        match take_bits(rem, 7) {
            None => None,
            Some((v, rem2)) => Some((spec_decimal(v, 2), rem2)),
        }
    } else {
        match take_bits(rem, 4) {
            None => None,
            Some((v, rem2)) => Some((spec_decimal(v, 1), rem2)),
        }
    }
}

/// A whole numeric segment: its length field, then its digit groups.
pub open spec fn spec_numeric(rem: Seq<bool>, version: int) -> Option<(Seq<char>, Seq<bool>)> {
    if 1 <= version <= 40 {
        match take_bits(rem, num_len_bits(version)) {
            None => None,
            Some((length, rem2)) => spec_numeric_groups(rem2, length),
        }
    } else {
        None
    }
}

/// The characters an alphanumeric segment body of the given character
/// count spells: pairs of characters in eleven bits, then a single
/// character in six; a value naming no character pair is a failure.
pub open spec fn spec_alnum_groups(rem: Seq<bool>, length: int) -> Option<(Seq<char>, Seq<bool>)>
    decreases length,
{
    if length <= 0 {
        Some((Seq::empty(), rem))
    } else if length >= 2 {
        match take_bits(rem, 11) {
            None => None,
            Some((v, rem2)) => if v >= 2025 {
                None
            } else {
                match spec_alnum_groups(rem2, length - 2) {
                    None => None,
                    Some((cs, rem3)) => Some(
                        (seq![ALPHANUMERIC[v / 45], ALPHANUMERIC[v % 45]] + cs, rem3),
                    ),
                }
            },
        }
    } else {
        match take_bits(rem, 6) {
            None => None,
            Some((v, rem2)) => if v >= 45 {
                None
            } else {
                Some((seq![ALPHANUMERIC[v]], rem2))
            },
        }
    }
}

/// A whole alphanumeric segment: its length field, then its characters.
pub open spec fn spec_alnum(rem: Seq<bool>, version: int) -> Option<(Seq<char>, Seq<bool>)> {
    if 1 <= version <= 40 {
        match take_bits(rem, alnum_len_bits(version)) {
            None => None,
            Some((length, rem2)) => spec_alnum_groups(rem2, length),
        }
    } else {
        None
    }
}

/// The characters a byte segment body of the given byte count spells,
/// each byte one character.
pub open spec fn spec_byte_groups(rem: Seq<bool>, length: int) -> Option<(Seq<char>, Seq<bool>)>
    decreases length,
{
    if length <= 0 {
        Some((Seq::empty(), rem))
    } else {
        match take_bits(rem, 8) {
            None => None,
            Some((v, rem2)) => match spec_byte_groups(rem2, length - 1) {
                None => None,
                Some((cs, rem3)) => Some((seq![(v as u8) as char] + cs, rem3)),
            },
        }
    }
}

/// A whole byte segment: its length field, then its bytes.
pub open spec fn spec_eight_bit(rem: Seq<bool>, version: int) -> Option<(Seq<char>, Seq<bool>)> {
    if 1 <= version <= 40 {
        match take_bits(rem, byte_len_bits(version)) {
            None => None,
            Some((length, rem2)) => spec_byte_groups(rem2, length),
        }
    } else {
        None
    }
}

/// A numeric segment consumes at least its length field.
pub proof fn lemma_numeric_groups_len(rem: Seq<bool>, length: int)
    ensures
        spec_numeric_groups(rem, length) matches Some(p) ==> p.1.len() <= rem.len(),
    decreases length,
{
    if length >= 3 {
        match take_bits(rem, 10) {
            Some((v, rem2)) => {
                lemma_numeric_groups_len(rem2, length - 3);
            },
            None => {},
        }
    }
}

/// An alphanumeric segment body never grows the reservoir.
pub proof fn lemma_alnum_groups_len(rem: Seq<bool>, length: int)
    ensures
        spec_alnum_groups(rem, length) matches Some(p) ==> p.1.len() <= rem.len(),
    decreases length,
{
    if length >= 2 {
        match take_bits(rem, 11) {
            Some((v, rem2)) => {
                lemma_alnum_groups_len(rem2, length - 2);
            },
            None => {},
        }
    }
}

/// A byte segment body never grows the reservoir.
pub proof fn lemma_byte_groups_len(rem: Seq<bool>, length: int)
    ensures
        spec_byte_groups(rem, length) matches Some(p) ==> p.1.len() <= rem.len(),
    decreases length,
{
    if length >= 1 {
        match take_bits(rem, 8) {
            Some((v, rem2)) => {
                lemma_byte_groups_len(rem2, length - 1);
            },
            None => {},
        }
    }
}

/// A whole segment of any mode consumes at least one bit.
pub proof fn lemma_segment_shrinks(rem: Seq<bool>, version: int)
    ensures
        spec_numeric(rem, version) matches Some(p) ==> p.1.len() < rem.len(),
        spec_alnum(rem, version) matches Some(p) ==> p.1.len() < rem.len(),
        spec_eight_bit(rem, version) matches Some(p) ==> p.1.len() < rem.len(),
{
    if 1 <= version <= 40 {
        match take_bits(rem, num_len_bits(version)) {
            Some((length, rem2)) => {
                lemma_numeric_groups_len(rem2, length);
            },
            None => {},
        }
        match take_bits(rem, alnum_len_bits(version)) {
            Some((length, rem2)) => {
                lemma_alnum_groups_len(rem2, length);
            },
            None => {},
        }
        match take_bits(rem, byte_len_bits(version)) {
            Some((length, rem2)) => {
                lemma_byte_groups_len(rem2, length);
            },
            None => {},
        }
    }
}

/// The text the whole bit reservoir spells: segments of a four-bit mode
/// and a body each, until a terminator mode, an unknown mode, or the end
/// of the reservoir.
pub open spec fn spec_segments(rem: Seq<bool>, version: int) -> Option<Seq<char>>
    decreases rem.len(),
{
    if rem.len() < 4 {
        Some(Seq::empty())
    } else {
        match take_bits(rem, 4) {
            None => Some(Seq::empty()),
            Some((mode, rem2)) => {
                if mode == 0 {
                    Some(Seq::empty())
                } else if mode == 1 {
                    match spec_numeric(rem2, version) {
                        None => None,
                        Some((cs, rem3)) => {
                            proof {
                                lemma_segment_shrinks(rem2, version);
                            }
                            match spec_segments(rem3, version) {
                                None => None,
                                Some(rest) => Some(cs + rest),
                            }
                        },
                    }
                } else if mode == 2 {
                    match spec_alnum(rem2, version) {
                        None => None,
                        Some((cs, rem3)) => {
                            proof {
                                lemma_segment_shrinks(rem2, version);
                            }
                            match spec_segments(rem3, version) {
                                None => None,
                                Some(rest) => Some(cs + rest),
                            }
                        },
                    }
                } else if mode == 4 {
                    match spec_eight_bit(rem2, version) {
                        None => None,
                        Some((cs, rem3)) => {
                            proof {
                                lemma_segment_shrinks(rem2, version);
                            }
                            match spec_segments(rem3, version) {
                                None => None,
                                Some(rest) => Some(cs + rest),
                            }
                        },
                    }
                } else {
                    None
                }
            },
        }
    }
}

/// Push the decimal rendering of a number, zero padded to the given
/// width.
fn push_decimal(s: &mut String, v: u16, w: u16)
    ensures
        final (s)@ == old(s)@ + spec_decimal(v as int, w as int),
    decreases v, w,
{
    if v < 10 && w <= 1 {
        s.push((48 + v as u8) as char);
        proof {
            assert(old(s)@.push(digit_char(v as int)) =~= old(s)@ + spec_decimal(
                v as int,
                w as int,
            ));
        }
    } else {
        let w2: u16 = if w <= 1 {
            0
        } else {
            w - 1
        };
        push_decimal(s, v / 10, w2);
        s.push((48 + (v % 10) as u8) as char);
        proof {
            assert((old(s)@ + spec_decimal(v as int / 10, w2 as int)).push(
                digit_char(v as int % 10),
            ) =~= old(s)@ + spec_decimal(v as int, w as int));
        }
    }
}

/// Read one numeric segment body after its mode indicator.
#[verifier::loop_isolation(false)]
fn numeric(chomp: &mut Chomp, version: u32) -> (r: Result<String, QRError>)
    requires
        old(chomp).wf(),
    ensures
        final (chomp).wf(),
        r is Ok <==> spec_numeric(old(chomp).remaining(), version as int) is Some,
        r is Ok ==> {
            &&& r->Ok_0@ == (spec_numeric(old(chomp).remaining(), version as int)->0).0
            &&& final (chomp).remaining() == (spec_numeric(
                old(chomp).remaining(),
                version as int,
            )->0).1
        },
{
    let length_bits: u8 = if 1 <= version && version <= 9 {
        10
    } else if 10 <= version && version <= 26 {
        12
    } else if 27 <= version && version <= 40 {
        14
    } else {
        return Err(QRError { msg: "Unknown version".to_owned() });
    };

    let mut length = match chomp.chomp_or_u16(
        length_bits,
        QRError { msg: "Could not read bits for numeric length".to_owned() },
    ) {
        Ok(l) => l,
        Err(e) => {
            return Err(e);
        },
    };

    let ghost rem1 = chomp.remaining();
    let ghost len1 = length as int;

    let mut result = String::new();

    while length > 0
        invariant
            chomp.wf(),
            spec_numeric_groups(rem1, len1) == (match spec_numeric_groups(
                chomp.remaining(),
                length as int,
            ) {
                None => None::<(Seq<char>, Seq<bool>)>,
                Some((cs, r2)) => Some((result@ + cs, r2)),
            }),
        decreases length,
    {
        if length >= 3 {
            let digits = match read_bits_u16(chomp, 10) {
                Ok(d) => d,
                Err(e) => {
                    return Err(e);
                },
            };
            let ghost before = result@;
            push_decimal(&mut result, digits, 3);
            proof {
                lemma_seq_add_assoc(before, spec_decimal(digits as int, 3));
            }
            length -= 3;
        } else if length == 2 {
            let digits = match read_bits_u16(chomp, 7) {
                Ok(d) => d,
                Err(e) => {
                    return Err(e);
                },
            };
            let ghost before = result@;
            push_decimal(&mut result, digits, 2);
            proof {
                lemma_seq_add_assoc(before, spec_decimal(digits as int, 2));
            }
            length = 0;
        } else {
            let digits = match read_bits_u16(chomp, 4) {
                Ok(d) => d,
                Err(e) => {
                    return Err(e);
                },
            };
            let ghost before = result@;
            push_decimal(&mut result, digits, 1);
            proof {
                lemma_seq_add_assoc(before, spec_decimal(digits as int, 1));
            }
            length = 0;
        }
    }

    proof {
        assert(result@ + Seq::<char>::empty() =~= result@);
    }
    Ok(result)
}

/// Concatenation of character sequences associates.
proof fn lemma_seq_add_assoc(a: Seq<char>, b: Seq<char>)
    ensures
        forall|c: Seq<char>| #[trigger] ((a + b) + c) == a + (b + c),
{
    assert forall|c: Seq<char>| #[trigger] ((a + b) + c) == a + (b + c) by {
        assert((a + b) + c =~= a + (b + c));
    }
}

/// Read one alphanumeric segment body after its mode indicator.
#[verifier::loop_isolation(false)]
fn alphanumeric(chomp: &mut Chomp, version: u32) -> (r: Result<String, QRError>)
    requires
        old(chomp).wf(),
    ensures
        final (chomp).wf(),
        r is Ok <==> spec_alnum(old(chomp).remaining(), version as int) is Some,
        r is Ok ==> {
            &&& r->Ok_0@ == (spec_alnum(old(chomp).remaining(), version as int)->0).0
            &&& final (chomp).remaining() == (spec_alnum(
                old(chomp).remaining(),
                version as int,
            )->0).1
        },
{
    let length_bits: u8 = if 1 <= version && version <= 9 {
        9
    } else if 10 <= version && version <= 26 {
        11
    } else if 27 <= version && version <= 40 {
        13
    } else {
        return Err(QRError { msg: "Unknown version".to_owned() });
    };

    let mut length = match chomp.chomp_or_u16(
        length_bits,
        QRError { msg: "Could not read bits for alphanumeric length".to_owned() },
    ) {
        Ok(l) => l,
        Err(e) => {
            return Err(e);
        },
    };

    let ghost rem1 = chomp.remaining();
    let ghost len1 = length as int;

    let mut result = String::new();

    while length > 0
        invariant
            chomp.wf(),
            spec_alnum_groups(rem1, len1) == (match spec_alnum_groups(
                chomp.remaining(),
                length as int,
            ) {
                None => None::<(Seq<char>, Seq<bool>)>,
                Some((cs, r2)) => Some((result@ + cs, r2)),
            }),
        decreases length,
    {
        if length >= 2 {
            let chars = match read_bits_u16(chomp, 11) {
                Ok(c) => c,
                Err(e) => {
                    return Err(e);
                },
            };
            if chars >= 2025 {
                return Err(QRError { msg: "Invalid alphanumeric pair".to_owned() });
            }
            let ghost before = result@;
            result.push(ALPHANUMERIC[(chars / 45) as usize]);
            result.push(ALPHANUMERIC[(chars % 45) as usize]);
            proof {
                assert((before.push(ALPHANUMERIC[chars as int / 45])).push(
                    ALPHANUMERIC[chars as int % 45],
                ) =~= before + seq![
                    ALPHANUMERIC[chars as int / 45],
                    ALPHANUMERIC[chars as int % 45],
                ]);
                lemma_seq_add_assoc(
                    before,
                    seq![ALPHANUMERIC[chars as int / 45], ALPHANUMERIC[chars as int % 45]],
                );
            }
            length -= 2;
        } else {
            let chars = match read_bits_u16(chomp, 6) {
                Ok(c) => c,
                Err(e) => {
                    return Err(e);
                },
            };
            if chars >= 45 {
                return Err(QRError { msg: "Invalid alphanumeric character".to_owned() });
            }
            let ghost before = result@;
            result.push(ALPHANUMERIC[chars as usize]);
            proof {
                assert(before.push(ALPHANUMERIC[chars as int]) =~= before + seq![
                    ALPHANUMERIC[chars as int],
                ]);
                lemma_seq_add_assoc(before, seq![ALPHANUMERIC[chars as int]]);
            }
            length = 0;
        }
    }

    proof {
        assert(result@ + Seq::<char>::empty() =~= result@);
    }
    Ok(result)
}

/// Read one byte segment body after its mode indicator.
#[verifier::loop_isolation(false)]
fn eight_bit(chomp: &mut Chomp, version: u32) -> (r: Result<String, QRError>)
    requires
        old(chomp).wf(),
    ensures
        final (chomp).wf(),
        r is Ok <==> spec_eight_bit(old(chomp).remaining(), version as int) is Some,
        r is Ok ==> {
            &&& r->Ok_0@ == (spec_eight_bit(old(chomp).remaining(), version as int)->0).0
            &&& final (chomp).remaining() == (spec_eight_bit(
                old(chomp).remaining(),
                version as int,
            )->0).1
        },
{
    let length_bits: u8 = if 1 <= version && version <= 9 {
        8
    } else if 10 <= version && version <= 40 {
        16
    } else {
        return Err(QRError { msg: "Unknown version".to_owned() });
    };

    let mut length = match chomp.chomp_or_u16(
        length_bits,
        QRError { msg: "Could not read bits for byte mode length".to_owned() },
    ) {
        Ok(l) => l,
        Err(e) => {
            return Err(e);
        },
    };

    let ghost rem1 = chomp.remaining();
    let ghost len1 = length as int;

    let mut result = String::new();

    while length > 0
        invariant
            chomp.wf(),
            spec_byte_groups(rem1, len1) == (match spec_byte_groups(
                chomp.remaining(),
                length as int,
            ) {
                None => None::<(Seq<char>, Seq<bool>)>,
                Some((cs, r2)) => Some((result@ + cs, r2)),
            }),
        decreases length,
    {
        let byte = match read_bits(chomp, 8) {
            Ok(b) => b,
            Err(e) => {
                return Err(e);
            },
        };
        let ghost before = result@;
        result.push(byte as char);
        proof {
            assert(before.push(byte as char) =~= before + seq![byte as char]);
            lemma_seq_add_assoc(before, seq![byte as char]);
        }
        length -= 1;
    }

    proof {
        assert(result@ + Seq::<char>::empty() =~= result@);
    }
    Ok(result)
}

/// Read up to eight bits or fail.
fn read_bits(chomp: &mut Chomp, bits: u8) -> (r: Result<u8, QRError>)
    requires
        old(chomp).wf(),
        1 <= bits <= 8,
    ensures
        final (chomp).wf(),
        r is Err <==> bits > old(chomp).remaining().len(),
        r is Err ==> *final (chomp) == *old(chomp),
        r is Ok ==> {
            &&& r->Ok_0 == crate::chomp::bits_value(old(chomp).remaining().take(bits as int))
            &&& final (chomp).remaining() == old(chomp).remaining().skip(bits as int)
        },
{
    chomp.chomp_or(bits, QRError { msg: "Could not read bits".to_owned() })
}

/// Read up to sixteen bits or fail.
fn read_bits_u16(chomp: &mut Chomp, bits: u8) -> (r: Result<u16, QRError>)
    requires
        old(chomp).wf(),
        1 <= bits <= 16,
    ensures
        final (chomp).wf(),
        r is Err <==> bits > old(chomp).remaining().len(),
        r is Ok ==> {
            &&& r->Ok_0 == crate::chomp::bits_value(old(chomp).remaining().take(bits as int))
            &&& final (chomp).remaining() == old(chomp).remaining().skip(bits as int)
        },
{
    chomp.chomp_or_u16(bits, QRError { msg: "Could not read bits".to_owned() })
}

/// Interpret the data codewords of a symbol as text.
///
/// Segments are read until a terminator mode, an unknown mode, or the
/// end of the reservoir; the result is exactly the text the segment
/// grammar assigns to the bits.
#[verifier::loop_isolation(false)]
pub fn data(input: Vec<u8>, version: u32) -> (r: Result<String, QRError>)
    requires
        input@.len() <= usize::MAX / 8,
    ensures
        r is Ok <==> spec_segments(bits_of(input@), version as int) is Some,
        r is Ok ==> r->Ok_0@ == spec_segments(bits_of(input@), version as int)->0,
{
    let ghost bits0 = bits_of(input@);
    let mut chomp = Chomp::new(input);
    let mut result = String::new();
    let mut done = false;

    proof {
        assert(forall|cs: Seq<char>| #[trigger] (Seq::<char>::empty() + cs) == cs) by {
            assert(forall|cs: Seq<char>| #[trigger] (Seq::<char>::empty() + cs) =~= cs);
        }
    }
    while !done
        invariant
            chomp.wf(),
            !done ==> spec_segments(bits0, version as int) == (match spec_segments(
                chomp.remaining(),
                version as int,
            ) {
                None => None::<Seq<char>>,
                Some(cs) => Some(result@ + cs),
            }),
            done ==> spec_segments(bits0, version as int) == Some(result@),
        decreases chomp.remaining().len() + 1 + if done {
            0int
        } else {
            1int
        },
    {
        let ghost rem_before = chomp.remaining();
        match chomp.chomp(4) {
            None => {
                done = true;
            },
            Some(mode) => {
                if mode == 0b0001 {
                    let segment = match numeric(&mut chomp, version) {
                        Ok(s) => s,
                        Err(e) => {
                            return Err(e);
                        },
                    };
                    proof {
                        lemma_segment_shrinks(rem_before.skip(4), version as int);
                    }
                    let ghost before = result@;
                    result.append(segment.as_str());
                    proof {
                        lemma_seq_add_assoc(before, segment@);
                    }
                } else if mode == 0b0010 {
                    let segment = match alphanumeric(&mut chomp, version) {
                        Ok(s) => s,
                        Err(e) => {
                            return Err(e);
                        },
                    };
                    proof {
                        lemma_segment_shrinks(rem_before.skip(4), version as int);
                    }
                    let ghost before = result@;
                    result.append(segment.as_str());
                    proof {
                        lemma_seq_add_assoc(before, segment@);
                    }
                } else if mode == 0b0100 {
                    let segment = match eight_bit(&mut chomp, version) {
                        Ok(s) => s,
                        Err(e) => {
                            return Err(e);
                        },
                    };
                    proof {
                        lemma_segment_shrinks(rem_before.skip(4), version as int);
                    }
                    let ghost before = result@;
                    result.append(segment.as_str());
                    proof {
                        lemma_seq_add_assoc(before, segment@);
                    }
                } else if mode == 0b0000 {
                    done = true;
                } else {
                    return Err(QRError { msg: "Mode not yet implemented".to_owned() });
                }
            },
        }
    }

    proof {
        assert(result@ + Seq::<char>::empty() =~= result@);
    }
    Ok(result)
}

} // verus!
