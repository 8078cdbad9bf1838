//! Floating-point numbers as bit patterns: IEEE 754 binary32 and binary64
//! taken apart by integer arithmetic, and their casts to the integer tags.

use crate::value::extreme;
use crate::value::integer_cast;
use crate::value::saturate;
use crate::value::saturate_integer;
use crate::value::wire;
use crate::value::TypeTag;
use crate::value::TypedValue;
use vstd::arithmetic::div_mod::lemma_basic_div;
use vstd::arithmetic::div_mod::lemma_div_basics_4;
use vstd::arithmetic::mul::lemma_mul_inequality;
use vstd::arithmetic::power2::lemma2_to64;
use vstd::arithmetic::power2::lemma_pow2_adds;
use vstd::arithmetic::power2::lemma_pow2_pos;
use vstd::arithmetic::power2::lemma_pow2_strictly_increases;
use vstd::arithmetic::power2::lemma_pow2_unfold;
use vstd::arithmetic::power2::pow2;
use vstd::prelude::*;

verus! {

/// A binary floating-point number taken apart.
#[derive(Clone, Copy, Debug, PartialEq, Eq, Structural)]
pub enum Binary {
    /// Not a number.
    Nan,
    /// Infinity, above or below all numbers.
    Infinite { negative: bool },
    /// The number `mantissa` times two to the power of `shift`, negated
    /// where `negative` holds.
    Finite { negative: bool, mantissa: u64, shift: i32 },
}

/// The parts of the binary64 number with the given bits: one sign bit,
/// eleven bits of exponent, 52 bits of fraction.
pub open spec fn decode_double(bits: u64) -> Binary {
    let negative = bits >= 0x8000_0000_0000_0000;
    let exponent = (bits / 0x10_0000_0000_0000) % 0x800;
    let fraction = bits % 0x10_0000_0000_0000;
    if exponent == 0x7ff {
        if fraction == 0 {
            Binary::Infinite { negative }
        } else {
            Binary::Nan
        }
    } else if exponent == 0 {
        Binary::Finite { negative, mantissa: fraction, shift: (-1074int) as i32 }
    } else {
        Binary::Finite {
            negative,
            mantissa: (0x10_0000_0000_0000 + fraction) as u64,
            shift: (exponent - 1075) as i32,
        }
    }
}

/// The parts of the binary32 number with the given bits: one sign bit,
/// eight bits of exponent, 23 bits of fraction.
pub open spec fn decode_single(bits: u32) -> Binary {
    let negative = bits >= 0x8000_0000;
    let exponent = (bits / 0x80_0000) % 0x100;
    let fraction = bits % 0x80_0000;
    if exponent == 0xff {
        if fraction == 0 {
            Binary::Infinite { negative }
        } else {
            Binary::Nan
        }
    } else if exponent == 0 {
        Binary::Finite { negative, mantissa: fraction as u64, shift: (-149int) as i32 }
    } else {
        Binary::Finite {
            negative,
            mantissa: (0x80_0000 + fraction) as u64,
            shift: (exponent - 150) as i32,
        }
    }
}

/// The whole part of `mantissa` times two to the power of `shift`.
pub open spec fn whole_part(mantissa: int, shift: int) -> int {
    if shift >= 0 {
        mantissa * pow2(shift as nat)
    } else {
        mantissa / (pow2((-shift) as nat) as int)
    }
}

impl Binary {
    /// The number rounded toward zero; 0 for what is no finite number.
    pub open spec fn integer_part(self) -> int {
        match self {
            Binary::Finite { negative, mantissa, shift } => if negative {
                -whole_part(mantissa as int, shift as int)
            } else {
                whole_part(mantissa as int, shift as int)
            },
            _ => 0,
        }
    }

    /// What the cast of the number to the integer tag `tag` gives: the
    /// number rounded toward zero, or the end of the tag's range that is
    /// nearest to it, and 0 for what is not a number.
    pub open spec fn cast(self, tag: TypeTag) -> int {
        match self {
            Binary::Nan => 0,
            Binary::Infinite { negative } => if negative {
                tag.lowest()
            } else {
                tag.highest()
            },
            Binary::Finite { .. } => saturate(self.integer_part(), tag),
        }
    }
}

/// Takes the bits of a binary64 number apart.
pub fn double_parts(bits: u64) -> (b: Binary)
    ensures
        b == decode_double(bits),
{
    let negative: bool = bits >= 0x8000_0000_0000_0000;
    let exponent: u64 = (bits / 0x10_0000_0000_0000) % 0x800;
    let fraction: u64 = bits % 0x10_0000_0000_0000;
    if exponent == 0x7ff {
        if fraction == 0 {
            Binary::Infinite { negative }
        } else {
            Binary::Nan
        }
    } else if exponent == 0 {
        Binary::Finite { negative, mantissa: fraction, shift: -1074 }
    } else {
        Binary::Finite {
            negative,
            mantissa: 0x10_0000_0000_0000 + fraction,
            shift: exponent as i32 - 1075,
        }
    }
}

/// Takes the bits of a binary32 number apart.
pub fn single_parts(bits: u32) -> (b: Binary)
    ensures
        b == decode_single(bits),
{
    let negative: bool = bits >= 0x8000_0000;
    let exponent: u32 = (bits / 0x80_0000) % 0x100;
    let fraction: u32 = bits % 0x80_0000;
    if exponent == 0xff {
        if fraction == 0 {
            Binary::Infinite { negative }
        } else {
            Binary::Nan
        }
    } else if exponent == 0 {
        Binary::Finite { negative, mantissa: fraction as u64, shift: -149 }
    } else {
        Binary::Finite {
            negative,
            mantissa: (0x80_0000 + fraction) as u64,
            shift: exponent as i32 - 150,
        }
    }
}

/// Two to the power of 128 is one more than the largest `u128`.
proof fn lemma_pow2_128()
    ensures
        pow2(128) == 0x1_0000_0000_0000_0000_0000_0000_0000_0000,
        pow2(64) == 0x1_0000_0000_0000_0000,
{
    lemma2_to64();
    lemma_pow2_adds(64, 64);
    assert(0x1_0000_0000_0000_0000int * 0x1_0000_0000_0000_0000int
        == 0x1_0000_0000_0000_0000_0000_0000_0000_0000int) by (nonlinear_arith);
}

/// Two to the power of `e`.
fn power_of_two(e: u32) -> (r: u128)
    requires
        e < 128,
    ensures
        r == pow2(e as nat),
        r >= 1,
{
    let mut r: u128 = 1;
    let mut i: u32 = 0;
    proof {
        lemma2_to64();
    }
    while i < e
        invariant
            i <= e,
            e < 128,
            r == pow2(i as nat),
            r >= 1,
        decreases e - i,
    {
        proof {
            lemma_pow2_unfold((i + 1) as nat);
            lemma_pow2_strictly_increases((i + 1) as nat, 128);
            lemma_pow2_128();
        }
        r = r * 2;
        i = i + 1;
    }
    r
}

/// The whole part of a mantissa times a power of two, as far as it is below
/// two to the power of 128; `None` where it is not.
fn whole_magnitude(mantissa: u64, shift: i32) -> (r: Option<u128>)
    ensures
        r is Some <==> whole_part(mantissa as int, shift as int) <= u128::MAX,
        r is Some ==> r->0 == whole_part(mantissa as int, shift as int),
        whole_part(mantissa as int, shift as int) >= 0,
{
    if mantissa == 0 {
        proof {
            if shift >= 0 {
                assert(0 * pow2(shift as nat) == 0);
            } else {
                lemma_pow2_pos((-shift) as nat);
                lemma_basic_div(0, pow2((-shift) as nat) as int);
            }
        }
        Some(0)
    } else if shift >= 128 {
        proof {
            lemma_pow2_128();
            if shift > 128 {
                lemma_pow2_strictly_increases(128, shift as nat);
            }
            lemma_mul_inequality(1, mantissa as int, pow2(shift as nat) as int);
        }
        None
    } else if shift >= 0 {
        let p: u128 = power_of_two(shift as u32);
        (mantissa as u128).checked_mul(p)
    } else if shift <= -64 {
        proof {
            lemma_pow2_128();
            if shift < -64 {
                lemma_pow2_strictly_increases(64, (-shift) as nat);
            }
            lemma_basic_div(mantissa as int, pow2((-shift) as nat) as int);
        }
        Some(0)
    } else {
        let p: u128 = power_of_two((-shift) as u32);
        proof {
            lemma_div_basics_4(mantissa as int, p as int);
        }
        Some(mantissa as u128 / p)
    }
}

/// Casts a floating-point number to the integer tag `tag`: the number
/// rounded toward zero where the tag has that value, else the end of the
/// tag's range that is nearest, and 0 for what is not a number. `None` for a
/// tag that is no integer tag.
pub fn float_to_integer(b: Binary, tag: TypeTag) -> (r: Option<TypedValue>)
    ensures
        wire(r) == integer_cast(b.cast(tag), tag),
{
    match b {
        Binary::Nan => saturate_integer(0, tag),
        Binary::Infinite { negative } => extreme(tag, !negative),
        Binary::Finite { negative, mantissa, shift } => {
            match whole_magnitude(mantissa, shift) {
                None => extreme(tag, !negative),
                Some(m) => {
                    if negative {
                        if m > 0x8000_0000_0000_0000_0000_0000_0000_0000 {
                            extreme(tag, false)
                        } else if m == 0x8000_0000_0000_0000_0000_0000_0000_0000 {
                            saturate_integer(i128::MIN, tag)
                        } else {
                            saturate_integer(-(m as i128), tag)
                        }
                    } else if m > 0x7fff_ffff_ffff_ffff_ffff_ffff_ffff_ffff {
                        if tag == TypeTag::U128 {
                            Some(TypedValue::U128(m))
                        } else {
                            extreme(tag, true)
                        }
                    } else {
                        saturate_integer(m as i128, tag)
                    }
                },
            }
        },
    }
}

} // verus!
