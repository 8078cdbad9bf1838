//! Type-pattern tags, typed wire values, and the casts between integers.

use vstd::arithmetic::div_mod::lemma_fundamental_div_mod;
use vstd::arithmetic::div_mod::lemma_fundamental_div_mod_converse_mod;
use vstd::prelude::*;

verus! {

/// The target wire type that a schema declares for a column.
#[derive(Clone, Copy, Debug, PartialEq, Eq, Structural)]
pub enum TypeTag {
    U8,
    I8,
    U16,
    I16,
    U32,
    I32,
    U64,
    I64,
    U128,
    I128,
    F32,
    F64,
    Str,
    Obj,
}

impl TypeTag {
    /// One of the ten integer tags.
    pub open spec fn is_integer(self) -> bool {
        !(self is F32 || self is F64 || self is Str || self is Obj)
    }

    /// One of the two floating-point tags.
    pub open spec fn is_float(self) -> bool {
        self is F32 || self is F64
    }

    /// An integer or a floating-point tag.
    pub open spec fn is_numeric(self) -> bool {
        self.is_integer() || self.is_float()
    }

    /// The string tag or the object-identifier tag.
    pub open spec fn is_text(self) -> bool {
        self is Str || self is Obj
    }

    /// Smallest value of an integer tag; 0 for the other tags.
    pub open spec fn lowest(self) -> int {
        match self {
            TypeTag::I8 => -0x80,
            TypeTag::I16 => -0x8000,
            TypeTag::I32 => -0x8000_0000,
            TypeTag::I64 => -0x8000_0000_0000_0000,
            TypeTag::I128 => -0x8000_0000_0000_0000_0000_0000_0000_0000,
            _ => 0,
        }
    }

    /// Largest value of an integer tag; 0 for the other tags.
    pub open spec fn highest(self) -> int {
        match self {
            TypeTag::U8 => 0xff,
            TypeTag::I8 => 0x7f,
            TypeTag::U16 => 0xffff,
            TypeTag::I16 => 0x7fff,
            TypeTag::U32 => 0xffff_ffff,
            TypeTag::I32 => 0x7fff_ffff,
            TypeTag::U64 => 0xffff_ffff_ffff_ffff,
            TypeTag::I64 => 0x7fff_ffff_ffff_ffff,
            TypeTag::U128 => 0xffff_ffff_ffff_ffff_ffff_ffff_ffff_ffff,
            TypeTag::I128 => 0x7fff_ffff_ffff_ffff_ffff_ffff_ffff_ffff,
            _ => 0,
        }
    }

    /// How many values an integer tag has: two to the power of its width;
    /// 1 for the other tags.
    pub open spec fn modulus(self) -> int {
        match self {
            TypeTag::U8 | TypeTag::I8 => 0x100,
            TypeTag::U16 | TypeTag::I16 => 0x1_0000,
            TypeTag::U32 | TypeTag::I32 => 0x1_0000_0000,
            TypeTag::U64 | TypeTag::I64 => 0x1_0000_0000_0000_0000,
            TypeTag::U128 | TypeTag::I128 => 0x1_0000_0000_0000_0000_0000_0000_0000_0000int,
            _ => 1,
        }
    }

    /// Whether `v` lies in the range of this integer tag.
    pub open spec fn holds(self, v: int) -> bool {
        self.is_integer() && self.lowest() <= v <= self.highest()
    }
}

/// A number as a driver delivers it: an integer, or a floating-point number
/// given by its bits. A floating-point wire value holds the number that it
/// stands for: on the wire goes the float of the tag's width nearest to it.
#[derive(Clone, Copy, Debug, PartialEq, Eq, Structural)]
pub enum Number {
    /// An integer.
    Integer(i128),
    /// The bits of an IEEE 754 binary32 number.
    Single(u32),
    /// The bits of an IEEE 754 binary64 number.
    Double(u64),
}

/// A value of one of the wire types.
#[derive(Clone, Debug, PartialEq, Eq)]
pub enum TypedValue {
    U8(u8),
    I8(i8),
    U16(u16),
    I16(i16),
    U32(u32),
    I32(i32),
    U64(u64),
    I64(i64),
    U128(u128),
    I128(i128),
    F32(Number),
    F64(Number),
    Str(String),
    Obj(String),
}

/// What a `TypedValue` says: its tag and, by the kind of the tag, an
/// integer, the number behind a float, or a text.
pub enum WireValue {
    Integer(TypeTag, int),
    Float(TypeTag, Number),
    Text(TypeTag, Seq<char>),
}

impl WireValue {
    /// The tag under which the value travels.
    pub open spec fn tag(self) -> TypeTag {
        match self {
            WireValue::Integer(t, _) => t,
            WireValue::Float(t, _) => t,
            WireValue::Text(t, _) => t,
        }
    }

    /// The payload is of the kind of the tag, and an integer is in the
    /// range of its tag.
    pub open spec fn wf(self) -> bool {
        match self {
            WireValue::Integer(t, v) => t.holds(v),
            WireValue::Float(t, _) => t.is_float(),
            WireValue::Text(t, _) => t.is_text(),
        }
    }
}

impl View for TypedValue {
    type V = WireValue;

    open spec fn view(&self) -> WireValue {
        match *self {
            TypedValue::U8(v) => WireValue::Integer(TypeTag::U8, v as int),
            TypedValue::I8(v) => WireValue::Integer(TypeTag::I8, v as int),
            TypedValue::U16(v) => WireValue::Integer(TypeTag::U16, v as int),
            TypedValue::I16(v) => WireValue::Integer(TypeTag::I16, v as int),
            TypedValue::U32(v) => WireValue::Integer(TypeTag::U32, v as int),
            TypedValue::I32(v) => WireValue::Integer(TypeTag::I32, v as int),
            TypedValue::U64(v) => WireValue::Integer(TypeTag::U64, v as int),
            TypedValue::I64(v) => WireValue::Integer(TypeTag::I64, v as int),
            TypedValue::U128(v) => WireValue::Integer(TypeTag::U128, v as int),
            TypedValue::I128(v) => WireValue::Integer(TypeTag::I128, v as int),
            TypedValue::F32(s) => WireValue::Float(TypeTag::F32, s),
            TypedValue::F64(s) => WireValue::Float(TypeTag::F64, s),
            TypedValue::Str(s) => WireValue::Text(TypeTag::Str, s@),
            TypedValue::Obj(s) => WireValue::Text(TypeTag::Obj, s@),
        }
    }
}

impl TypedValue {
    /// The tag of the value.
    pub fn tag(&self) -> (t: TypeTag)
        ensures
            t == self@.tag(),
    {
        match self {
            TypedValue::U8(_) => TypeTag::U8,
            TypedValue::I8(_) => TypeTag::I8,
            TypedValue::U16(_) => TypeTag::U16,
            TypedValue::I16(_) => TypeTag::I16,
            TypedValue::U32(_) => TypeTag::U32,
            TypedValue::I32(_) => TypeTag::I32,
            TypedValue::U64(_) => TypeTag::U64,
            TypedValue::I64(_) => TypeTag::I64,
            TypedValue::U128(_) => TypeTag::U128,
            TypedValue::I128(_) => TypeTag::I128,
            TypedValue::F32(_) => TypeTag::F32,
            TypedValue::F64(_) => TypeTag::F64,
            TypedValue::Str(_) => TypeTag::Str,
            TypedValue::Obj(_) => TypeTag::Obj,
        }
    }
}

/// What an optional typed value says.
pub open spec fn wire(value: Option<TypedValue>) -> Option<WireValue> {
    match value {
        Some(t) => Some(t@),
        None => None,
    }
}

/// The integer `v` under the tag `tag`; nothing under a tag that is no
/// integer tag.
pub open spec fn integer_cast(v: int, tag: TypeTag) -> Option<WireValue> {
    if tag.is_integer() {
        Some(WireValue::Integer(tag, v))
    } else {
        None
    }
}

/// The value of the integer tag `tag` that is congruent to `v` modulo the
/// number of values of the tag: what a cast that keeps the low bits gives.
pub open spec fn wrap(v: int, tag: TypeTag) -> int {
    match tag {
        TypeTag::U8 => v % 0x100,
        TypeTag::I8 => (v + 0x80) % 0x100 - 0x80,
        TypeTag::U16 => v % 0x1_0000,
        TypeTag::I16 => (v + 0x8000) % 0x1_0000 - 0x8000,
        TypeTag::U32 => v % 0x1_0000_0000,
        TypeTag::I32 => (v + 0x8000_0000) % 0x1_0000_0000 - 0x8000_0000,
        TypeTag::U64 => v % 0x1_0000_0000_0000_0000,
        TypeTag::I64 => (v + 0x8000_0000_0000_0000) % 0x1_0000_0000_0000_0000
            - 0x8000_0000_0000_0000,
        TypeTag::U128 => v % 0x1_0000_0000_0000_0000_0000_0000_0000_0000int,
        TypeTag::I128 => (v + 0x8000_0000_0000_0000_0000_0000_0000_0000)
            % 0x1_0000_0000_0000_0000_0000_0000_0000_0000int
            - 0x8000_0000_0000_0000_0000_0000_0000_0000,
        _ => 0,
    }
}

/// The value of the integer tag `tag` that is nearest to `v`.
pub open spec fn saturate(v: int, tag: TypeTag) -> int {
    if v < tag.lowest() {
        tag.lowest()
    } else if v > tag.highest() {
        tag.highest()
    } else {
        v
    }
}

/// The value congruent to `v` modulo `modulus` in the half below zero and
/// the half from zero on.
fn signed_part(v: i128, modulus: u128) -> (w: i128)
    requires
        0 < modulus <= 0x1_0000_0000_0000_0000,
        modulus % 2 == 0,
    ensures
        -(modulus / 2) <= w < modulus / 2,
        (w - v) % (modulus as int) == 0,
{
    let low: u128 = low_part(v, modulus);
    let w: i128 = if low >= modulus / 2 {
        low as i128 - modulus as i128
    } else {
        low as i128
    };
    proof {
        let m: int = modulus as int;
        let q: int = (v as int) / m;
        lemma_fundamental_div_mod(v as int, m);
        if low >= modulus / 2 {
            assert(w - v == (-q - 1) * m + 0) by (nonlinear_arith)
                requires
                    v == m * q + low,
                    w == low - m,
            ;
            lemma_fundamental_div_mod_converse_mod(w - v, m, -q - 1, 0);
        } else {
            assert(w - v == (-q) * m + 0) by (nonlinear_arith)
                requires
                    v == m * q + low,
                    w == low,
            ;
            lemma_fundamental_div_mod_converse_mod(w - v, m, -q, 0);
        }
    }
    w
}

/// `v` modulo `modulus`, never negative.
fn low_part(v: i128, modulus: u128) -> (r: u128)
    requires
        0 < modulus <= 0x1_0000_0000_0000_0000,
    ensures
        r as int == (v as int) % (modulus as int),
        r < modulus,
{
    if v >= 0 {
        (v as u128) % modulus
    } else {
        let a: u128 = (-(v + 1)) as u128;
        let s: u128 = a % modulus;
        proof {
            let m: int = modulus as int;
            let q: int = (a as int) / m;
            lemma_fundamental_div_mod(a as int, m);
            assert((-q - 1) * m + (m - 1 - s) == -(m * q + s) - 1) by (nonlinear_arith);
            lemma_fundamental_div_mod_converse_mod(v as int, m, -q - 1, m - 1 - s);
        }
        modulus - 1 - s
    }
}

/// A value of the tag that differs from `v` by a multiple of the number of
/// values of the tag is the one that `wrap` names.
pub proof fn lemma_wrap_unique(v: int, w: int, k: int, tag: TypeTag)
    requires
        tag.holds(w),
        w == v + k * tag.modulus(),
    ensures
        wrap(v, tag) == w,
{
    let m: int = tag.modulus();
    assert(v - tag.lowest() == (-k) * m + (w - tag.lowest())) by (nonlinear_arith)
        requires
            w == v + k * m,
    ;
    lemma_fundamental_div_mod_converse_mod(v - tag.lowest(), m, -k, w - tag.lowest());
    assert(wrap(v, tag) == tag.lowest() + (v - tag.lowest()) % m);
}

/// Casts `v` to the integer tag `tag`, keeping the low bits as a cast
/// between integer types does. `None` for a tag that is no integer tag.
pub fn wrap_integer(v: i128, tag: TypeTag) -> (r: Option<TypedValue>)
    ensures
        wire(r) == integer_cast(wrap(v as int, tag), tag),
{
    match tag {
        TypeTag::U8 => {
            let low: u128 = low_part(v, 0x100);
            Some(TypedValue::U8(low as u8))
        },
        TypeTag::I8 => {
            let w: i128 = signed_part(v, 0x100);
            proof {
                lemma_fundamental_div_mod(w - v, 0x100);
                lemma_wrap_unique(v as int, w as int, (w - v) / 0x100, tag);
            }
            Some(TypedValue::I8(w as i8))
        },
        TypeTag::U16 => {
            let low: u128 = low_part(v, 0x1_0000);
            Some(TypedValue::U16(low as u16))
        },
        TypeTag::I16 => {
            let w: i128 = signed_part(v, 0x1_0000);
            proof {
                lemma_fundamental_div_mod(w - v, 0x1_0000);
                lemma_wrap_unique(v as int, w as int, (w - v) / 0x1_0000, tag);
            }
            Some(TypedValue::I16(w as i16))
        },
        TypeTag::U32 => {
            let low: u128 = low_part(v, 0x1_0000_0000);
            Some(TypedValue::U32(low as u32))
        },
        TypeTag::I32 => {
            let w: i128 = signed_part(v, 0x1_0000_0000);
            proof {
                lemma_fundamental_div_mod(w - v, 0x1_0000_0000);
                lemma_wrap_unique(v as int, w as int, (w - v) / 0x1_0000_0000, tag);
            }
            Some(TypedValue::I32(w as i32))
        },
        TypeTag::U64 => {
            let low: u128 = low_part(v, 0x1_0000_0000_0000_0000);
            Some(TypedValue::U64(low as u64))
        },
        TypeTag::I64 => {
            let w: i128 = signed_part(v, 0x1_0000_0000_0000_0000);
            proof {
                lemma_fundamental_div_mod(w - v, 0x1_0000_0000_0000_0000);
                lemma_wrap_unique(v as int, w as int, (w - v) / 0x1_0000_0000_0000_0000, tag);
            }
            Some(TypedValue::I64(w as i64))
        },
        TypeTag::U128 => {
            if v >= 0 {
                proof {
                    lemma_wrap_unique(v as int, v as int, 0, tag);
                }
                Some(TypedValue::U128(v as u128))
            } else {
                let up: u128 = (v - i128::MIN) as u128;
                let w: u128 = up + 0x8000_0000_0000_0000_0000_0000_0000_0000;
                proof {
                    lemma_wrap_unique(v as int, w as int, 1, tag);
                }
                Some(TypedValue::U128(w))
            }
        },
        TypeTag::I128 => {
            proof {
                lemma_wrap_unique(v as int, v as int, 0, tag);
            }
            Some(TypedValue::I128(v))
        },
        _ => None,
    }
}

/// Casts `v` to the integer tag `tag`, taking the end of the tag's range
/// that is nearest where `v` lies outside it. `None` for a tag that is no
/// integer tag.
pub fn saturate_integer(v: i128, tag: TypeTag) -> (r: Option<TypedValue>)
    ensures
        wire(r) == integer_cast(saturate(v as int, tag), tag),
{
    match tag {
        TypeTag::U8 => Some(
            TypedValue::U8(
                if v < 0 {
                    0
                } else if v > 0xff {
                    0xff
                } else {
                    v as u8
                },
            ),
        ),
        TypeTag::I8 => Some(
            TypedValue::I8(
                if v < -0x80 {
                    -0x80
                } else if v > 0x7f {
                    0x7f
                } else {
                    v as i8
                },
            ),
        ),
        TypeTag::U16 => Some(
            TypedValue::U16(
                if v < 0 {
                    0
                } else if v > 0xffff {
                    0xffff
                } else {
                    v as u16
                },
            ),
        ),
        TypeTag::I16 => Some(
            TypedValue::I16(
                if v < -0x8000 {
                    -0x8000
                } else if v > 0x7fff {
                    0x7fff
                } else {
                    v as i16
                },
            ),
        ),
        TypeTag::U32 => Some(
            TypedValue::U32(
                if v < 0 {
                    0
                } else if v > 0xffff_ffff {
                    0xffff_ffff
                } else {
                    v as u32
                },
            ),
        ),
        TypeTag::I32 => Some(
            TypedValue::I32(
                if v < -0x8000_0000 {
                    -0x8000_0000
                } else if v > 0x7fff_ffff {
                    0x7fff_ffff
                } else {
                    v as i32
                },
            ),
        ),
        TypeTag::U64 => Some(
            TypedValue::U64(
                if v < 0 {
                    0
                } else if v > 0xffff_ffff_ffff_ffff {
                    0xffff_ffff_ffff_ffff
                } else {
                    v as u64
                },
            ),
        ),
        TypeTag::I64 => Some(
            TypedValue::I64(
                if v < -0x8000_0000_0000_0000 {
                    -0x8000_0000_0000_0000
                } else if v > 0x7fff_ffff_ffff_ffff {
                    0x7fff_ffff_ffff_ffff
                } else {
                    v as i64
                },
            ),
        ),
        TypeTag::U128 => Some(
            TypedValue::U128(
                if v < 0 {
                    0
                } else {
                    v as u128
                },
            ),
        ),
        TypeTag::I128 => Some(TypedValue::I128(v)),
        _ => None,
    }
}

/// The smallest value of an integer tag, or its largest. `None` for a tag
/// that is no integer tag.
pub fn extreme(tag: TypeTag, largest: bool) -> (r: Option<TypedValue>)
    ensures
        largest ==> wire(r) == integer_cast(tag.highest(), tag),
        !largest ==> wire(r) == integer_cast(tag.lowest(), tag),
{
    if tag == TypeTag::U128 && largest {
        Some(TypedValue::U128(u128::MAX))
    } else if largest {
        saturate_integer(i128::MAX, tag)
    } else {
        saturate_integer(i128::MIN, tag)
    }
}

} // verus!
