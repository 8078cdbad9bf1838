//! The coercion engine: from a value as a driver delivers it and the type
//! pattern that the schema asks for to a typed wire value, or to nothing.

use crate::calendar::epoch_seconds;
use crate::calendar::seconds_since_epoch;
use crate::calendar::valid_date_time;
use crate::float::decode_double;
use crate::float::decode_single;
use crate::float::double_parts;
use crate::float::float_to_integer;
use crate::float::single_parts;
use crate::sink::Sink;
use crate::text::text_of_bytes;
use crate::value::wire;
use crate::value::wrap;
use crate::value::wrap_integer;
use crate::value::Number;
use crate::value::TypeTag;
use crate::value::TypedValue;
use crate::value::WireValue;
use vstd::prelude::*;
use vstd::utf8::decode_utf8;
use vstd::utf8::valid_utf8;

verus! {

/// A column value as a driver delivers it.
#[derive(Clone, Debug, PartialEq, Eq)]
pub enum NativeValue {
    /// The column holds no value.
    Null,
    /// Text or binary data.
    Bytes(Vec<u8>),
    /// A signed integer.
    Int(i64),
    /// An unsigned integer.
    UInt(u64),
    /// A floating-point number of single width, by its bits.
    Float(u32),
    /// A floating-point number of double width, by its bits.
    Double(u64),
    /// A moment of the calendar.
    Date { year: u16, month: u8, day: u8, hour: u8, minute: u8, second: u8, micros: u32 },
    /// Any other kind of value.
    Other,
}

/// The wire value of the numeric tag `tag` for the number `n`: an integer
/// is cast by its low bits, a floating-point number is rounded toward zero
/// and kept in the tag's range, and under a floating-point tag the number
/// itself is kept.
pub open spec fn numeric(n: Number, tag: TypeTag) -> WireValue {
    if tag.is_integer() {
        match n {
            Number::Integer(v) => WireValue::Integer(tag, wrap(v as int, tag)),
            Number::Single(bits) => WireValue::Integer(tag, decode_single(bits).cast(tag)),
            Number::Double(bits) => WireValue::Integer(tag, decode_double(bits).cast(tag)),
        }
    } else {
        WireValue::Float(tag, n)
    }
}

/// What the number `n` gives under the tag `tag`: nothing under a tag that
/// is not numeric.
pub open spec fn numeric_cast(n: Number, tag: TypeTag) -> Option<WireValue> {
    if tag.is_numeric() {
        Some(numeric(n, tag))
    } else {
        None
    }
}

/// The rule of coercion: what a native value gives under a type pattern,
/// `None` where the column is to be passed over.
pub open spec fn coerced(value: NativeValue, tag: TypeTag) -> Option<WireValue> {
    match value {
        NativeValue::Null => None,
        NativeValue::Bytes(b) => if tag.is_text() && valid_utf8(b@) {
            Some(WireValue::Text(tag, decode_utf8(b@)))
        } else {
            None
        },
        NativeValue::Int(v) => numeric_cast(Number::Integer(v as i128), tag),
        NativeValue::UInt(v) => numeric_cast(Number::Integer(v as i128), tag),
        NativeValue::Float(bits) => numeric_cast(Number::Single(bits), tag),
        NativeValue::Double(bits) => numeric_cast(Number::Double(bits), tag),
        NativeValue::Date { year, month, day, hour, minute, second, micros } => if tag is U32
            && valid_date_time(
            year as int,
            month as int,
            day as int,
            hour as int,
            minute as int,
            second as int,
        ) {
            Some(
                WireValue::Integer(
                    tag,
                    wrap(
                        epoch_seconds(
                            year as nat,
                            month as nat,
                            day as int,
                            hour as int,
                            minute as int,
                            second as int,
                        ),
                        tag,
                    ),
                ),
            )
        } else {
            None
        },
        NativeValue::Other => None,
    }
}

/// The pair of a name and a value as a sequence: empty where there is no
/// value.
pub open spec fn named(name: Seq<char>, value: Option<WireValue>) -> Seq<(Seq<char>, WireValue)> {
    match value {
        Some(w) => seq![(name, w)],
        None => Seq::empty(),
    }
}

/// Casts a number to a numeric tag. `None` for a tag that is not numeric.
pub fn cast_number(n: Number, tag: TypeTag) -> (r: Option<TypedValue>)
    ensures
        wire(r) == numeric_cast(n, tag),
{
    match tag {
        TypeTag::F32 => Some(TypedValue::F32(n)),
        TypeTag::F64 => Some(TypedValue::F64(n)),
        _ => match n {
            Number::Integer(v) => wrap_integer(v, tag),
            Number::Single(bits) => float_to_integer(single_parts(bits), tag),
            Number::Double(bits) => float_to_integer(double_parts(bits), tag),
        },
    }
}

/// Appends the number `val`, cast to the tag `tag`, to the sink under the
/// name `name`. Under a tag that is not numeric nothing is appended.
pub fn fill_num_val(sink: &mut Sink, name: &str, tag: TypeTag, val: Number)
    ensures
        final(sink)@ == old(sink)@ + named(name@, numeric_cast(val, tag)),
{
    match cast_number(val, tag) {
        Some(t) => {
            sink.put(name.to_owned(), t);
            assert(sink@ =~= old(sink)@ + named(name@, numeric_cast(val, tag)));
        },
        None => {
            assert(sink@ =~= old(sink)@ + named(name@, numeric_cast(val, tag)));
        },
    }
}

/// Coerces a native value to the type pattern `tag`. `None` where the rule
/// of coercion passes the column over.
pub fn coerce(value: &NativeValue, tag: TypeTag) -> (r: Option<TypedValue>)
    ensures
        wire(r) == coerced(*value, tag),
{
    match value {
        NativeValue::Null => None,
        NativeValue::Bytes(b) => {
            match tag {
                TypeTag::Str => match text_of_bytes(b.as_slice()) {
                    Some(s) => Some(TypedValue::Str(s.to_owned())),
                    None => None,
                },
                TypeTag::Obj => match text_of_bytes(b.as_slice()) {
                    Some(s) => Some(TypedValue::Obj(s.to_owned())),
                    None => None,
                },
                _ => None,
            }
        },
        NativeValue::Int(v) => cast_number(Number::Integer(*v as i128), tag),
        NativeValue::UInt(v) => cast_number(Number::Integer(*v as i128), tag),
        NativeValue::Float(bits) => cast_number(Number::Single(*bits), tag),
        NativeValue::Double(bits) => cast_number(Number::Double(*bits), tag),
        NativeValue::Date { year, month, day, hour, minute, second, micros } => {
            match tag {
                TypeTag::U32 => match seconds_since_epoch(
                    *year,
                    *month,
                    *day,
                    *hour,
                    *minute,
                    *second,
                ) {
                    Some(secs) => wrap_integer(secs as i128, tag),
                    None => None,
                },
                _ => None,
            }
        },
        NativeValue::Other => None,
    }
}

/// Whatever the rule of coercion gives bears the tag that was asked for, and
/// is well formed: an integer lies in the range of its tag.
pub proof fn lemma_coerced_bears_tag(value: NativeValue, tag: TypeTag)
    ensures
        coerced(value, tag) matches Some(w) ==> w.tag() == tag && w.wf(),
{
}

/// A native number, integer or floating-point, is coerced under every
/// numeric tag, and the value that comes out bears that tag.
pub proof fn lemma_number_takes_numeric_tag(value: NativeValue, tag: TypeTag)
    requires
        value is Int || value is UInt || value is Float || value is Double,
        tag.is_numeric(),
    ensures
        coerced(value, tag) is Some,
        coerced(value, tag)->0.tag() == tag,
{
}

} // verus!
