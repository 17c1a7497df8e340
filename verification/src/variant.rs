//! COM variant values as the bridge reads and writes them, and the
//! conversions between them, JSON arguments and plain cell text.

use vstd::prelude::*;
use crate::json::{JsonNumber, JsonValue};
use crate::text::{i32_text, int_text};

verus! {

/// The kinds of COM `VARIANT` that the bridge tells apart, with their
/// payloads. `H` is the type of a handle to a COM dispatch object.
#[derive(Debug, Clone, PartialEq)]
pub enum VariantValue<H> {
    /// `VT_BSTR`: a string.
    Text(String),
    /// `VT_I4`: a 32-bit integer.
    Int(i32),
    /// `VT_R8`: a double, held as its IEEE-754 bits.
    Real(u64),
    /// `VT_BOOL`: the raw `VARIANT_BOOL` (0 is false, anything else true).
    Bool(i16),
    /// `VT_EMPTY`.
    Empty,
    /// `VT_NULL`.
    Null,
    /// `VT_DISPATCH`, with the object pointer when it is not null.
    Dispatch(Option<H>),
    /// Any other variant type.
    Other,
}

/// The plain text of a cell value. A double is handed back as its bits,
/// for the host to format.
#[derive(Debug, Clone, PartialEq)]
pub enum PlainText {
    Text(String),
    Real(u64),
}

/// The text that a variant other than a double reads as.
pub open spec fn plain_text_spec<H>(v: VariantValue<H>) -> Seq<char> {
    match v {
        VariantValue::Text(s) => s@,
        VariantValue::Int(i) => int_text(i as int),
        VariantValue::Bool(raw) => if raw != 0 { "true"@ } else { "false"@ },
        VariantValue::Empty => Seq::empty(),
        VariantValue::Null => Seq::empty(),
        _ => "[variant]"@,
    }
}

/// The `VARIANT_BOOL` that stands for a boolean: -1 for true, 0 for false.
pub open spec fn variant_bool(b: bool) -> i16 {
    if b { -1i16 } else { 0i16 }
}

/// The variant that a JSON argument is passed to COM as.
pub open spec fn variant_of_json<H>(j: JsonValue) -> VariantValue<H> {
    match j {
        JsonValue::Str(s) => VariantValue::Text(s),
        JsonValue::Number(n) => match n.i64_reading() {
            Some(i) => VariantValue::Int(i as i32),
            None => match n.f64_bits_reading() {
                Some(bits) => VariantValue::Real(bits),
                None => VariantValue::Empty,
            },
        },
        JsonValue::Bool(b) => VariantValue::Bool(variant_bool(b)),
        JsonValue::Null => VariantValue::Null,
        _ => VariantValue::Empty,
    }
}

/// The plain text of a variant, as the cell monitor compares and reports it:
/// strings as they are, integers in decimal, booleans as `true`/`false`,
/// empty and null as the empty text, anything else as `[variant]`.
pub fn variant_to_plain_string<H>(v: &VariantValue<H>) -> (r: PlainText)
    ensures
        match *v {
            VariantValue::Real(bits) => r == PlainText::Real(bits),
            _ => r matches PlainText::Text(t) && t@ == plain_text_spec(*v),
        },
{
    match v {
        VariantValue::Text(s) => PlainText::Text(s.clone()),
        VariantValue::Int(i) => PlainText::Text(i32_text(*i)),
        VariantValue::Real(bits) => PlainText::Real(*bits),
        VariantValue::Bool(raw) => {
            if *raw != 0 {
                PlainText::Text(String::from_str("true"))
            } else {
                PlainText::Text(String::from_str("false"))
            }
        },
        VariantValue::Empty => PlainText::Text(String::new()),
        VariantValue::Null => PlainText::Text(String::new()),
        _ => PlainText::Text(String::from_str("[variant]")),
    }
}

/// The variant that a JSON value is passed as: a string as a `BSTR`, a
/// number with a signed 64-bit reading as `VT_I4` (its low 32 bits), another
/// number as `VT_R8`, a boolean as `VT_BOOL`, null as `VT_NULL`, and arrays
/// and objects as `VT_EMPTY`.
pub fn json_to_variant<H>(j: &JsonValue) -> (r: VariantValue<H>)
    ensures
        r == variant_of_json::<H>(*j),
{
    match j {
        JsonValue::Str(s) => VariantValue::Text(s.clone()),
        JsonValue::Number(n) => number_to_variant(n),
        JsonValue::Bool(b) => VariantValue::Bool(if *b { -1 } else { 0 }),
        JsonValue::Null => VariantValue::Null,
        _ => VariantValue::Empty,
    }
}

fn number_to_variant<H>(n: &JsonNumber) -> (r: VariantValue<H>)
    ensures
        r == variant_of_json::<H>(JsonValue::Number(*n)),
{
    match n.as_i64() {
        Some(i) => VariantValue::Int(#[verifier::truncate] (i as i32)),
        None => match n.as_f64_bits() {
            Some(bits) => VariantValue::Real(bits),
            None => VariantValue::Empty,
        },
    }
}

} // verus!
