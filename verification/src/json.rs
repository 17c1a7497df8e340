//! A plain model of the JSON values that the script side hands to the
//! bridge, and the field access that request decoding uses.

use vstd::prelude::*;

verus! {

/// A JSON number, held as what the three numeric readings of it give:
/// the value as an unsigned 64-bit integer (when it is one), as a signed
/// 64-bit integer (when it is one), and the bits of its IEEE-754 double
/// reading. The two integer readings agree, as serde_json's do: a number
/// with an unsigned reading has a signed one exactly when it is at most
/// `i64::MAX`, and a number with a signed reading has an unsigned one exactly
/// when it is not negative.
#[derive(Debug, PartialEq)]
pub struct JsonNumber {
    as_u64: Option<u64>,
    as_i64: Option<i64>,
    as_f64_bits: Option<u64>,
}

impl JsonNumber {
    #[verifier::type_invariant]
    spec fn wf(self) -> bool {
        &&& (self.as_u64 matches Some(u) ==> self.as_i64 == (if u <= i64::MAX { Some(u as i64) } else { None::<i64> }))
        &&& (self.as_i64 matches Some(i) ==> self.as_u64 == (if i >= 0 { Some(i as u64) } else { None::<u64> }))
    }

    /// The unsigned integer reading.
    pub closed spec fn u64_reading(self) -> Option<u64> {
        self.as_u64
    }

    /// The signed integer reading.
    pub closed spec fn i64_reading(self) -> Option<i64> {
        self.as_i64
    }

    /// The bits of the double reading.
    pub closed spec fn f64_bits_reading(self) -> Option<u64> {
        self.as_f64_bits
    }

    /// A non-negative integer (its double reading given as bits).
    pub fn from_u64(value: u64, f64_bits: Option<u64>) -> (r: Self)
        ensures
            r.u64_reading() == Some(value),
            r.i64_reading() == (if value <= i64::MAX { Some(value as i64) } else { None::<i64> }),
            r.f64_bits_reading() == f64_bits,
    {
        let signed: Option<i64> = if value <= 9223372036854775807u64 { Some(value as i64) } else { None };
        JsonNumber { as_u64: Some(value), as_i64: signed, as_f64_bits: f64_bits }
    }

    /// An integer (its double reading given as bits).
    pub fn from_i64(value: i64, f64_bits: Option<u64>) -> (r: Self)
        ensures
            r.i64_reading() == Some(value),
            r.u64_reading() == (if value >= 0 { Some(value as u64) } else { None::<u64> }),
            r.f64_bits_reading() == f64_bits,
    {
        let unsigned: Option<u64> = if value >= 0 { Some(value as u64) } else { None };
        JsonNumber { as_u64: unsigned, as_i64: Some(value), as_f64_bits: f64_bits }
    }

    /// A number that is not an integer: only its double reading.
    pub fn from_f64_bits(f64_bits: Option<u64>) -> (r: Self)
        ensures
            r.u64_reading() is None,
            r.i64_reading() is None,
            r.f64_bits_reading() == f64_bits,
    {
        JsonNumber { as_u64: None, as_i64: None, as_f64_bits: f64_bits }
    }

    /// The unsigned integer reading.
    pub fn as_u64(&self) -> (r: Option<u64>)
        ensures
            r == self.u64_reading(),
            r matches Some(u) ==> self.i64_reading() == (if u <= i64::MAX { Some(u as i64) } else { None::<i64> }),
    {
        proof { use_type_invariant(self); }
        self.as_u64
    }

    /// The signed integer reading.
    pub fn as_i64(&self) -> (r: Option<i64>)
        ensures
            r == self.i64_reading(),
            r matches Some(i) ==> self.u64_reading() == (if i >= 0 { Some(i as u64) } else { None::<u64> }),
    {
        proof { use_type_invariant(self); }
        self.as_i64
    }

    /// The bits of the double reading.
    pub fn as_f64_bits(&self) -> (r: Option<u64>)
        ensures
            r == self.f64_bits_reading(),
    {
        self.as_f64_bits
    }
}

/// A JSON value. An object keeps its entries in order; a field is found by
/// its first entry.
#[derive(Debug, PartialEq)]
pub enum JsonValue {
    Null,
    Bool(bool),
    Number(JsonNumber),
    Str(String),
    Array(Vec<JsonValue>),
    Object(Vec<(String, JsonValue)>),
}

/// The value of the first entry named `key`, if any.
pub open spec fn entries_lookup(entries: Seq<(String, JsonValue)>, key: Seq<char>) -> Option<JsonValue>
    decreases entries.len(),
{
    if entries.len() == 0 {
        None
    } else if entries[0].0@ == key {
        Some(entries[0].1)
    } else {
        entries_lookup(entries.drop_first(), key)
    }
}

/// The field `key` of an object; `None` for a missing field or a value that
/// is not an object.
pub open spec fn field_of(v: JsonValue, key: Seq<char>) -> Option<JsonValue> {
    match v {
        JsonValue::Object(entries) => entries_lookup(entries@, key),
        _ => None,
    }
}

/// The unsigned integer reading of a value, if it is a number that has one.
pub open spec fn u64_of(v: Option<JsonValue>) -> Option<u64> {
    match v {
        Some(JsonValue::Number(n)) => n.u64_reading(),
        _ => None,
    }
}

/// The text of a value, if it is a string.
pub open spec fn str_of(v: Option<JsonValue>) -> Option<Seq<char>> {
    match v {
        Some(JsonValue::Str(s)) => Some(s@),
        _ => None,
    }
}

/// The elements of a value, if it is an array.
pub open spec fn array_of(v: Option<JsonValue>) -> Option<Seq<JsonValue>> {
    match v {
        Some(JsonValue::Array(items)) => Some(items@),
        _ => None,
    }
}

impl JsonValue {
    /// The field `key` of this value, when it is an object that has one.
    pub fn field(&self, key: &str) -> (r: Option<&JsonValue>)
        ensures
            r matches Some(v) ==> field_of(*self, key@) == Some(*v),
            r is None ==> field_of(*self, key@) is None,
    {
        match self {
            JsonValue::Object(entries) => {
                let wanted = String::from_str(key);
                let n = entries.len();
                let mut i: usize = 0;
                assert(entries@.skip(0) =~= entries@);
                while i < n
                    invariant
                        n == entries@.len(),
                        i <= n,
                        wanted@ == key@,
                        field_of(*self, key@) == entries_lookup(entries@, key@),
                        entries_lookup(entries@, key@) == entries_lookup(entries@.skip(i as int), key@),
                    decreases n - i,
                {
                    assert(entries@.skip(i as int).drop_first() =~= entries@.skip(i + 1));
                    assert(entries@.skip(i as int)[0] == entries@[i as int]);
                    if entries[i].0 == wanted {
                        return Some(&entries[i].1);
                    }
                    i = i + 1;
                }
                assert(entries@.skip(i as int).len() == 0);
                None
            },
            _ => None,
        }
    }
}

} // verus!
