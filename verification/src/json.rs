//! JSON values as the decoder hands them over, and typed decoding out of them.

use vstd::prelude::*;
use serde_json::Value;

verus! {

/// A JSON number, kept exact: an integer by its value, any other number by
/// the bits of its IEEE-754 double.
#[derive(Clone, Copy, Debug, PartialEq, Eq, Structural)]
pub enum Number {
    /// An integer that is not negative.
    PosInt(u64),
    /// A negative integer.
    NegInt(i64),
    /// A number that is no 64-bit integer, as the double nearest to it.
    Float(u64),
}

/// The content of a JSON value. The members of an object stand in the order
/// in which the decoder hands them out.
pub enum JsonView {
    Null,
    Bool(bool),
    Number(Number),
    String(Seq<char>),
    Array(Seq<JsonView>),
    Object(Seq<(Seq<char>, JsonView)>),
}

/// The value of the first member with the given key.
pub open spec fn lookup(members: Seq<(Seq<char>, JsonView)>, key: Seq<char>) -> Option<JsonView>
    decreases members.len(),
{
    if members.len() == 0 {
        None
    } else if members[0].0 == key {
        Some(members[0].1)
    } else {
        lookup(members.drop_first(), key)
    }
}

impl JsonView {
    /// The member of an object with the given key; nothing for any other value.
    pub open spec fn field(self, key: Seq<char>) -> Option<JsonView> {
        match self {
            JsonView::Object(members) => lookup(members, key),
            _ => None,
        }
    }
}

/// `serde_json::Value`: a JSON value as the decoder made it.
#[verifier::external_type_specification]
#[verifier::external_body]
pub struct ExValue(Value);

/// `serde_json::Map`: the map that holds the members of an object.
#[verifier::external_type_specification]
#[verifier::external_body]
#[verifier::reject_recursive_types(K)]
#[verifier::reject_recursive_types(V)]
pub struct ExMap<K, V>(serde_json::Map<K, V>);

/// What a decoded JSON value holds.
pub uninterp spec fn json_view(v: Value) -> JsonView;

/// The members that the map of an object holds, in the map's order.
pub uninterp spec fn map_view(m: serde_json::Map<String, Value>) -> Seq<(Seq<char>, JsonView)>;

/// What the JSON decoder makes of a text: the value it holds, or the text of
/// the decoder's error.
pub uninterp spec fn json_parsed(bytes: Seq<u8>) -> Result<JsonView, Seq<char>>;

/// How a JSON value is rendered for diagnostics.
pub uninterp spec fn json_debug(j: JsonView) -> Seq<char>;

/// `serde_json::from_slice` at type `Value`: the decoded value, or the
/// `Display` text of the error.
#[verifier::external_body]
pub(crate) fn from_slice(bytes: &[u8]) -> (r: Result<Value, String>)
    ensures
        match r {
            Ok(v) => json_parsed(bytes@) == Ok::<JsonView, Seq<char>>(json_view(v)),
            Err(text) => json_parsed(bytes@) == Err::<JsonView, Seq<char>>(text@),
        },
{
    serde_json::from_slice::<Value>(bytes).map_err(|e| e.to_string())
}

/// The `Debug` rendering of a `Value`, which depends on what it holds alone.
#[verifier::external_body]
pub(crate) fn debug_value(v: &Value) -> (r: String)
    ensures
        r@ == json_debug(json_view(*v)),
{
    format!("{:?}", v)
}

/// `Value::as_str`: the text of a string, nothing for any other value.
pub assume_specification<'a>[ Value::as_str ](v: &'a Value) -> (r: Option<&'a str>)
    ensures
        match json_view(*v) {
            JsonView::String(s) => r matches Some(t) && t@ == s,
            _ => r is None,
        },
;

/// `Value::as_array`: the items of an array, nothing for any other value.
pub assume_specification<'a>[ Value::as_array ](v: &'a Value) -> (r: Option<&'a Vec<Value>>)
    ensures
        match json_view(*v) {
            JsonView::Array(items) => {
                &&& r matches Some(a)
                &&& a@.len() == items.len()
                &&& forall|i: int| 0 <= i < a@.len() ==> json_view(#[trigger] a@[i]) == items[i]
            },
            _ => r is None,
        },
;

/// `Value::as_u64`: the value of an integer that is not negative.
pub assume_specification[ Value::as_u64 ](v: &Value) -> (r: Option<u64>)
    ensures
        r == (match json_view(*v) {
            JsonView::Number(Number::PosInt(u)) => Some(u),
            _ => None,
        }),
;

/// `Value::as_i64`: the value of an integer that fits in an `i64`.
pub assume_specification[ Value::as_i64 ](v: &Value) -> (r: Option<i64>)
    ensures
        r == (match json_view(*v) {
            JsonView::Number(Number::PosInt(u)) => if u <= i64::MAX {
                Some(u as i64)
            } else {
                None
            },
            JsonView::Number(Number::NegInt(i)) => Some(i),
            _ => None,
        }),
;

/// `Value::as_f64`, by the bits of the double: something for every number,
/// and for one that is no integer the bits that it holds.
#[verifier::external_body]
pub(crate) fn float_bits(v: &Value) -> (r: Option<u64>)
    ensures
        r is Some <==> json_view(*v) is Number,
        json_view(*v) matches JsonView::Number(Number::Float(bits)) ==> r == Some(bits),
{
    v.as_f64().map(|x| x.to_bits())
}

/// `Value::get` with a string index: the member of an object with that key.
#[verifier::external_body]
pub(crate) fn member<'a>(v: &'a Value, key: &str) -> (r: Option<&'a Value>)
    ensures
        match json_view(*v).field(key@) {
            Some(j) => r matches Some(x) && json_view(*x) == j,
            None => r is None,
        },
{
    v.get(key)
}

/// `Value::as_object`: the map of an object, nothing for any other value.
pub assume_specification<'a>[ Value::as_object ](v: &'a Value) -> (r: Option<
    &'a serde_json::Map<String, Value>,
>)
    ensures
        match json_view(*v) {
            JsonView::Object(entries) => r matches Some(m) && map_view(*m) == entries,
            _ => r is None,
        },
;

/// `Map::iter`, collected: the keys and values of the map, in the map's
/// order.
#[verifier::external_body]
pub(crate) fn map_entries<'a>(m: &'a serde_json::Map<String, Value>) -> (r: Vec<
    (&'a String, &'a Value),
>)
    ensures
        r@.len() == map_view(*m).len(),
        forall|i: int| 0 <= i < r@.len() ==> (#[trigger] r@[i]).0@ == map_view(*m)[i].0,
        forall|i: int| 0 <= i < r@.len() ==> json_view(*(#[trigger] r@[i]).1) == map_view(*m)[i].1,
{
    m.iter().collect()
}

/// `Clone` for `Value`: a value that holds the same.
pub assume_specification[ <Value as Clone>::clone ](v: &Value) -> (r: Value)
    ensures
        json_view(r) == json_view(*v),
;

/// Types that can be decoded out of a JSON value.
pub trait Decode: Sized {
    /// The mathematical content of a decoded value.
    type Model;

    /// What a value stands for.
    spec fn model(&self) -> Self::Model;

    /// What a JSON value decodes to, if it has the shape that the type asks for.
    spec fn decoded(j: JsonView) -> Option<Self::Model>;

    /// Decodes a JSON value.
    fn decode(v: &Value) -> (r: Option<Self>)
        ensures
            match r {
                Some(x) => Self::decoded(json_view(*v)) == Some(x.model()),
                None => Self::decoded(json_view(*v)) is None,
            },
    ;
}

/// A string decodes out of a JSON string.
impl Decode for String {
    type Model = Seq<char>;

    open spec fn model(&self) -> Seq<char> {
        self@
    }

    open spec fn decoded(j: JsonView) -> Option<Seq<char>> {
        match j {
            JsonView::String(s) => Some(s),
            _ => None,
        }
    }

    fn decode(v: &Value) -> (r: Option<String>) {
        match v.as_str() {
            Some(s) => Some(s.to_owned()),
            None => None,
        }
    }
}

/// A 16-bit integer decodes out of a JSON integer in its range.
impl Decode for i16 {
    type Model = i16;

    open spec fn model(&self) -> i16 {
        *self
    }

    open spec fn decoded(j: JsonView) -> Option<i16> {
        match j {
            JsonView::Number(Number::PosInt(u)) => if u <= i16::MAX {
                Some(u as i16)
            } else {
                None
            },
            JsonView::Number(Number::NegInt(i)) => if i16::MIN <= i <= i16::MAX {
                Some(i as i16)
            } else {
                None
            },
            _ => None,
        }
    }

    fn decode(v: &Value) -> (r: Option<i16>) {
        match v.as_i64() {
            Some(i) => if -32768 <= i && i <= 32767 {
                Some(i as i16)
            } else {
                None
            },
            None => None,
        }
    }
}

/// A number decodes out of any JSON number, as it stands.
impl Decode for Number {
    type Model = Number;

    open spec fn model(&self) -> Number {
        *self
    }

    open spec fn decoded(j: JsonView) -> Option<Number> {
        match j {
            JsonView::Number(n) => Some(n),
            _ => None,
        }
    }

    fn decode(v: &Value) -> (r: Option<Number>) {
        if let Some(u) = v.as_u64() {
            Some(Number::PosInt(u))
        } else if let Some(i) = v.as_i64() {
            Some(Number::NegInt(i))
        } else if let Some(bits) = float_bits(v) {
            Some(Number::Float(bits))
        } else {
            None
        }
    }
}

/// Every JSON value decodes as itself.
impl Decode for Value {
    type Model = JsonView;

    open spec fn model(&self) -> JsonView {
        json_view(*self)
    }

    open spec fn decoded(j: JsonView) -> Option<JsonView> {
        Some(j)
    }

    fn decode(v: &Value) -> (r: Option<Value>) {
        Some(v.clone())
    }
}

/// What the member with the given key decodes to, if the value is an object
/// that has such a member and the member has the shape that the type asks for.
pub open spec fn decoded_field<T: Decode>(j: JsonView, key: Seq<char>) -> Option<T::Model> {
    match j.field(key) {
        Some(x) => T::decoded(x),
        None => None,
    }
}

/// Decodes the member of an object with the given key.
pub fn decode_field<T: Decode>(v: &Value, key: &str) -> (r: Option<T>)
    ensures
        match r {
            Some(x) => decoded_field::<T>(json_view(*v), key@) == Some(x.model()),
            None => decoded_field::<T>(json_view(*v), key@) is None,
        },
{
    match member(v, key) {
        Some(x) => T::decode(x),
        None => None,
    }
}

/// The contents of a list of decoded values.
pub open spec fn models<T: Decode>(items: Seq<T>) -> Seq<T::Model> {
    items.map_values(|x: T| x.model())
}

/// Whether every one of the values decodes as a `T`.
pub open spec fn all_decode<T: Decode>(items: Seq<JsonView>) -> bool {
    forall|i: int| 0 <= i < items.len() ==> (#[trigger] T::decoded(items[i])) is Some
}

/// What the values decode to, one by one.
pub open spec fn decoded_each<T: Decode>(items: Seq<JsonView>) -> Seq<T::Model> {
    items.map_values(|j: JsonView| T::decoded(j).unwrap())
}

/// A list decodes out of a JSON array whose items all decode.
impl<T: Decode> Decode for Vec<T> {
    type Model = Seq<T::Model>;

    open spec fn model(&self) -> Seq<T::Model> {
        models(self@)
    }

    open spec fn decoded(j: JsonView) -> Option<Seq<T::Model>> {
        match j {
            JsonView::Array(items) => if all_decode::<T>(items) {
                Some(decoded_each::<T>(items))
            } else {
                None
            },
            _ => None,
        }
    }

    fn decode(v: &Value) -> (r: Option<Vec<T>>) {
        match v.as_array() {
            Some(array) => {
                let ghost items = json_view(*v)->Array_0;
                let mut out: Vec<T> = Vec::new();
                let mut i: usize = 0;
                while i < array.len()
                    invariant
                        i <= array.len(),
                        json_view(*v) == JsonView::Array(items),
                        array@.len() == items.len(),
                        forall|k: int|
                            0 <= k < array@.len() ==> json_view(#[trigger] array@[k]) == items[k],
                        out@.len() == i,
                        forall|k: int|
                            #![trigger out@[k]]
                            #![trigger T::decoded(items[k])]
                            0 <= k < i ==> T::decoded(items[k]) == Some(out@[k].model()),
                    decreases array.len() - i,
                {
                    match T::decode(&array[i]) {
                        Some(x) => {
                            out.push(x);
                        },
                        None => {
                            return None;
                        },
                    }
                    i += 1;
                }
                Some(out)
            },
            None => None,
        }
    }
}

} // verus!
