//! Values that tolerate the usual deviations of RDAP servers: a list of
//! strings sent as one string, a boolean or a number sent as a string.
//!
//! Each type remembers which shape it was built from, so that a conformance
//! check can report the deviation while consumers read the plain value.

use crate::json::{lemma_array_view, values_of, Json, JsonNumber, JsonValue};
use crate::text::{
    clone_strings, decimal, lemma_decimal_injective, text_eq, to_ascii_lowercase, trim,
    u64_to_decimal, ascii_lowercase, trimmed,
};
use core::marker::PhantomData;
use std::str::FromStr;
use vstd::prelude::*;
use vstd::std_specs::convert::FromSpecImpl;
use vstd::string::StringExecFns;

verus! {

/// What a [`VectorStringish`] stands for.
pub struct VectorStringishView {
    /// The strings, in order.
    pub items: Seq<Seq<char>>,
    /// Whether the value arrived as a single string.
    pub is_string: bool,
}

/// A value that is meant to be a list of strings.
///
/// A server may send a single string where a list is due; such a value is kept
/// as a list of one, marked as having arrived as a string.
#[derive(Debug, PartialEq, Eq)]
pub struct VectorStringish {
    vec: Vec<String>,
    is_string: bool,
}

impl Clone for VectorStringish {
    fn clone(&self) -> (r: Self)
        ensures
            r@ == self@,
    {
        VectorStringish { vec: clone_strings(&self.vec), is_string: self.is_string }
    }
}

impl View for VectorStringish {
    type V = VectorStringishView;

    closed spec fn view(&self) -> VectorStringishView {
        VectorStringishView { items: self.vec.deep_view(), is_string: self.is_string }
    }
}

/// The list of one string, in canonical shape.
pub open spec fn one_string(s: Seq<char>) -> VectorStringishView {
    VectorStringishView { items: seq![s], is_string: false }
}

/// The list `items`, in canonical shape.
pub open spec fn string_list(items: Seq<Seq<char>>) -> VectorStringishView {
    VectorStringishView { items, is_string: false }
}

impl From<String> for VectorStringish {
    fn from(value: String) -> (r: Self)
        ensures
            r@ == one_string(value@),
    {
        let r = VectorStringish { vec: vec![value], is_string: false };
        assert(r.vec.deep_view() =~= seq![value@]);
        r
    }
}

impl FromSpecImpl<String> for VectorStringish {
    open spec fn obeys_from_spec() -> bool {
        false
    }

    open spec fn from_spec(value: String) -> Self {
        choose|r: Self| r@ == one_string(value@)
    }
}

impl<'a> From<&'a str> for VectorStringish {
    fn from(value: &'a str) -> (r: Self)
        ensures
            r@ == one_string(value@),
    {
        let r = VectorStringish { vec: vec![value.to_owned()], is_string: false };
        assert(r.vec.deep_view() =~= seq![value@]);
        r
    }
}

impl<'a> FromSpecImpl<&'a str> for VectorStringish {
    open spec fn obeys_from_spec() -> bool {
        false
    }

    open spec fn from_spec(value: &'a str) -> Self {
        choose|r: Self| r@ == one_string(value@)
    }
}

impl From<Vec<String>> for VectorStringish {
    fn from(value: Vec<String>) -> (r: Self)
        ensures
            r@ == string_list(value.deep_view()),
    {
        VectorStringish { vec: value, is_string: false }
    }
}

impl FromSpecImpl<Vec<String>> for VectorStringish {
    open spec fn obeys_from_spec() -> bool {
        false
    }

    open spec fn from_spec(value: Vec<String>) -> Self {
        choose|r: Self| r@ == string_list(value.deep_view())
    }
}

impl From<VectorStringish> for Vec<String> {
    fn from(value: VectorStringish) -> (r: Self)
        ensures
            r.deep_view() == value@.items,
    {
        value.vec
    }
}

impl FromSpecImpl<VectorStringish> for Vec<String> {
    open spec fn obeys_from_spec() -> bool {
        false
    }

    open spec fn from_spec(value: VectorStringish) -> Self {
        choose|r: Self| r.deep_view() == value@.items
    }
}

impl<'a> From<&'a VectorStringish> for Vec<String> {
    fn from(value: &'a VectorStringish) -> (r: Self)
        ensures
            r.deep_view() == value@.items,
    {
        clone_strings(&value.vec)
    }
}

impl<'a> FromSpecImpl<&'a VectorStringish> for Vec<String> {
    open spec fn obeys_from_spec() -> bool {
        false
    }

    open spec fn from_spec(value: &'a VectorStringish) -> Self {
        choose|r: Self| r.deep_view() == value@.items
    }
}

/// Whether every element of a JSON array is a string.
pub open spec fn all_strings(a: Seq<JsonValue>) -> bool {
    forall|i: int| 0 <= i < a.len() ==> #[trigger] a[i] is String
}

/// The texts of an array of JSON strings.
pub open spec fn texts_of(a: Seq<JsonValue>) -> Seq<Seq<char>> {
    Seq::new(a.len(), |i: int| a[i]->String_0)
}

/// The array of JSON strings with the texts `items`.
pub open spec fn strings_of(items: Seq<Seq<char>>) -> Seq<JsonValue> {
    Seq::new(items.len(), |i: int| JsonValue::String(items[i]))
}

/// How a JSON value reads as a list of strings: an array of strings as it
/// stands, one string as a list of one that is marked; nothing else reads.
pub open spec fn vector_stringish_of(j: JsonValue) -> Option<VectorStringishView> {
    match j {
        JsonValue::String(s) => Some(VectorStringishView { items: seq![s], is_string: true }),
        JsonValue::Array(a) => if all_strings(a) {
            Some(string_list(texts_of(a)))
        } else {
            None
        },
        _ => None,
    }
}

impl VectorStringish {
    /// Consumes the value and hands out its strings.
    pub fn into_vec(self) -> (r: Vec<String>)
        ensures
            r.deep_view() == self@.items,
    {
        self.vec
    }

    /// The strings.
    pub fn vec(&self) -> (r: &Vec<String>)
        ensures
            r.deep_view() == self@.items,
    {
        &self.vec
    }

    /// Whether the value arrived as a single string.
    pub fn is_string(&self) -> (r: bool)
        ensures
            r == self@.is_string,
    {
        self.is_string
    }

    /// Reads a single string where a list was due.
    pub fn visit_str(v: &str) -> (r: Self)
        ensures
            r@ == (VectorStringishView { items: seq![v@], is_string: true }),
    {
        let r = VectorStringish { vec: vec![v.to_owned()], is_string: true };
        assert(r.vec.deep_view() =~= seq![v@]);
        r
    }

    /// Reads the elements of an array; fails at the first that is no string.
    pub fn visit_seq(seq: &Vec<Json>) -> (r: Option<Self>)
        ensures
            r is Some <==> all_strings(values_of(seq@)),
            r matches Some(v) ==> v@ == string_list(texts_of(values_of(seq@))),
    {
        let ghost a = values_of(seq@);
        let mut v: Vec<String> = Vec::new();
        let mut i: usize = 0;
        while i < seq.len()
            invariant
                i <= seq.len(),
                a == values_of(seq@),
                v.len() == i,
                forall|k: int| 0 <= k < i ==> #[trigger] a[k] is String,
                forall|k: int| 0 <= k < i ==> v@[k]@ == #[trigger] a[k]->String_0,
            decreases seq.len() - i,
        {
            assert(a[i as int] == seq@[i as int]@);
            match &seq[i] {
                Json::String(s) => {
                    v.push(s.clone());
                },
                _ => {
                    assert(!(a[i as int] is String));
                    return None;
                },
            }
            i += 1;
        }
        let r = VectorStringish { vec: v, is_string: false };
        assert(r.vec.deep_view() =~= texts_of(a));
        Some(r)
    }

    /// Reads a JSON value as a list of strings, the canonical shape first.
    pub fn from_json(j: &Json) -> (r: Option<Self>)
        ensures
            r is Some <==> vector_stringish_of(j@) is Some,
            r matches Some(v) ==> Some(v@) == vector_stringish_of(j@),
    {
        match j {
            Json::Array(items) => {
                proof {
                    lemma_array_view(*j);
                }
                Self::visit_seq(items)
            },
            Json::String(s) => Some(Self::visit_str(s.as_str())),
            _ => None,
        }
    }

    /// Writes the value in its canonical shape, an array of strings.
    pub fn to_json(&self) -> (j: Json)
        ensures
            j@ == JsonValue::Array(strings_of(self@.items)),
    {
        let mut items: Vec<Json> = Vec::new();
        let mut i: usize = 0;
        while i < self.vec.len()
            invariant
                i <= self.vec.len(),
                items.len() == i,
                forall|k: int| 0 <= k < i ==> (#[trigger] items@[k])@ == JsonValue::String(self.vec@[k]@),
            decreases self.vec.len() - i,
        {
            items.push(Json::String(self.vec[i].clone()));
            i += 1;
        }
        let j = Json::Array(items);
        proof {
            lemma_array_view(j);
            assert(values_of(items@) =~= strings_of(self@.items));
        }
        j
    }
}

/// `Some` of the list in canonical shape if `vec` is not empty, else `None`.
pub fn to_opt_vectorstringish(vec: Vec<String>) -> (r: Option<VectorStringish>)
    ensures
        vec.len() == 0 <==> r is None,
        r matches Some(v) ==> v@ == string_list(vec.deep_view()),
{
    if vec.len() == 0 {
        None
    } else {
        Some(VectorStringish::from(vec))
    }
}

/// What a [`Boolish`] stands for.
pub ghost enum BoolishView {
    /// A boolean, the canonical shape.
    Bool(bool),
    /// A string that is read as a boolean.
    Text(Seq<char>),
}

#[derive(Debug, PartialEq, Eq)]
enum BoolishInner {
    Bool(bool),
    String(String),
}

/// A value that is meant to be a boolean.
///
/// A server may send a string in its place. Read as a boolean, the strings
/// `true`, `t`, `yes` and `y` are true, in any letter case and with white space
/// around them; every other string is false.
#[derive(Debug, PartialEq, Eq)]
pub struct Boolish {
    inner: BoolishInner,
}

impl Clone for Boolish {
    fn clone(&self) -> (r: Self)
        ensures
            r@ == self@,
    {
        match &self.inner {
            BoolishInner::Bool(b) => Boolish { inner: BoolishInner::Bool(*b) },
            BoolishInner::String(s) => Boolish { inner: BoolishInner::String(s.clone()) },
        }
    }
}

impl View for Boolish {
    type V = BoolishView;

    closed spec fn view(&self) -> BoolishView {
        match self.inner {
            BoolishInner::Bool(b) => BoolishView::Bool(b),
            BoolishInner::String(s) => BoolishView::Text(s@),
        }
    }
}

/// Whether a string reads as true: trimmed and lower-cased it is one of
/// `true`, `t`, `yes`, `y`.
pub open spec fn is_true_text(s: Seq<char>) -> bool {
    let t = ascii_lowercase(trimmed(s));
    ||| t == seq!['t', 'r', 'u', 'e']
    ||| t == seq!['t']
    ||| t == seq!['y', 'e', 's']
    ||| t == seq!['y']
}

impl BoolishView {
    /// The boolean that the value is read as.
    pub open spec fn value(self) -> bool {
        match self {
            BoolishView::Bool(b) => b,
            BoolishView::Text(s) => is_true_text(s),
        }
    }
}

impl From<bool> for Boolish {
    fn from(value: bool) -> (r: Self)
        ensures
            r@ == BoolishView::Bool(value),
    {
        Boolish { inner: BoolishInner::Bool(value) }
    }
}

impl FromSpecImpl<bool> for Boolish {
    open spec fn obeys_from_spec() -> bool {
        false
    }

    open spec fn from_spec(value: bool) -> Self {
        choose|r: Self| r@ == BoolishView::Bool(value)
    }
}

/// How a JSON value reads as a boolean: a boolean as it stands, a string as a
/// string to be interpreted; nothing else reads.
pub open spec fn boolish_of(j: JsonValue) -> Option<BoolishView> {
    match j {
        JsonValue::Bool(b) => Some(BoolishView::Bool(b)),
        JsonValue::String(s) => Some(BoolishView::Text(s)),
        _ => None,
    }
}

impl Boolish {
    /// The boolean that the value is read as.
    pub fn into_bool(&self) -> (r: bool)
        ensures
            r == self@.value(),
    {
        match &self.inner {
            BoolishInner::Bool(value) => *value,
            BoolishInner::String(value) => Boolish::is_true(value.as_str()),
        }
    }

    /// Whether the value arrived as a string.
    pub fn is_string(&self) -> (r: bool)
        ensures
            r == (self@ is Text),
    {
        match &self.inner {
            BoolishInner::Bool(_) => false,
            BoolishInner::String(_) => true,
        }
    }

    /// Whether a string reads as true.
    pub fn is_true(value: &str) -> (r: bool)
        ensures
            r == is_true_text(value@),
    {
        let t = trim(value);
        let s = to_ascii_lowercase(t.as_str());
        proof {
            reveal_strlit("true");
            reveal_strlit("t");
            reveal_strlit("yes");
            reveal_strlit("y");
            assert("true"@ =~= seq!['t', 'r', 'u', 'e']);
            assert("t"@ =~= seq!['t']);
            assert("yes"@ =~= seq!['y', 'e', 's']);
            assert("y"@ =~= seq!['y']);
        }
        text_eq(s.as_str(), "true") || text_eq(s.as_str(), "t") || text_eq(s.as_str(), "yes")
            || text_eq(s.as_str(), "y")
    }

    /// The text `true` or `false` of the boolean that the value is read as.
    pub fn to_string(&self) -> (r: String)
        ensures
            r@ == if self@.value() {
                seq!['t', 'r', 'u', 'e']
            } else {
                seq!['f', 'a', 'l', 's', 'e']
            },
    {
        proof {
            reveal_strlit("true");
            reveal_strlit("false");
            assert("true"@ =~= seq!['t', 'r', 'u', 'e']);
            assert("false"@ =~= seq!['f', 'a', 'l', 's', 'e']);
        }
        if self.into_bool() {
            "true".to_owned()
        } else {
            "false".to_owned()
        }
    }

    /// Reads a JSON value as a boolean, the canonical shape first.
    pub fn from_json(j: &Json) -> (r: Option<Self>)
        ensures
            r is Some <==> boolish_of(j@) is Some,
            r matches Some(v) ==> Some(v@) == boolish_of(j@),
    {
        match j {
            Json::Bool(b) => Some(Boolish { inner: BoolishInner::Bool(*b) }),
            Json::String(s) => Some(Boolish { inner: BoolishInner::String(s.clone()) }),
            _ => None,
        }
    }

    /// Writes the value in its canonical shape, a JSON boolean.
    pub fn to_json(&self) -> (j: Json)
        ensures
            j@ == JsonValue::Bool(self@.value()),
    {
        Json::Bool(self.into_bool())
    }
}

/// What a [`Numberish`] stands for.
pub ghost enum NumberishView {
    /// A number, the canonical shape.
    Number(JsonNumber),
    /// A string that is read as a number.
    Text(Seq<char>),
}

/// The number below 2^64 whose decimal text is `s`, if there is one.
pub open spec fn u64_of_text(s: Seq<char>) -> Option<u64> {
    if exists|n: u64| decimal(n as nat) == s {
        Some(choose|n: u64| decimal(n as nat) == s)
    } else {
        None
    }
}

/// `u64_of_text` undoes `decimal`.
pub proof fn lemma_u64_of_decimal(n: u64)
    ensures
        u64_of_text(decimal(n as nat)) == Some(n),
{
    let s = decimal(n as nat);
    let m = choose|m: u64| decimal(m as nat) == s;
    lemma_decimal_injective(m as nat, n as nat);
}

impl NumberishView {
    /// The value as an unsigned 64-bit integer: a non-negative integer as it
    /// stands, a string by its decimal text; nothing for any other value.
    pub open spec fn value(self) -> Option<u64> {
        match self {
            NumberishView::Number(JsonNumber::PosInt(n)) => Some(n),
            NumberishView::Number(_) => None,
            NumberishView::Text(s) => u64_of_text(s),
        }
    }

    /// The value, if it is at most `max`.
    pub open spec fn value_up_to(self, max: u64) -> Option<u64> {
        match self.value() {
            Some(n) if n <= max => Some(n),
            _ => None,
        }
    }
}

#[derive(Debug, PartialEq, Eq)]
enum NumberishInner {
    Number(JsonNumber),
    String(String),
}

/// An unsigned integer width that a [`Numberish`] can be made from.
pub trait Unsigned: Copy {
    /// The integer, widened.
    spec fn widened(self) -> u64;

    /// The integer, widened to 64 bits.
    fn widen(self) -> (r: u64)
        ensures
            r == self.widened(),
    ;
}

impl Unsigned for u8 {
    open spec fn widened(self) -> u64 {
        self as u64
    }

    fn widen(self) -> (r: u64) {
        self as u64
    }
}

impl Unsigned for u16 {
    open spec fn widened(self) -> u64 {
        self as u64
    }

    fn widen(self) -> (r: u64) {
        self as u64
    }
}

impl Unsigned for u32 {
    open spec fn widened(self) -> u64 {
        self as u64
    }

    fn widen(self) -> (r: u64) {
        self as u64
    }
}

impl Unsigned for u64 {
    open spec fn widened(self) -> u64 {
        self
    }

    fn widen(self) -> (r: u64) {
        self
    }
}

/// A value that is meant to be an unsigned integer of the width `T`.
///
/// A server may send the decimal text of the number in a string instead. A
/// value that does not fit the width asked for reads as no value.
#[derive(Debug, PartialEq, Eq)]
pub struct Numberish<T> {
    inner: NumberishInner,
    phatom: PhantomData<T>,
}

impl<T> Clone for Numberish<T> {
    fn clone(&self) -> (r: Self)
        ensures
            r@ == self@,
    {
        match &self.inner {
            NumberishInner::Number(n) => Numberish {
                inner: NumberishInner::Number(*n),
                phatom: PhantomData,
            },
            NumberishInner::String(s) => Numberish {
                inner: NumberishInner::String(s.clone()),
                phatom: PhantomData,
            },
        }
    }
}

impl<T> View for Numberish<T> {
    type V = NumberishView;

    closed spec fn view(&self) -> NumberishView {
        match self.inner {
            NumberishInner::Number(n) => NumberishView::Number(n),
            NumberishInner::String(s) => NumberishView::Text(s@),
        }
    }
}

impl<T: Unsigned> From<T> for Numberish<T> {
    fn from(value: T) -> (r: Self)
        ensures
            r@ == NumberishView::Number(JsonNumber::PosInt(value.widened())),
    {
        Numberish { inner: NumberishInner::Number(JsonNumber::PosInt(value.widen())), phatom: PhantomData }
    }
}

impl<T: Unsigned> FromSpecImpl<T> for Numberish<T> {
    open spec fn obeys_from_spec() -> bool {
        false
    }

    open spec fn from_spec(value: T) -> Self {
        choose|r: Self| r@ == NumberishView::Number(JsonNumber::PosInt(value.widened()))
    }
}

/// `serde_json::Number::from_str`, read with `Number::as_u64`: the text is
/// taken as a JSON number, and an unsigned integer comes back exactly when the
/// text is the decimal text of a number below 2^64 (digits only, no sign, no
/// leading zero, no fraction or exponent, nothing before or after).
#[verifier::external_body]
fn json_number_text_as_u64(s: &str) -> (r: Option<u64>)
    ensures
        r matches Some(n) ==> decimal(n as nat) == s@,
        r is None ==> forall|n: u64| #[trigger] decimal(n as nat) != s@,
{
    match serde_json::Number::from_str(s) {
        Ok(n) => n.as_u64(),
        Err(_) => None,
    }
}

/// How a JSON value reads as a number: a number as it stands, a string as a
/// string to be interpreted; nothing else reads.
pub open spec fn numberish_of(j: JsonValue) -> Option<NumberishView> {
    match j {
        JsonValue::Number(n) => Some(NumberishView::Number(n)),
        JsonValue::String(s) => Some(NumberishView::Text(s)),
        _ => None,
    }
}

/// The canonical JSON shape of a number-like value: the number itself; for a
/// string the number that it reads as, or `null` if it reads as none.
pub open spec fn numberish_json(v: NumberishView) -> JsonValue {
    match v {
        NumberishView::Number(n) => JsonValue::Number(n),
        NumberishView::Text(s) => match u64_of_text(s) {
            Some(n) => JsonValue::Number(JsonNumber::PosInt(n)),
            None => JsonValue::Null,
        },
    }
}

impl<T> Numberish<T> {
    /// Whether the value arrived as a string.
    pub fn is_string(&self) -> (r: bool)
        ensures
            r == (self@ is Text),
    {
        match &self.inner {
            NumberishInner::Number(_) => false,
            NumberishInner::String(_) => true,
        }
    }

    /// The value as `u64`, if it is a non-negative integer that fits.
    pub fn as_u64(&self) -> (r: Option<u64>)
        ensures
            r == self@.value(),
    {
        match &self.inner {
            NumberishInner::Number(n) => match n {
                JsonNumber::PosInt(v) => Some(*v),
                _ => None,
            },
            NumberishInner::String(s) => {
                let r = json_number_text_as_u64(s.as_str());
                proof {
                    if let Some(n) = r {
                        lemma_u64_of_decimal(n);
                    }
                }
                r
            },
        }
    }

    /// The value as `u32`, if it is a non-negative integer that fits.
    pub fn as_u32(&self) -> (r: Option<u32>)
        ensures
            r is Some <==> self@.value_up_to(u32::MAX as u64) is Some,
            r matches Some(n) ==> self@.value() == Some(n as u64),
    {
        match self.as_u64() {
            Some(n) => if n <= u32::MAX as u64 {
                Some(n as u32)
            } else {
                None
            },
            None => None,
        }
    }

    /// The value as `u16`, if it is a non-negative integer that fits.
    pub fn as_u16(&self) -> (r: Option<u16>)
        ensures
            r is Some <==> self@.value_up_to(u16::MAX as u64) is Some,
            r matches Some(n) ==> self@.value() == Some(n as u64),
    {
        match self.as_u64() {
            Some(n) => if n <= u16::MAX as u64 {
                Some(n as u16)
            } else {
                None
            },
            None => None,
        }
    }

    /// The value as `u8`, if it is a non-negative integer that fits.
    pub fn as_u8(&self) -> (r: Option<u8>)
        ensures
            r is Some <==> self@.value_up_to(u8::MAX as u64) is Some,
            r matches Some(n) ==> self@.value() == Some(n as u64),
    {
        match self.as_u64() {
            Some(n) => if n <= u8::MAX as u64 {
                Some(n as u8)
            } else {
                None
            },
            None => None,
        }
    }

    /// The decimal text of the value, or `RANGE_ERRROR` if it reads as none.
    pub fn to_string(&self) -> (r: String)
        ensures
            r@ == match self@.value() {
                Some(n) => decimal(n as nat),
                None => "RANGE_ERRROR"@,
            },
    {
        match self.as_u64() {
            Some(n) => u64_to_decimal(n),
            None => "RANGE_ERRROR".to_owned(),
        }
    }

    /// Reads a JSON value as a number, the canonical shape first.
    pub fn from_json(j: &Json) -> (r: Option<Self>)
        ensures
            r is Some <==> numberish_of(j@) is Some,
            r matches Some(v) ==> Some(v@) == numberish_of(j@),
    {
        match j {
            Json::Number(n) => Some(Numberish { inner: NumberishInner::Number(*n), phatom: PhantomData }),
            Json::String(s) => Some(
                Numberish { inner: NumberishInner::String(s.clone()), phatom: PhantomData },
            ),
            _ => None,
        }
    }

    /// Writes the value in its canonical shape: a JSON number, or `null` for a
    /// string that reads as no number.
    pub fn to_json(&self) -> (j: Json)
        ensures
            j@ == numberish_json(self@),
    {
        match &self.inner {
            NumberishInner::Number(n) => Json::Number(*n),
            NumberishInner::String(_) => match self.as_u64() {
                Some(n) => Json::Number(JsonNumber::PosInt(n)),
                None => Json::Null,
            },
        }
    }
}

/// The canonical JSON shape of a list of strings.
pub open spec fn vector_stringish_json(v: VectorStringishView) -> JsonValue {
    JsonValue::Array(strings_of(v.items))
}

/// The canonical JSON shape of a boolean.
pub open spec fn boolish_json(v: BoolishView) -> JsonValue {
    JsonValue::Bool(v.value())
}

/// Whether a JSON value is a list of strings in canonical shape.
pub open spec fn is_canonical_strings(j: JsonValue) -> bool {
    j matches JsonValue::Array(a) && all_strings(a)
}

/// Writing what was read gives the value back if it was in canonical shape,
/// and else the same list in canonical shape; reading that again gives the
/// same list, marked as canonical.
pub proof fn law_vector_stringish_round_trip(j: JsonValue)
    requires
        vector_stringish_of(j) is Some,
    ensures
        is_canonical_strings(j) ==> vector_stringish_json(vector_stringish_of(j)->0) == j,
        is_canonical_strings(vector_stringish_json(vector_stringish_of(j)->0)),
        vector_stringish_of(vector_stringish_json(vector_stringish_of(j)->0)) == Some(
            string_list(vector_stringish_of(j)->0.items),
        ),
{
    let v = vector_stringish_of(j)->0;
    let out = strings_of(v.items);
    assert(texts_of(out) =~= v.items);
    if is_canonical_strings(j) {
        let a = j->Array_0;
        assert(strings_of(texts_of(a)) =~= a);
    }
}

/// Reading what was written gives the value back, marked as canonical.
pub proof fn law_vector_stringish_read_written(v: VectorStringishView)
    ensures
        vector_stringish_of(vector_stringish_json(v)) == Some(string_list(v.items)),
{
    assert(texts_of(strings_of(v.items)) =~= v.items);
}

/// Writing what was read gives a JSON boolean: the value itself if it was
/// one; reading that again gives the same truth value in canonical shape.
pub proof fn law_boolish_round_trip(j: JsonValue)
    requires
        boolish_of(j) is Some,
    ensures
        j is Bool ==> boolish_json(boolish_of(j)->0) == j,
        boolish_of(boolish_json(boolish_of(j)->0)) == Some(
            BoolishView::Bool(boolish_of(j)->0.value()),
        ),
{
}

/// Writing what was read gives the number itself if it was one, a number for
/// a string that reads as one and `null` for any other string; reading a
/// number that was written gives a value in canonical shape that reads the
/// same.
pub proof fn law_numberish_round_trip(j: JsonValue)
    requires
        numberish_of(j) is Some,
    ensures
        j is Number ==> numberish_json(numberish_of(j)->0) == j,
        numberish_json(numberish_of(j)->0) is Number ==> (numberish_of(
            numberish_json(numberish_of(j)->0),
        ) matches Some(w) && w is Number && w.value() == numberish_of(j)->0.value()),
        numberish_json(numberish_of(j)->0) is Null <==> (j is String && numberish_of(
            j,
        )->0.value() is None),
{
}

} // verus!
