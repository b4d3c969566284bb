//! Reading values from JSON and writing them to JSON.
//!
//! A value is read from any of the shapes that are tolerated for it, and is
//! written in the one shape that is canonical. Members of an object that are
//! not known are kept as they are and written again. What is written of a
//! value that was read from a canonical document is that document, but for
//! the order of the members of its objects.

use crate::json::{
    clone_json, get_member, lemma_array_view, member_of, members_of, values_of, Json, JsonNumber,
    JsonValue,
};
use crate::lenient::{
    boolish_json, boolish_of, numberish_json, numberish_of, vector_stringish_json,
    vector_stringish_of, Boolish, BoolishView, Numberish, NumberishView, VectorStringish,
};
use crate::lenient::{
    law_boolish_round_trip, law_numberish_round_trip, law_vector_stringish_round_trip,
};
use crate::text::{decimal, text_eq, u64_to_decimal};
use vstd::prelude::*;

pub mod objects;

verus! {

broadcast use vstd::seq::axiom_seq_index_decreases;

/// The members of a JSON object.
pub type Members = Seq<(Seq<char>, JsonValue)>;

/// Whether two documents are the same but for the order of the members of
/// their objects. Of members with one key the first counts.
pub open spec fn same_value(a: JsonValue, b: JsonValue) -> bool
    decreases a,
{
    match a {
        JsonValue::Array(x) => b matches JsonValue::Array(y) && x.len() == y.len() && forall|
            i: int,
        |
            0 <= i < x.len() ==> same_value(#[trigger] x[i], y[i]),
        JsonValue::Object(x) => b matches JsonValue::Object(y) && (forall|i: int|
            0 <= i < x.len() && member_of(x, (#[trigger] x[i]).0) == Some(x[i].1) ==> (member_of(
                y,
                x[i].0,
            ) matches Some(w) && same_value(x[i].1, w))) && (forall|key: Seq<char>|
            member_of(x, key) is None ==> #[trigger] member_of(y, key) is None),
        _ => a == b,
    }
}

/// A document is the same as itself.
pub proof fn lemma_same_value_reflexive(a: JsonValue)
    ensures
        same_value(a, a),
    decreases a,
{
    match a {
        JsonValue::Array(x) => {
            assert forall|i: int| 0 <= i < x.len() implies same_value(#[trigger] x[i], x[i]) by {
                lemma_same_value_reflexive(x[i]);
            }
        },
        JsonValue::Object(x) => {
            assert forall|i: int|
                0 <= i < x.len() && member_of(x, (#[trigger] x[i]).0) == Some(
                    x[i].1,
                ) implies (member_of(x, x[i].0) matches Some(w) && same_value(x[i].1, w)) by {
                lemma_same_value_reflexive(x[i].1);
            }
        },
        _ => {},
    }
}

/// A member that may be absent: its key, and its value if it is present.
pub type Field = (Seq<char>, Option<JsonValue>);

/// The members that are written for fields: those that are present, in their
/// order.
pub open spec fn written(fields: Seq<Field>) -> Members
    decreases fields.len(),
{
    if fields.len() == 0 {
        Seq::empty()
    } else {
        let before = written(fields.drop_last());
        match fields.last().1 {
            Some(v) => before.push((fields.last().0, v)),
            None => before,
        }
    }
}

/// The keys of fields.
pub open spec fn keys_of(fields: Seq<Field>) -> Seq<Seq<char>> {
    Seq::new(fields.len(), |i: int| fields[i].0)
}

/// Whether no key stands twice.
pub open spec fn distinct(keys: Seq<Seq<char>>) -> bool {
    forall|i: int, j: int| 0 <= i < j < keys.len() ==> keys[i] != keys[j]
}

/// The members whose key is none of `keys`, in their order.
pub open spec fn without_keys(m: Members, keys: Seq<Seq<char>>) -> Members
    decreases m.len(),
{
    if m.len() == 0 {
        m
    } else {
        let before = without_keys(m.drop_last(), keys);
        if keys.contains(m.last().0) {
            before
        } else {
            before.push(m.last())
        }
    }
}

/// The first member of a key among members that stand one after the other.
pub proof fn lemma_member_of_append(a: Members, b: Members, key: Seq<char>)
    ensures
        member_of(a + b, key) == match member_of(a, key) {
            Some(v) => Some(v),
            None => member_of(b, key),
        },
    decreases a.len(),
{
    if a.len() == 0 {
        assert(a + b =~= b);
    } else {
        let all = a + b;
        assert(all[0] == a[0]);
        assert(all.drop_first() =~= a.drop_first() + b);
        lemma_member_of_append(a.drop_first(), b, key);
    }
}

/// The first member of a key among members with one more at their end.
pub proof fn lemma_member_of_push(a: Members, last: (Seq<char>, JsonValue), key: Seq<char>)
    ensures
        member_of(a.push(last), key) == match member_of(a, key) {
            Some(v) => Some(v),
            None => if last.0 == key {
                Some(last.1)
            } else {
                None
            },
        },
{
    let b = seq![last];
    assert(a.push(last) =~= a + b);
    lemma_member_of_append(a, b, key);
    assert(b.drop_first().len() == 0);
    assert(member_of(b.drop_first(), key) is None);
}

/// What is written for fields holds for each key of a field its value, and
/// nothing for any other key.
pub proof fn lemma_member_of_written(fields: Seq<Field>, key: Seq<char>)
    requires
        distinct(keys_of(fields)),
    ensures
        !keys_of(fields).contains(key) ==> member_of(written(fields), key) is None,
        forall|i: int|
            0 <= i < fields.len() && (#[trigger] fields[i]).0 == key ==> member_of(
                written(fields),
                key,
            ) == fields[i].1,
    decreases fields.len(),
{
    if fields.len() > 0 {
        let front = fields.drop_last();
        let last = fields.last();
        assert forall|i: int, j: int| 0 <= i < j < front.len() implies keys_of(front)[i]
            != keys_of(front)[j] by {
            assert(keys_of(fields)[i] != keys_of(fields)[j]);
        }
        lemma_member_of_written(front, key);
        match last.1 {
            Some(v) => {
                lemma_member_of_push(written(front), (last.0, v), key);
            },
            None => {},
        }
        if !keys_of(fields).contains(key) {
            if keys_of(front).contains(key) {
                let k = choose|k: int| 0 <= k < front.len() && keys_of(front)[k] == key;
                assert(keys_of(fields)[k] == key);
            }
            assert(keys_of(fields)[fields.len() - 1] == last.0);
        }
        assert forall|i: int|
            0 <= i < fields.len() && (#[trigger] fields[i]).0 == key implies member_of(
            written(fields),
            key,
        ) == fields[i].1 by {
            if i < front.len() {
                assert(front[i] == fields[i]);
                assert(keys_of(fields)[i] != keys_of(fields)[fields.len() - 1]);
                assert(last.0 != key);
            } else {
                if keys_of(front).contains(key) {
                    let k = choose|k: int| 0 <= k < front.len() && keys_of(front)[k] == key;
                    assert(keys_of(fields)[k] != keys_of(fields)[fields.len() - 1]);
                }
            }
        }
    }
}

/// Among the members that are left without some keys, a key that was taken
/// out has no member, and any other key has the member that it had.
pub proof fn lemma_member_of_without(m: Members, keys: Seq<Seq<char>>, key: Seq<char>)
    ensures
        member_of(without_keys(m, keys), key) == if keys.contains(key) {
            None
        } else {
            member_of(m, key)
        },
    decreases m.len(),
{
    if m.len() > 0 {
        let front = m.drop_last();
        lemma_member_of_without(front, keys, key);
        assert(m =~= front.push(m.last()));
        lemma_member_of_push(front, m.last(), key);
        if !keys.contains(m.last().0) {
            lemma_member_of_push(without_keys(front, keys), m.last(), key);
        }
    }
}

/// Whether a field has, under its key, nothing where the members have
/// nothing and else a value that is the same as theirs.
pub open spec fn field_matches(field: Field, m: Members) -> bool {
    match (field.1, member_of(m, field.0)) {
        (None, None) => true,
        (Some(v), Some(w)) => same_value(v, w),
        _ => false,
    }
}

/// Whether each of the fields matches the members.
pub open spec fn fields_match(fields: Seq<Field>, m: Members) -> bool {
    forall|i: int| 0 <= i < fields.len() ==> field_matches(#[trigger] fields[i], m)
}

/// The object that is written for fields and for members that are kept as
/// they are.
pub open spec fn object_json(fields: Seq<Field>, kept: Members) -> JsonValue {
    JsonValue::Object(written(fields) + kept)
}

/// An object that is written from fields that match its members, and from
/// the members that none of the fields stands for, is the same object.
pub proof fn lemma_object_round_trip(m: Members, fields: Seq<Field>)
    requires
        distinct(keys_of(fields)),
        fields_match(fields, m),
    ensures
        same_value(object_json(fields, without_keys(m, keys_of(fields))), JsonValue::Object(m)),
{
    let keys = keys_of(fields);
    let kept = without_keys(m, keys);
    let x = written(fields) + kept;
    assert forall|key: Seq<char>|
        member_of(x, key) is Some || member_of(m, key) is Some implies (member_of(
        x,
        key,
    ) matches Some(v) && member_of(m, key) matches Some(w) && same_value(v, w)) by {
        lemma_member_of_append(written(fields), kept, key);
        lemma_member_of_written(fields, key);
        lemma_member_of_without(m, keys, key);
        if keys.contains(key) {
            let i = choose|i: int| 0 <= i < keys.len() && keys[i] == key;
            assert(fields[i].0 == key);
        } else {
            lemma_same_value_reflexive(member_of(m, key)->0);
        }
    }
    assert forall|i: int|
        0 <= i < x.len() && member_of(x, (#[trigger] x[i]).0) == Some(x[i].1) implies (member_of(
        m,
        x[i].0,
    ) matches Some(w) && same_value(x[i].1, w)) by {
        let key = x[i].0;
        assert(member_of(x, key) is Some);
    }
    assert forall|key: Seq<char>| member_of(x, key) is None implies #[trigger] member_of(
        m,
        key,
    ) is None by {
        if member_of(m, key) is Some {
            assert(member_of(x, key) is Some);
        }
    }
}

/// The way to a value within a document: the keys of members and the
/// indices of items, from the outside in.
pub type Path = Seq<Seq<char>>;

/// What is read from JSON and written to JSON.
pub trait Codec: Sized {
    /// Whether a document has one of the shapes that are read.
    spec fn readable(j: JsonValue) -> bool;

    /// Whether `x` is what the document reads as.
    spec fn reads(j: JsonValue, x: Self) -> bool;

    /// For a document that is not read, the way to the first value in it
    /// that has none of the shapes asked for.
    spec fn fault(j: JsonValue) -> Path;

    /// The document that is written for `x`.
    spec fn json(x: Self) -> JsonValue;

    /// Whether `x` holds no note of a shape that is tolerated but not
    /// canonical.
    spec fn plain(x: Self) -> bool;

    fn decode(j: &Json) -> (r: Result<Self, Vec<String>>)
        ensures
            r is Ok <==> Self::readable(j@),
            r matches Ok(x) ==> Self::reads(j@, x),
            r matches Err(p) ==> p.deep_view() == Self::fault(j@),
    ;

    fn encode(&self) -> (j: Json)
        ensures
            j@ == Self::json(*self),
    ;

    /// Whether what is written for `x` is read again.
    spec fn rereads(x: Self) -> bool;

    /// Whether `y` is `x` without its notes of shapes that are tolerated but
    /// not canonical.
    spec fn settled(x: Self, y: Self) -> bool;

    /// What is written of a value that was read from a canonical document is
    /// that document, but for the order of the members of its objects.
    proof fn round_trip(j: JsonValue, x: Self)
        requires
            Self::reads(j, x),
            Self::plain(x),
        ensures
            same_value(Self::json(x), j),
    ;

    /// What is written for a value reads again as the same value, without
    /// its notes of tolerated shapes.
    proof fn read_again(x: Self, y: Self)
        requires
            Self::rereads(x),
            Self::reads(Self::json(x), y),
        ensures
            Self::settled(x, y),
            Self::plain(y),
    ;

    /// What is written for a value that is read again is readable.
    proof fn rereadable(x: Self)
        requires
            Self::rereads(x),
        ensures
            Self::readable(Self::json(x)),
    ;
}

/// No way: the document itself is at fault.
pub fn here() -> (r: Vec<String>)
    ensures
        r.deep_view() == Seq::<Seq<char>>::empty(),
{
    let r: Vec<String> = Vec::new();
    assert(r.deep_view() =~= Seq::<Seq<char>>::empty());
    r
}

/// The way `rest` behind the step `step`.
fn below(step: String, rest: Vec<String>) -> (r: Vec<String>)
    ensures
        r.deep_view() == seq![step@] + rest.deep_view(),
{
    let mut r: Vec<String> = vec![step];
    let mut rest = rest;
    let ghost first = r.deep_view();
    let ghost tail = rest.deep_view();
    assert(first =~= seq![step@]);
    r.append(&mut rest);
    assert(r.deep_view() =~= first + tail);
    r
}

impl Codec for String {
    open spec fn readable(j: JsonValue) -> bool {
        j is String
    }

    open spec fn reads(j: JsonValue, x: Self) -> bool {
        j == JsonValue::String(x@)
    }

    open spec fn fault(j: JsonValue) -> Path {
        Seq::empty()
    }

    open spec fn json(x: Self) -> JsonValue {
        JsonValue::String(x@)
    }

    open spec fn plain(x: Self) -> bool {
        true
    }

    fn decode(j: &Json) -> (r: Result<Self, Vec<String>>) {
        match j {
            Json::String(s) => Ok(s.clone()),
            _ => Err(here()),
        }
    }

    fn encode(&self) -> (j: Json) {
        Json::String(self.clone())
    }

    proof fn round_trip(j: JsonValue, x: Self) {
    }

    open spec fn rereads(x: Self) -> bool {
        true
    }

    open spec fn settled(x: Self, y: Self) -> bool {
        x@ == y@
    }

    proof fn read_again(x: Self, y: Self) {
    }

    proof fn rereadable(x: Self) {
    }
}

impl Codec for Json {
    open spec fn readable(j: JsonValue) -> bool {
        true
    }

    open spec fn reads(j: JsonValue, x: Self) -> bool {
        j == x@
    }

    open spec fn fault(j: JsonValue) -> Path {
        Seq::empty()
    }

    open spec fn json(x: Self) -> JsonValue {
        x@
    }

    open spec fn plain(x: Self) -> bool {
        true
    }

    fn decode(j: &Json) -> (r: Result<Self, Vec<String>>) {
        Ok(clone_json(j))
    }

    fn encode(&self) -> (j: Json) {
        clone_json(self)
    }

    proof fn round_trip(j: JsonValue, x: Self) {
        lemma_same_value_reflexive(j);
    }

    open spec fn rereads(x: Self) -> bool {
        true
    }

    open spec fn settled(x: Self, y: Self) -> bool {
        x@ == y@
    }

    proof fn read_again(x: Self, y: Self) {
    }

    proof fn rereadable(x: Self) {
    }
}

impl Codec for u16 {
    open spec fn readable(j: JsonValue) -> bool {
        j matches JsonValue::Number(JsonNumber::PosInt(n)) && n <= u16::MAX
    }

    open spec fn reads(j: JsonValue, x: Self) -> bool {
        j == JsonValue::Number(JsonNumber::PosInt(x as u64))
    }

    open spec fn fault(j: JsonValue) -> Path {
        Seq::empty()
    }

    open spec fn json(x: Self) -> JsonValue {
        JsonValue::Number(JsonNumber::PosInt(x as u64))
    }

    open spec fn plain(x: Self) -> bool {
        true
    }

    fn decode(j: &Json) -> (r: Result<Self, Vec<String>>) {
        match j {
            Json::Number(JsonNumber::PosInt(n)) => if *n <= u16::MAX as u64 {
                Ok(*n as u16)
            } else {
                Err(here())
            },
            _ => Err(here()),
        }
    }

    fn encode(&self) -> (j: Json) {
        Json::Number(JsonNumber::PosInt(*self as u64))
    }

    proof fn round_trip(j: JsonValue, x: Self) {
    }

    open spec fn rereads(x: Self) -> bool {
        true
    }

    open spec fn settled(x: Self, y: Self) -> bool {
        x == y
    }

    proof fn read_again(x: Self, y: Self) {
    }

    proof fn rereadable(x: Self) {
    }
}

impl Codec for VectorStringish {
    open spec fn readable(j: JsonValue) -> bool {
        vector_stringish_of(j) is Some
    }

    open spec fn reads(j: JsonValue, x: Self) -> bool {
        vector_stringish_of(j) == Some(x@)
    }

    open spec fn fault(j: JsonValue) -> Path {
        Seq::empty()
    }

    open spec fn json(x: Self) -> JsonValue {
        vector_stringish_json(x@)
    }

    open spec fn plain(x: Self) -> bool {
        !x@.is_string
    }

    fn decode(j: &Json) -> (r: Result<Self, Vec<String>>) {
        match VectorStringish::from_json(j) {
            Some(v) => Ok(v),
            None => Err(here()),
        }
    }

    fn encode(&self) -> (j: Json) {
        self.to_json()
    }

    proof fn round_trip(j: JsonValue, x: Self) {
        law_vector_stringish_round_trip(j);
        lemma_same_value_reflexive(j);
    }

    open spec fn rereads(x: Self) -> bool {
        true
    }

    open spec fn settled(x: Self, y: Self) -> bool {
        y@ == crate::lenient::string_list(x@.items)
    }

    proof fn read_again(x: Self, y: Self) {
        crate::lenient::law_vector_stringish_read_written(x@);
    }

    proof fn rereadable(x: Self) {
        crate::lenient::law_vector_stringish_read_written(x@);
    }
}

impl Codec for Boolish {
    open spec fn readable(j: JsonValue) -> bool {
        boolish_of(j) is Some
    }

    open spec fn reads(j: JsonValue, x: Self) -> bool {
        boolish_of(j) == Some(x@)
    }

    open spec fn fault(j: JsonValue) -> Path {
        Seq::empty()
    }

    open spec fn json(x: Self) -> JsonValue {
        boolish_json(x@)
    }

    open spec fn plain(x: Self) -> bool {
        x@ is Bool
    }

    fn decode(j: &Json) -> (r: Result<Self, Vec<String>>) {
        match Boolish::from_json(j) {
            Some(v) => Ok(v),
            None => Err(here()),
        }
    }

    fn encode(&self) -> (j: Json) {
        self.to_json()
    }

    proof fn round_trip(j: JsonValue, x: Self) {
        law_boolish_round_trip(j);
    }

    open spec fn rereads(x: Self) -> bool {
        true
    }

    open spec fn settled(x: Self, y: Self) -> bool {
        y@ == BoolishView::Bool(x@.value())
    }

    proof fn read_again(x: Self, y: Self) {
    }

    proof fn rereadable(x: Self) {
    }
}

impl<T> Codec for Numberish<T> {
    open spec fn readable(j: JsonValue) -> bool {
        numberish_of(j) is Some
    }

    open spec fn reads(j: JsonValue, x: Self) -> bool {
        numberish_of(j) == Some(x@)
    }

    open spec fn fault(j: JsonValue) -> Path {
        Seq::empty()
    }

    open spec fn json(x: Self) -> JsonValue {
        numberish_json(x@)
    }

    open spec fn plain(x: Self) -> bool {
        x@ is Number
    }

    fn decode(j: &Json) -> (r: Result<Self, Vec<String>>) {
        match Numberish::from_json(j) {
            Some(v) => Ok(v),
            None => Err(here()),
        }
    }

    fn encode(&self) -> (j: Json) {
        self.to_json()
    }

    proof fn round_trip(j: JsonValue, x: Self) {
        law_numberish_round_trip(j);
    }

    open spec fn rereads(x: Self) -> bool {
        numberish_json(x@) is Number
    }

    open spec fn settled(x: Self, y: Self) -> bool {
        y@ == NumberishView::Number(numberish_json(x@)->Number_0)
    }

    proof fn read_again(x: Self, y: Self) {
    }

    proof fn rereadable(x: Self) {
    }
}

/// The place of the first item that is not readable, or the number of the
/// items if all are.
pub open spec fn first_unreadable<T: Codec>(a: Seq<JsonValue>) -> int
    decreases a.len(),
{
    if a.len() == 0 {
        0
    } else {
        let f = first_unreadable::<T>(a.drop_last());
        if f < a.len() - 1 {
            f
        } else if T::readable(a.last()) {
            a.len() as int
        } else {
            a.len() - 1
        }
    }
}

/// Before the first item that is not readable all are readable, and it is not.
pub proof fn lemma_first_unreadable<T: Codec>(a: Seq<JsonValue>)
    ensures
        0 <= first_unreadable::<T>(a) <= a.len(),
        forall|i: int| 0 <= i < first_unreadable::<T>(a) ==> T::readable(#[trigger] a[i]),
        first_unreadable::<T>(a) < a.len() ==> !T::readable(a[first_unreadable::<T>(a)]),
    decreases a.len(),
{
    if a.len() > 0 {
        let front = a.drop_last();
        lemma_first_unreadable::<T>(front);
        assert forall|i: int| 0 <= i < first_unreadable::<T>(a) implies T::readable(
            #[trigger] a[i],
        ) by {
            if i < front.len() {
                assert(a[i] == front[i]);
            }
        }
    }
}

impl<T: Codec> Codec for Vec<T> {
    /// An array of which each item is readable.
    open spec fn readable(j: JsonValue) -> bool {
        j matches JsonValue::Array(a) && forall|i: int|
            0 <= i < a.len() ==> T::readable(#[trigger] a[i])
    }

    open spec fn reads(j: JsonValue, x: Self) -> bool {
        j matches JsonValue::Array(a) && a.len() == x@.len() && forall|i: int|
            0 <= i < a.len() ==> T::reads(#[trigger] a[i], x@[i])
    }

    /// The index of the first item that is not readable, and the way within
    /// it.
    open spec fn fault(j: JsonValue) -> Path {
        match j {
            JsonValue::Array(a) => {
                let f = first_unreadable::<T>(a);
                if f < a.len() {
                    seq![decimal(f as nat)] + T::fault(a[f])
                } else {
                    Seq::empty()
                }
            },
            _ => Seq::empty(),
        }
    }

    open spec fn json(x: Self) -> JsonValue {
        JsonValue::Array(Seq::new(x@.len(), |i: int| T::json(x@[i])))
    }

    open spec fn plain(x: Self) -> bool {
        forall|i: int| 0 <= i < x@.len() ==> T::plain(#[trigger] x@[i])
    }

    fn decode(j: &Json) -> (r: Result<Self, Vec<String>>) {
        match j {
            Json::Array(items) => {
                proof {
                    lemma_array_view(*j);
                }
                let ghost a = values_of(items@);
                let mut out: Vec<T> = Vec::new();
                let mut i: usize = 0;
                assert(a.take(0).len() == 0);
                while i < items.len()
                    invariant
                        i <= items.len(),
                        a == values_of(items@),
                        j@ == JsonValue::Array(a),
                        out@.len() == i,
                        first_unreadable::<T>(a.take(i as int)) == i,
                        forall|k: int| 0 <= k < i ==> T::readable(#[trigger] a[k]),
                        forall|k: int| 0 <= k < i ==> T::reads(#[trigger] a[k], out@[k]),
                    decreases items.len() - i,
                {
                    proof {
                        let next = a.take(i as int + 1);
                        assert(next.drop_last() =~= a.take(i as int));
                        assert(next.last() == items@[i as int]@);
                    }
                    match T::decode(&items[i]) {
                        Ok(x) => {
                            out.push(x);
                        },
                        Err(p) => {
                            proof {
                                assert(!T::readable(a[i as int]));
                                assert(j@->Array_0[i as int] == a[i as int]);
                                assert(!Self::readable(j@));
                                assert(first_unreadable::<T>(a.take(i as int + 1)) == i);
                                lemma_first_unreadable_stays::<T>(a, i as int + 1);
                            }
                            return Err(below(u64_to_decimal(i as u64), p));
                        },
                    }
                    i += 1;
                }
                Ok(out)
            },
            _ => Err(here()),
        }
    }

    fn encode(&self) -> (j: Json) {
        let mut items: Vec<Json> = Vec::new();
        let mut i: usize = 0;
        while i < self.len()
            invariant
                i <= self.len(),
                items@.len() == i,
                forall|k: int| 0 <= k < i ==> (#[trigger] items@[k])@ == T::json(self@[k]),
            decreases self.len() - i,
        {
            items.push(self[i].encode());
            i += 1;
        }
        let j = Json::Array(items);
        proof {
            lemma_array_view(j);
            assert(values_of(items@) =~= Seq::new(self@.len(), |i: int| T::json(self@[i])));
        }
        j
    }

    proof fn round_trip(j: JsonValue, x: Self) {
        let a = j->Array_0;
        let out = Seq::new(x@.len(), |i: int| T::json(x@[i]));
        assert forall|i: int| 0 <= i < out.len() implies same_value(#[trigger] out[i], a[i]) by {
            T::round_trip(a[i], x@[i]);
        }
    }

    open spec fn rereads(x: Self) -> bool {
        forall|i: int| 0 <= i < x@.len() ==> T::rereads(#[trigger] x@[i])
    }

    open spec fn settled(x: Self, y: Self) -> bool {
        x@.len() == y@.len() && forall|i: int| 0 <= i < x@.len() ==> T::settled(#[trigger] x@[i], y@[i])
    }

    proof fn read_again(x: Self, y: Self) {
        let a = Seq::new(x@.len(), |i: int| T::json(x@[i]));
        assert forall|i: int| 0 <= i < x@.len() implies T::settled(#[trigger] x@[i], y@[i]) by {
            assert(T::reads(a[i], y@[i]));
            T::read_again(x@[i], y@[i]);
        }
        assert forall|i: int| 0 <= i < y@.len() implies T::plain(#[trigger] y@[i]) by {
            assert(T::reads(a[i], y@[i]));
            T::read_again(x@[i], y@[i]);
        }
    }

    proof fn rereadable(x: Self) {
        let a = Seq::new(x@.len(), |i: int| T::json(x@[i]));
        assert forall|i: int| 0 <= i < a.len() implies T::readable(#[trigger] a[i]) by {
            T::rereadable(x@[i]);
        }
    }
}

/// A first item that is not readable stays the first when more items follow.
pub proof fn lemma_first_unreadable_stays<T: Codec>(a: Seq<JsonValue>, k: int)
    requires
        0 <= k <= a.len(),
        first_unreadable::<T>(a.take(k)) < k,
    ensures
        first_unreadable::<T>(a) == first_unreadable::<T>(a.take(k)),
    decreases a.len() - k,
{
    if k < a.len() {
        let next = a.take(k + 1);
        assert(next.drop_last() =~= a.take(k));
        lemma_first_unreadable_stays::<T>(a, k + 1);
    } else {
        assert(a.take(k) =~= a);
    }
}

/// Whether the member of a key, if there is one, is readable.
pub open spec fn field_readable<T: Codec>(m: Members, key: Seq<char>) -> bool {
    match member_of(m, key) {
        Some(v) => T::readable(v),
        None => true,
    }
}

/// Whether `f` is what the member of a key reads as: nothing where there is
/// no member.
pub open spec fn field_reads<T: Codec>(m: Members, key: Seq<char>, f: Option<T>) -> bool {
    match member_of(m, key) {
        Some(v) => f matches Some(x) && T::reads(v, x),
        None => f is None,
    }
}

/// The way to the fault of the member of a key.
pub open spec fn field_fault<T: Codec>(m: Members, key: Seq<char>) -> Path {
    match member_of(m, key) {
        Some(v) => seq![key] + T::fault(v),
        None => seq![key],
    }
}

/// The field that is written for a value under a key.
pub open spec fn field_json<T: Codec>(key: Seq<char>, f: Option<T>) -> Field {
    (
        key,
        match f {
            Some(x) => Some(T::json(x)),
            None => None,
        },
    )
}

/// Whether the value, if there is one, is plain.
pub open spec fn field_plain<T: Codec>(f: Option<T>) -> bool {
    match f {
        Some(x) => T::plain(x),
        None => true,
    }
}

/// Whether there is a member of the key, and it is readable.
pub open spec fn required_readable<T: Codec>(m: Members, key: Seq<char>) -> bool {
    member_of(m, key) matches Some(v) && T::readable(v)
}

/// Whether `x` is what the member of the key reads as.
pub open spec fn required_reads<T: Codec>(m: Members, key: Seq<char>, x: T) -> bool {
    member_of(m, key) matches Some(v) && T::reads(v, x)
}

/// The field that is written for a value that is always there.
pub open spec fn required_json<T: Codec>(key: Seq<char>, x: T) -> Field {
    (key, Some(T::json(x)))
}

/// Members with the member of a field at their end, if the field is present.
pub open spec fn pushed(m: Members, field: Field) -> Members {
    match field.1 {
        Some(v) => m.push((field.0, v)),
        None => m,
    }
}

/// Reads the member of a key, if there is one.
pub fn read_field<T: Codec>(m: &Vec<(String, Json)>, key: &str) -> (r: Result<
    Option<T>,
    Vec<String>,
>)
    ensures
        r is Ok <==> field_readable::<T>(members_of(m@), key@),
        r matches Ok(f) ==> field_reads(members_of(m@), key@, f),
        r matches Err(p) ==> p.deep_view() == field_fault::<T>(members_of(m@), key@),
{
    match get_member(m, key) {
        None => Ok(None),
        Some(v) => match T::decode(v) {
            Ok(x) => Ok(Some(x)),
            Err(p) => Err(below(key.to_owned(), p)),
        },
    }
}

/// Reads the member of a key, which must be there.
pub fn read_required<T: Codec>(m: &Vec<(String, Json)>, key: &str) -> (r: Result<T, Vec<String>>)
    ensures
        r is Ok <==> required_readable::<T>(members_of(m@), key@),
        r matches Ok(x) ==> required_reads(members_of(m@), key@, x),
        r matches Err(p) ==> p.deep_view() == field_fault::<T>(members_of(m@), key@),
{
    match get_member(m, key) {
        None => Err(below(key.to_owned(), here())),
        Some(v) => match T::decode(v) {
            Ok(x) => Ok(x),
            Err(p) => Err(below(key.to_owned(), p)),
        },
    }
}

/// Writes the member of a key, if there is a value for it.
pub fn write_field<T: Codec>(out: &mut Vec<(String, Json)>, key: &str, f: &Option<T>)
    ensures
        members_of(final(out)@) == pushed(members_of(old(out)@), field_json(key@, *f)),
{
    match f {
        Some(x) => {
            let v = x.encode();
            out.push((key.to_owned(), v));
            assert(members_of(out@) =~= members_of(old(out)@).push((key@, v@)));
        },
        None => {},
    }
}

/// Writes the member of a key.
pub fn write_required<T: Codec>(out: &mut Vec<(String, Json)>, key: &str, x: &T)
    ensures
        members_of(final(out)@) == pushed(members_of(old(out)@), required_json(key@, *x)),
{
    let v = x.encode();
    out.push((key.to_owned(), v));
    assert(members_of(out@) =~= members_of(old(out)@).push((key@, v@)));
}

/// The texts of string slices.
pub open spec fn names(keys: Seq<&str>) -> Seq<Seq<char>> {
    Seq::new(keys.len(), |i: int| keys[i]@)
}

/// The members whose key is none of `keys`, copied.
pub fn keep_unknown(m: &Vec<(String, Json)>, keys: &[&str]) -> (r: Vec<(String, Json)>)
    ensures
        members_of(r@) == without_keys(members_of(m@), names(keys@)),
{
    let ghost all = members_of(m@);
    let mut kept: Vec<(String, Json)> = Vec::new();
    let mut i: usize = 0;
    assert(all.take(0).len() == 0);
    assert(members_of(kept@) =~= without_keys(all.take(0), names(keys@)));
    while i < m.len()
        invariant
            i <= m.len(),
            all == members_of(m@),
            members_of(kept@) == without_keys(all.take(i as int), names(keys@)),
        decreases m.len() - i,
    {
        proof {
            let next = all.take(i as int + 1);
            assert(next.drop_last() =~= all.take(i as int));
            assert(next.last() == all[i as int]);
        }
        let mut known = false;
        let mut k: usize = 0;
        while k < keys.len()
            invariant
                k <= keys.len(),
                i < m.len(),
                known == (exists|e: int| 0 <= e < k && names(keys@)[e] == m@[i as int].0@),
            decreases keys.len() - k,
        {
            if text_eq(keys[k], m[i].0.as_str()) {
                known = true;
                assert(names(keys@)[k as int] == m@[i as int].0@);
            }
            k += 1;
        }
        assert(known == names(keys@).contains(all[i as int].0));
        if !known {
            let ghost before = members_of(kept@);
            kept.push((m[i].0.clone(), clone_json(&m[i].1)));
            assert(members_of(kept@) =~= before.push(all[i as int]));
        }
        i += 1;
    }
    assert(all.take(m.len() as int) =~= all);
    kept
}

/// Writes members that were kept as they are.
pub fn write_kept(out: &mut Vec<(String, Json)>, kept: &Vec<(String, Json)>)
    ensures
        members_of(final(out)@) == members_of(old(out)@) + members_of(kept@),
{
    let mut i: usize = 0;
    assert(members_of(out@) =~= members_of(old(out)@) + members_of(kept@).take(0));
    while i < kept.len()
        invariant
            i <= kept.len(),
            members_of(out@) == members_of(old(out)@) + members_of(kept@).take(i as int),
        decreases kept.len() - i,
    {
        let ghost before = members_of(out@);
        out.push((kept[i].0.clone(), clone_json(&kept[i].1)));
        assert(members_of(out@) =~= before.push(members_of(kept@)[i as int]));
        assert(members_of(kept@).take(i as int + 1) =~= members_of(kept@).take(i as int).push(
            members_of(kept@)[i as int],
        ));
        assert(members_of(out@) =~= members_of(old(out)@) + members_of(kept@).take(i as int + 1));
        i += 1;
    }
    assert(members_of(kept@).take(kept.len() as int) =~= members_of(kept@));
}

/// What is written for a field that was read from a canonical member is the
/// same as that member.
pub proof fn lemma_field_round_trip<T: Codec>(m: Members, key: Seq<char>, f: Option<T>)
    requires
        field_reads(m, key, f),
        field_plain(f),
    ensures
        field_matches(field_json(key, f), m),
{
    match f {
        Some(x) => {
            T::round_trip(member_of(m, key)->0, x);
        },
        None => {},
    }
}

/// What is written for a field that is always there and was read from a
/// canonical member is the same as that member.
pub proof fn lemma_required_round_trip<T: Codec>(m: Members, key: Seq<char>, x: T)
    requires
        required_reads(m, key, x),
        T::plain(x),
    ensures
        field_matches(required_json(key, x), m),
{
    T::round_trip(member_of(m, key)->0, x);
}

/// What is written for fields is what is written for all but the last, and
/// then for the last.
pub proof fn lemma_written_push(fields: Seq<Field>, last: Field)
    ensures
        written(fields.push(last)) == pushed(written(fields), last),
{
    assert(fields.push(last).drop_last() =~= fields);
}

/// Whether none of the members has one of the keys.
pub open spec fn no_known(kept: Members, keys: Seq<Seq<char>>) -> bool {
    forall|i: int| 0 <= i < kept.len() ==> !keys.contains((#[trigger] kept[i]).0)
}

/// What is left of members without keys that none of them has is the
/// members.
pub proof fn lemma_without_none(kept: Members, keys: Seq<Seq<char>>)
    requires
        no_known(kept, keys),
    ensures
        without_keys(kept, keys) == kept,
    decreases kept.len(),
{
    if kept.len() > 0 {
        let front = kept.drop_last();
        assert forall|i: int| 0 <= i < front.len() implies !keys.contains(
            (#[trigger] front[i]).0,
        ) by {
            assert(front[i] == kept[i]);
        }
        lemma_without_none(front, keys);
        assert(front.push(kept.last()) =~= kept);
    }
}

/// Nothing is left of what is written for fields without the keys of the
/// fields.
pub proof fn lemma_without_written(fields: Seq<Field>, keys: Seq<Seq<char>>)
    requires
        forall|i: int| 0 <= i < fields.len() ==> keys.contains((#[trigger] fields[i]).0),
    ensures
        without_keys(written(fields), keys).len() == 0,
    decreases fields.len(),
{
    if fields.len() > 0 {
        let front = fields.drop_last();
        assert forall|i: int| 0 <= i < front.len() implies keys.contains(
            (#[trigger] front[i]).0,
        ) by {
            assert(front[i] == fields[i]);
        }
        lemma_without_written(front, keys);
        match fields.last().1 {
            Some(v) => {
                let w = written(front).push((fields.last().0, v));
                assert(w.drop_last() =~= written(front));
            },
            None => {},
        }
    }
}

/// What is left of members that stand one after the other is what is left
/// of each.
pub proof fn lemma_without_append(a: Members, b: Members, keys: Seq<Seq<char>>)
    ensures
        without_keys(a + b, keys) == without_keys(a, keys) + without_keys(b, keys),
    decreases b.len(),
{
    if b.len() == 0 {
        assert(a + b =~= a);
        assert(without_keys(a, keys) + without_keys(b, keys) =~= without_keys(a, keys));
    } else {
        let all = a + b;
        assert(all.drop_last() =~= a + b.drop_last());
        assert(all.last() == b.last());
        lemma_without_append(a, b.drop_last(), keys);
        if !keys.contains(b.last().0) {
            assert(without_keys(a, keys) + without_keys(b, keys) =~= (without_keys(a, keys)
                + without_keys(b.drop_last(), keys)).push(b.last()));
        }
    }
}

/// In the object that is written for fields and for members that have none
/// of their keys, each field has its member, and the members that are left
/// without the keys of the fields are the members that were kept.
pub proof fn lemma_object_read_again(fields: Seq<Field>, kept: Members)
    requires
        distinct(keys_of(fields)),
        no_known(kept, keys_of(fields)),
    ensures
        forall|i: int|
            0 <= i < fields.len() ==> member_of(written(fields) + kept, (#[trigger] fields[i]).0)
                == fields[i].1,
        without_keys(written(fields) + kept, keys_of(fields)) == kept,
{
    let keys = keys_of(fields);
    let m = written(fields) + kept;
    assert forall|i: int| 0 <= i < fields.len() implies member_of(m, (#[trigger] fields[i]).0)
        == fields[i].1 by {
        let key = fields[i].0;
        lemma_member_of_append(written(fields), kept, key);
        lemma_member_of_written(fields, key);
        assert(keys[i] == key);
        lemma_without_none(kept, keys);
        lemma_member_of_without(kept, keys, key);
    }
    assert forall|i: int| 0 <= i < fields.len() implies keys.contains((#[trigger] fields[i]).0) by {
        assert(keys[i] == fields[i].0);
    }
    lemma_without_written(fields, keys);
    lemma_without_none(kept, keys);
    lemma_without_append(written(fields), kept, keys);
    assert(without_keys(written(fields), keys) =~= Seq::empty());
    assert(without_keys(written(fields), keys) + kept =~= kept);
}

/// Whether what is written for a value that may be absent is read again.
pub open spec fn field_rereads<T: Codec>(f: Option<T>) -> bool {
    match f {
        Some(x) => T::rereads(x),
        None => true,
    }
}

/// Whether `g` is `f` without its notes of tolerated shapes.
pub open spec fn field_settled<T: Codec>(f: Option<T>, g: Option<T>) -> bool {
    match (f, g) {
        (Some(x), Some(y)) => T::settled(x, y),
        (None, None) => true,
        _ => false,
    }
}

/// A field that is read from what was written for it is the field that was
/// written, without its notes of tolerated shapes.
pub proof fn lemma_field_read_again<T: Codec>(
    m: Members,
    key: Seq<char>,
    f: Option<T>,
    g: Option<T>,
)
    requires
        member_of(m, key) == field_json(key, f).1,
        field_rereads(f),
        field_reads(m, key, g),
    ensures
        field_settled(f, g),
        field_plain(g),
{
    match f {
        Some(x) => {
            T::read_again(x, g->0);
        },
        None => {},
    }
}

/// A field that must be there and is read from what was written for it is
/// the field that was written.
pub proof fn lemma_required_read_again<T: Codec>(m: Members, key: Seq<char>, x: T, y: T)
    requires
        member_of(m, key) == required_json(key, x).1,
        T::rereads(x),
        required_reads(m, key, y),
    ensures
        T::settled(x, y),
        T::plain(y),
{
    T::read_again(x, y);
}

/// What is written for a field that is read again is readable.
pub proof fn lemma_field_rereadable<T: Codec>(m: Members, key: Seq<char>, f: Option<T>)
    requires
        member_of(m, key) == field_json(key, f).1,
        field_rereads(f),
    ensures
        field_readable::<T>(m, key),
{
    match f {
        Some(x) => {
            T::rereadable(x);
        },
        None => {},
    }
}

/// What is written for a field that must be there and is read again is
/// readable.
pub proof fn lemma_required_rereadable<T: Codec>(m: Members, key: Seq<char>, x: T)
    requires
        member_of(m, key) == required_json(key, x).1,
        T::rereads(x),
    ensures
        required_readable::<T>(m, key),
{
    T::rereadable(x);
}

} // verus!
