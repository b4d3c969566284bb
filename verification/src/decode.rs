//! Which kind of response a JSON document is.

use crate::check::RdapStructure;
use crate::codec::{same_value, Codec};
use crate::response::RdapResponse;
use crate::json::{get_member, lemma_object_view, member_of, members_of, Json, JsonValue};
use crate::text::text_eq;
use vstd::prelude::*;

verus! {

/// Why a document is no response.
#[derive(Debug, Clone, PartialEq, Eq)]
pub enum DecodeError {
    /// The value of `objectClassName` names no object class.
    UnknownObjectClass,
    /// A value in the document has none of the shapes asked for: the way to
    /// it, by the keys of members and the indices of items, and what is wrong
    /// with it.
    SchemaError { path: Vec<String>, kind: SchemaErrorKind },
}

/// In what way a document has no known shape.
#[derive(Debug, Clone, Copy, PartialEq, Eq, Structural)]
pub enum SchemaErrorKind {
    /// The document is no JSON object.
    NotAnObject,
    /// The object names no object class and has the members of no other kind
    /// of response.
    NoKnownShape,
    /// A member that is needed is missing, or a member has a shape that is
    /// not read.
    BadMember,
}

/// What a [`DecodeError`] stands for.
pub ghost enum DecodeErrorView {
    UnknownObjectClass,
    SchemaError { path: Seq<Seq<char>>, kind: SchemaErrorKind },
}

impl View for DecodeError {
    type V = DecodeErrorView;

    open spec fn view(&self) -> DecodeErrorView {
        match self {
            DecodeError::UnknownObjectClass => DecodeErrorView::UnknownObjectClass,
            DecodeError::SchemaError { path, kind } => DecodeErrorView::SchemaError {
                path: path.deep_view(),
                kind: *kind,
            },
        }
    }
}

/// The error of a document as a whole, of the kind `kind`.
pub open spec fn schema_error(kind: SchemaErrorKind) -> DecodeErrorView {
    DecodeErrorView::SchemaError { path: Seq::empty(), kind }
}

/// The object class that a name stands for.
pub open spec fn class_of_name(name: Seq<char>) -> Option<RdapStructure> {
    if name == "domain"@ {
        Some(RdapStructure::Domain)
    } else if name == "nameserver"@ {
        Some(RdapStructure::Nameserver)
    } else if name == "entity"@ {
        Some(RdapStructure::Entity)
    } else if name == "autnum"@ {
        Some(RdapStructure::Autnum)
    } else if name == "ip network"@ {
        Some(RdapStructure::Network)
    } else {
        None
    }
}

/// Whether a key is one that a help response has at its top.
pub open spec fn is_help_key(key: Seq<char>) -> bool {
    key == "rdapConformance"@ || key == "notices"@ || key == "lang"@
}

/// Whether every member has a key that a help response has at its top.
pub open spec fn is_help_shaped(members: Seq<(Seq<char>, JsonValue)>) -> bool {
    forall|i: int| 0 <= i < members.len() ==> is_help_key((#[trigger] members[i]).0)
}

/// Whether the member with the key `key` is present and is an array.
pub open spec fn has_array(members: Seq<(Seq<char>, JsonValue)>, key: Seq<char>) -> bool {
    match member_of(members, key) {
        Some(v) => v is Array,
        None => false,
    }
}

/// The kind of response that a document is.
///
/// An object that has `objectClassName` is of the class that it names. Any
/// other object is an error if it has `errorCode`, help if it has `notices`
/// and nothing at its top that help does not have, and the result of a search
/// if it has the array of such results.
pub open spec fn kind_of(j: JsonValue) -> Result<RdapStructure, DecodeErrorView> {
    match j {
        JsonValue::Object(members) => match member_of(members, "objectClassName"@) {
            Some(JsonValue::String(name)) => match class_of_name(name) {
                Some(class) => Ok(class),
                None => Err(DecodeErrorView::UnknownObjectClass),
            },
            Some(_) => Err(DecodeErrorView::UnknownObjectClass),
            None => if member_of(members, "errorCode"@) is Some {
                Ok(RdapStructure::Error)
            } else if member_of(members, "notices"@) is Some && is_help_shaped(members) {
                Ok(RdapStructure::Help)
            } else if has_array(members, "domainSearchResults"@) {
                Ok(RdapStructure::DomainSearchResults)
            } else if has_array(members, "nameserverSearchResults"@) {
                Ok(RdapStructure::NameserverSearchResults)
            } else if has_array(members, "entitySearchResults"@) {
                Ok(RdapStructure::EntitySearchResults)
            } else {
                Err(schema_error(SchemaErrorKind::NoKnownShape))
            },
        },
        _ => Err(schema_error(SchemaErrorKind::NotAnObject)),
    }
}

fn class_named(name: &str) -> (r: Option<RdapStructure>)
    ensures
        r == class_of_name(name@),
{
    if text_eq(name, "domain") {
        Some(RdapStructure::Domain)
    } else if text_eq(name, "nameserver") {
        Some(RdapStructure::Nameserver)
    } else if text_eq(name, "entity") {
        Some(RdapStructure::Entity)
    } else if text_eq(name, "autnum") {
        Some(RdapStructure::Autnum)
    } else if text_eq(name, "ip network") {
        Some(RdapStructure::Network)
    } else {
        None
    }
}

fn help_shaped(members: &Vec<(String, Json)>) -> (r: bool)
    ensures
        r == is_help_shaped(members_of(members@)),
{
    let mut i: usize = 0;
    while i < members.len()
        invariant
            i <= members.len(),
            forall|k: int| 0 <= k < i ==> is_help_key((#[trigger] members_of(members@)[k]).0),
        decreases members.len() - i,
    {
        let key = members[i].0.as_str();
        assert(members_of(members@)[i as int].0 == key@);
        if !(text_eq(key, "rdapConformance") || text_eq(key, "notices") || text_eq(key, "lang")) {
            return false;
        }
        i += 1;
    }
    true
}

fn array_member(members: &Vec<(String, Json)>, key: &str) -> (r: bool)
    ensures
        r == has_array(members_of(members@), key@),
{
    match get_member(members, key) {
        Some(Json::Array(_)) => true,
        _ => false,
    }
}

/// Tells which kind of response a document is.
pub fn discriminate(j: &Json) -> (r: Result<RdapStructure, DecodeError>)
    ensures
        match r {
            Ok(k) => kind_of(j@) == Ok::<RdapStructure, DecodeErrorView>(k),
            Err(e) => kind_of(j@) == Err::<RdapStructure, DecodeErrorView>(e@),
        },
{
    match j {
        Json::Object(members) => {
            proof {
                lemma_object_view(*j);
            }
            match get_member(members, "objectClassName") {
                Some(Json::String(name)) => match class_named(name.as_str()) {
                    Some(class) => Ok(class),
                    None => Err(DecodeError::UnknownObjectClass),
                },
                Some(_) => Err(DecodeError::UnknownObjectClass),
                None => {
                    if get_member(members, "errorCode").is_some() {
                        Ok(RdapStructure::Error)
                    } else if get_member(members, "notices").is_some() && help_shaped(members) {
                        Ok(RdapStructure::Help)
                    } else if array_member(members, "domainSearchResults") {
                        Ok(RdapStructure::DomainSearchResults)
                    } else if array_member(members, "nameserverSearchResults") {
                        Ok(RdapStructure::NameserverSearchResults)
                    } else if array_member(members, "entitySearchResults") {
                        Ok(RdapStructure::EntitySearchResults)
                    } else {
                        Err(whole(SchemaErrorKind::NoKnownShape))
                    }
                },
            }
        },
        _ => Err(whole(SchemaErrorKind::NotAnObject)),
    }
}

/// The error of a document as a whole, of the kind `kind`.
fn whole(kind: SchemaErrorKind) -> (e: DecodeError)
    ensures
        e@ == schema_error(kind),
{
    let path: Vec<String> = Vec::new();
    assert(path.deep_view() =~= Seq::<Seq<char>>::empty());
    DecodeError::SchemaError { path, kind }
}

/// Why a document does not read as a response: the error of its kind, if
/// it is of none; else the way to the first value in it that has none of the
/// shapes asked for.
pub open spec fn decode_error(j: JsonValue) -> DecodeErrorView {
    match kind_of(j) {
        Err(e) => e,
        Ok(_) => DecodeErrorView::SchemaError {
            path: RdapResponse::fault(j),
            kind: SchemaErrorKind::BadMember,
        },
    }
}

impl RdapResponse {
    /// Reads a response from a document.
    ///
    /// The document is read if it is of one of the kinds of response and each
    /// of its members that is known has a shape that is read; members that
    /// are not known are kept.
    pub fn from_json(j: &Json) -> (r: Result<RdapResponse, DecodeError>)
        ensures
            r is Ok <==> RdapResponse::readable(j@),
            r matches Ok(x) ==> RdapResponse::reads(j@, x),
            r matches Err(e) ==> e@ == decode_error(j@),
    {
        match discriminate(j) {
            Err(e) => Err(e),
            Ok(_) => match RdapResponse::decode(j) {
                Ok(x) => Ok(x),
                Err(path) => Err(DecodeError::SchemaError { path, kind: SchemaErrorKind::BadMember }),
            },
        }
    }

    /// Writes the response as a document, every value in its canonical
    /// shape.
    pub fn to_json(&self) -> (j: Json)
        ensures
            j@ == RdapResponse::json(*self),
    {
        self.encode()
    }
}

/// For every document that reads as a response without any deviation in
/// shape, what is written of the response is the document, but for the order
/// of the members of its objects.
pub proof fn law_response_round_trip(j: JsonValue, x: RdapResponse)
    requires
        RdapResponse::reads(j, x),
        RdapResponse::plain(x),
    ensures
        same_value(RdapResponse::json(x), j),
{
    RdapResponse::round_trip(j, x);
}

/// For every response of which what is written is read again, it is read
/// again as a response, and as the same response without its notes of shapes
/// that are tolerated but not canonical.
pub proof fn law_response_read_again(x: RdapResponse, y: RdapResponse)
    requires
        RdapResponse::rereads(x),
    ensures
        RdapResponse::readable(RdapResponse::json(x)),
        RdapResponse::reads(RdapResponse::json(x), y) ==> RdapResponse::settled(x, y)
            && RdapResponse::plain(y),
{
    RdapResponse::rereadable(x);
    if RdapResponse::reads(RdapResponse::json(x), y) {
        RdapResponse::read_again(x, y);
    }
}

} // verus!
