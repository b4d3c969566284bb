//! Reading a jCard.
//!
//! The properties are taken in their order. Of the name, the full name and the
//! kind the first one counts; every other property that is known adds an item
//! to its list. Properties that are not known, or not well formed, are passed
//! over.

use crate::contact::{
    Contact, ContactView, Email, EmailView, Lang, LangView, NameParts, NamePartsView, Phone,
    PhoneView, PostalAddress, PostalAddressView,
};
use crate::json::{
    get_member, lemma_array_view, lemma_object_view, member_of, members_of, values_of, Json,
    JsonNumber, JsonValue,
};
use crate::lenient::{all_strings, texts_of, VectorStringish};
use crate::response::Entity;
use crate::text::{chars_of, number_of_text, parse_decimal, text_eq};
use crate::vcard::Members;
use vstd::prelude::*;

verus! {

/// The text of a JSON string.
pub open spec fn as_text(j: JsonValue) -> Option<Seq<char>> {
    match j {
        JsonValue::String(s) => Some(s),
        _ => None,
    }
}

/// The text of a JSON string that is not empty.
pub open spec fn as_filled_text(j: JsonValue) -> Option<Seq<char>> {
    match j {
        JsonValue::String(s) => if s.len() > 0 {
            Some(s)
        } else {
            None
        },
        _ => None,
    }
}

/// `None` for no items, else the items.
pub open spec fn filled<T>(items: Seq<T>) -> Option<Seq<T>> {
    if items.len() == 0 {
        None
    } else {
        Some(items)
    }
}

/// The texts of a value that stands for a list: one text for a string that is
/// not empty, the texts of an array of strings; no list for anything else.
pub open spec fn as_texts(j: JsonValue) -> Option<Seq<Seq<char>>> {
    match j {
        JsonValue::String(s) => if s.len() > 0 {
            Some(seq![s])
        } else {
            None
        },
        JsonValue::Array(a) => if all_strings(a) {
            filled(texts_of(a))
        } else {
            None
        },
        _ => None,
    }
}

/// The labels of the parameter `type`: one for a string, several for an array
/// of strings, none otherwise.
pub open spec fn labels_in(params: Members) -> Seq<Seq<char>> {
    match member_of(params, "type"@) {
        Some(JsonValue::String(s)) => seq![s],
        Some(JsonValue::Array(a)) => if all_strings(a) {
            texts_of(a)
        } else {
            Seq::empty()
        },
        _ => Seq::empty(),
    }
}

/// The preference of the parameter `pref`: a number, or the decimal text of
/// one in a string.
pub open spec fn pref_in(params: Members) -> Option<u64> {
    match member_of(params, "pref"@) {
        Some(JsonValue::String(s)) => match number_of_text(s, u64::MAX as nat) {
            Some(n) => Some(n as u64),
            None => None,
        },
        Some(JsonValue::Number(JsonNumber::PosInt(n))) => Some(n),
        _ => None,
    }
}

/// The text of the parameter `label`.
pub open spec fn label_in(params: Members) -> Option<Seq<char>> {
    match member_of(params, "label"@) {
        Some(JsonValue::String(s)) => Some(s),
        _ => None,
    }
}

/// Whether a label names a feature of a phone number.
pub open spec fn is_feature(label: Seq<char>) -> bool {
    ||| label == "voice"@
    ||| label == "fax"@
    ||| label == "text"@
    ||| label == "video"@
    ||| label == "cell"@
    ||| label == "textphone"@
    ||| label == "pager"@
}

/// The labels that are features, or those that are not, in their order.
pub open spec fn keep(labels: Seq<Seq<char>>, features: bool) -> Seq<Seq<char>>
    decreases labels.len(),
{
    if labels.len() == 0 {
        labels
    } else {
        let before = keep(labels.drop_last(), features);
        if is_feature(labels.last()) == features {
            before.push(labels.last())
        } else {
            before
        }
    }
}

/// The name, the parameters and the value of a property: an array of at
/// least four items of which the first is a string and the second an object.
pub open spec fn parts_of(p: JsonValue) -> Option<(Seq<char>, Members, JsonValue)> {
    match p {
        JsonValue::Array(a) => if a.len() >= 4 {
            match (a[0], a[1]) {
                (JsonValue::String(name), JsonValue::Object(params)) => Some((name, params, a[3])),
                _ => None,
            }
        } else {
            None
        },
        _ => None,
    }
}

/// A list with one more item at its end.
pub open spec fn added<T>(list: Option<Seq<T>>, item: T) -> Option<Seq<T>> {
    match list {
        Some(l) => Some(l.push(item)),
        None => Some(seq![item]),
    }
}

/// The structured name that five parts stand for.
pub open spec fn name_of(parts: Seq<JsonValue>) -> NamePartsView {
    NamePartsView {
        surnames: as_texts(parts[0]),
        given_names: as_texts(parts[1]),
        middle_names: as_texts(parts[2]),
        prefixes: as_texts(parts[3]),
        suffixes: as_texts(parts[4]),
    }
}

/// The postal address that a property stands for: that of the seven parts of
/// an array, or that of a text, which is the whole address unstructured.
pub open spec fn address_of(params: Members, value: JsonValue) -> Option<PostalAddressView> {
    match value {
        JsonValue::Array(a) => if a.len() == 7 {
            Some(
                PostalAddressView {
                    preference: pref_in(params),
                    contexts: filled(labels_in(params)),
                    full_address: label_in(params),
                    street_parts: as_texts(a[2]),
                    locality: as_filled_text(a[3]),
                    region_name: as_filled_text(a[4]),
                    region_code: None,
                    country_name: as_filled_text(a[6]),
                    country_code: None,
                    postal_code: as_filled_text(a[5]),
                },
            )
        } else {
            None
        },
        JsonValue::String(s) => Some(
            PostalAddressView {
                preference: pref_in(params),
                contexts: filled(labels_in(params)),
                full_address: Some(s),
                street_parts: None,
                locality: None,
                region_name: None,
                region_code: None,
                country_name: None,
                country_code: None,
                postal_code: None,
            },
        ),
        _ => None,
    }
}

/// The contact without anything.
pub open spec fn no_contact() -> ContactView {
    ContactView {
        langs: None,
        kind: None,
        full_name: None,
        name_parts: None,
        nick_names: None,
        titles: None,
        roles: None,
        organization_names: None,
        postal_addresses: None,
        emails: None,
        phones: None,
        contact_uris: None,
        urls: None,
    }
}

/// The contact after a property was read whose value is the text `t` and
/// whose name is none of `fn`, `kind`, `n` and `adr`.
pub open spec fn absorb_text(
    c: ContactView,
    name: Seq<char>,
    params: Members,
    t: Seq<char>,
) -> ContactView {
    if name == "lang"@ {
        ContactView { langs: added(c.langs, LangView { preference: pref_in(params), tag: t }), ..c }
    } else if name == "org"@ {
        ContactView { organization_names: added(c.organization_names, t), ..c }
    } else if name == "title"@ {
        ContactView { titles: added(c.titles, t), ..c }
    } else if name == "role"@ {
        ContactView { roles: added(c.roles, t), ..c }
    } else if name == "nickname"@ {
        ContactView { nick_names: added(c.nick_names, t), ..c }
    } else if name == "email"@ {
        ContactView {
            emails: added(
                c.emails,
                EmailView {
                    preference: pref_in(params),
                    contexts: filled(labels_in(params)),
                    email: t,
                },
            ),
            ..c
        }
    } else if name == "tel"@ {
        ContactView {
            phones: added(
                c.phones,
                PhoneView {
                    preference: pref_in(params),
                    contexts: filled(keep(labels_in(params), false)),
                    phone: t,
                    features: filled(keep(labels_in(params), true)),
                },
            ),
            ..c
        }
    } else if name == "contact-uri"@ {
        ContactView { contact_uris: added(c.contact_uris, t), ..c }
    } else if name == "url"@ {
        ContactView { urls: added(c.urls, t), ..c }
    } else {
        c
    }
}

/// The contact after a property with this name, these parameters and this
/// value was read.
pub open spec fn absorb_parts(
    c: ContactView,
    name: Seq<char>,
    params: Members,
    value: JsonValue,
) -> ContactView {
    if name == "fn"@ {
        match as_text(value) {
            Some(t) => if c.full_name is None {
                ContactView { full_name: Some(t), ..c }
            } else {
                c
            },
            None => c,
        }
    } else if name == "kind"@ {
        match as_text(value) {
            Some(t) => if c.kind is None {
                ContactView { kind: Some(t), ..c }
            } else {
                c
            },
            None => c,
        }
    } else if name == "n"@ {
        match value {
            JsonValue::Array(a) => if a.len() == 5 && c.name_parts is None {
                ContactView { name_parts: Some(name_of(a)), ..c }
            } else {
                c
            },
            _ => c,
        }
    } else if name == "adr"@ {
        match address_of(params, value) {
            Some(a) => ContactView { postal_addresses: added(c.postal_addresses, a), ..c },
            None => c,
        }
    } else {
        match as_text(value) {
            Some(t) => absorb_text(c, name, params, t),
            None => c,
        }
    }
}

/// The contact after one more property was read.
pub open spec fn absorb(c: ContactView, p: JsonValue) -> ContactView {
    match parts_of(p) {
        Some((name, params, value)) => absorb_parts(c, name, params, value),
        None => c,
    }
}

/// The contact after the properties were read, one after the other.
pub open spec fn absorb_all(c: ContactView, props: Seq<JsonValue>) -> ContactView
    decreases props.len(),
{
    if props.len() == 0 {
        c
    } else {
        absorb(absorb_all(c, props.drop_last()), props.last())
    }
}

/// The contact that a jCard stands for; none for what is no jCard.
pub open spec fn contact_of(vcard: Seq<JsonValue>) -> Option<ContactView> {
    if vcard.len() == 2 && vcard[0] == JsonValue::String("vcard"@) {
        match vcard[1] {
            JsonValue::Array(props) => Some(absorb_all(no_contact(), props)),
            _ => None,
        }
    } else {
        None
    }
}

/// The text of a JSON string.
fn text_of(j: &Json) -> (r: Option<&String>)
    ensures
        r is Some <==> as_text(j@) is Some,
        r matches Some(t) ==> as_text(j@) == Some(t@),
{
    match j {
        Json::String(s) => Some(s),
        _ => None,
    }
}

/// The text of a JSON string that is not empty.
fn filled_text_of(j: &Json) -> (r: Option<String>)
    ensures
        r.deep_view() == as_filled_text(j@),
{
    match j {
        Json::String(s) => if s.as_str().unicode_len() > 0 {
            Some(s.clone())
        } else {
            None
        },
        _ => None,
    }
}

/// The strings of a JSON array of strings.
fn strings_in(items: &Vec<Json>) -> (r: Option<Vec<String>>)
    ensures
        r is Some <==> all_strings(values_of(items@)),
        r matches Some(l) ==> l.deep_view() == texts_of(values_of(items@)),
{
    match VectorStringish::visit_seq(items) {
        Some(v) => Some(v.into_vec()),
        None => None,
    }
}

/// The texts of a value that stands for a list.
fn texts_in(j: &Json) -> (r: Option<Vec<String>>)
    ensures
        r.deep_view() == as_texts(j@),
{
    match j {
        Json::String(s) => if s.as_str().unicode_len() > 0 {
            let l: Vec<String> = vec![s.clone()];
            assert(l.deep_view() =~= seq![s@]);
            Some(l)
        } else {
            None
        },
        Json::Array(items) => {
            proof {
                lemma_array_view(*j);
            }
            match strings_in(items) {
                Some(l) => if l.len() > 0 {
                    Some(l)
                } else {
                    None
                },
                None => None,
            }
        },
        _ => None,
    }
}

/// The labels of the parameter `type`.
fn read_labels(params: &Vec<(String, Json)>) -> (r: Vec<String>)
    ensures
        r.deep_view() == labels_in(members_of(params@)),
{
    match get_member(params, "type") {
        Some(Json::String(s)) => {
            let l: Vec<String> = vec![s.clone()];
            assert(l.deep_view() =~= seq![s@]);
            l
        },
        Some(Json::Array(items)) => {
            proof {
                lemma_array_view(Json::Array(*items));
            }
            match strings_in(items) {
                Some(l) => l,
                None => {
                    let l: Vec<String> = Vec::new();
                    assert(l.deep_view() =~= Seq::empty());
                    l
                },
            }
        },
        _ => {
            let l: Vec<String> = Vec::new();
            assert(l.deep_view() =~= Seq::empty());
            l
        },
    }
}

/// The preference of the parameter `pref`.
fn read_pref(params: &Vec<(String, Json)>) -> (r: Option<u64>)
    ensures
        r == pref_in(members_of(params@)),
{
    match get_member(params, "pref") {
        Some(Json::String(s)) => {
            let digits = chars_of(s.as_str());
            parse_decimal(&digits, u64::MAX)
        },
        Some(Json::Number(JsonNumber::PosInt(n))) => Some(*n),
        _ => None,
    }
}

/// The text of the parameter `label`.
fn read_label(params: &Vec<(String, Json)>) -> (r: Option<String>)
    ensures
        r.deep_view() == label_in(members_of(params@)),
{
    match get_member(params, "label") {
        Some(Json::String(s)) => Some(s.clone()),
        _ => None,
    }
}

/// Whether a label names a feature of a phone number.
fn names_feature(label: &str) -> (r: bool)
    ensures
        r == is_feature(label@),
{
    text_eq(label, "voice") || text_eq(label, "fax") || text_eq(label, "text") || text_eq(
        label,
        "video",
    ) || text_eq(label, "cell") || text_eq(label, "textphone") || text_eq(label, "pager")
}

/// The labels that are features, or those that are not.
fn kept(labels: &Vec<String>, features: bool) -> (r: Vec<String>)
    ensures
        r.deep_view() == keep(labels.deep_view(), features),
{
    let mut out: Vec<String> = Vec::new();
    let mut i: usize = 0;
    assert(out.deep_view() =~= keep(labels.deep_view().take(0), features));
    while i < labels.len()
        invariant
            i <= labels.len(),
            out.deep_view() == keep(labels.deep_view().take(i as int), features),
        decreases labels.len() - i,
    {
        proof {
            let next = labels.deep_view().take(i as int + 1);
            assert(next.drop_last() =~= labels.deep_view().take(i as int));
            assert(next.last() == labels@[i as int]@);
        }
        if names_feature(labels[i].as_str()) == features {
            let ghost before = out.deep_view();
            out.push(labels[i].clone());
            assert(out.deep_view() =~= before.push(labels@[i as int]@));
        }
        i += 1;
    }
    assert(labels.deep_view().take(labels.len() as int) =~= labels.deep_view());
    out
}

/// `None` for no items, else the items.
fn filled_list(items: Vec<String>) -> (r: Option<Vec<String>>)
    ensures
        r.deep_view() == filled(items.deep_view()),
{
    if items.len() == 0 {
        None
    } else {
        Some(items)
    }
}

/// Adds an item at the end of a list.
fn add_item<T: DeepView>(list: &mut Option<Vec<T>>, item: T)
    ensures
        final(list).deep_view() == added(old(list).deep_view(), item.deep_view()),
{
    match list.take() {
        Some(mut l) => {
            let ghost before = l.deep_view();
            l.push(item);
            assert(l.deep_view() =~= before.push(item.deep_view()));
            *list = Some(l);
        },
        None => {
            let l: Vec<T> = vec![item];
            assert(l.deep_view() =~= seq![item.deep_view()]);
            *list = Some(l);
        },
    }
}

/// The structured name that five parts stand for.
fn read_name(parts: &Vec<Json>) -> (r: NameParts)
    requires
        parts.len() == 5,
    ensures
        r@ == name_of(values_of(parts@)),
{
    NameParts {
        surnames: texts_in(&parts[0]),
        given_names: texts_in(&parts[1]),
        middle_names: texts_in(&parts[2]),
        prefixes: texts_in(&parts[3]),
        suffixes: texts_in(&parts[4]),
    }
}

/// The postal address that a property stands for.
fn read_address(params: &Vec<(String, Json)>, value: &Json) -> (r: Option<PostalAddress>)
    ensures
        r.deep_view() == address_of(members_of(params@), value@),
{
    match value {
        Json::Array(a) => {
            proof {
                lemma_array_view(*value);
            }
            if a.len() == 7 {
                Some(
                    PostalAddress {
                        preference: read_pref(params),
                        contexts: filled_list(read_labels(params)),
                        full_address: read_label(params),
                        street_parts: texts_in(&a[2]),
                        locality: filled_text_of(&a[3]),
                        region_name: filled_text_of(&a[4]),
                        region_code: None,
                        country_name: filled_text_of(&a[6]),
                        country_code: None,
                        postal_code: filled_text_of(&a[5]),
                    },
                )
            } else {
                None
            }
        },
        Json::String(s) => Some(
            PostalAddress {
                preference: read_pref(params),
                contexts: filled_list(read_labels(params)),
                full_address: Some(s.clone()),
                street_parts: None,
                locality: None,
                region_name: None,
                region_code: None,
                country_name: None,
                country_code: None,
                postal_code: None,
            },
        ),
        _ => None,
    }
}

/// Reads a property whose value is the text `t` into the contact.
fn read_text(c: &mut Contact, name: &str, params: &Vec<(String, Json)>, t: &String)
    ensures
        final(c)@ == absorb_text(old(c)@, name@, members_of(params@), t@),
{
    if text_eq(name, "lang") {
        add_item(&mut c.langs, Lang { preference: read_pref(params), tag: t.clone() });
    } else if text_eq(name, "org") {
        add_item(&mut c.organization_names, t.clone());
    } else if text_eq(name, "title") {
        add_item(&mut c.titles, t.clone());
    } else if text_eq(name, "role") {
        add_item(&mut c.roles, t.clone());
    } else if text_eq(name, "nickname") {
        add_item(&mut c.nick_names, t.clone());
    } else if text_eq(name, "email") {
        add_item(
            &mut c.emails,
            Email {
                preference: read_pref(params),
                contexts: filled_list(read_labels(params)),
                email: t.clone(),
            },
        );
    } else if text_eq(name, "tel") {
        let labels = read_labels(params);
        add_item(
            &mut c.phones,
            Phone {
                preference: read_pref(params),
                contexts: filled_list(kept(&labels, false)),
                phone: t.clone(),
                features: filled_list(kept(&labels, true)),
            },
        );
    } else if text_eq(name, "contact-uri") {
        add_item(&mut c.contact_uris, t.clone());
    } else if text_eq(name, "url") {
        add_item(&mut c.urls, t.clone());
    }
}

/// Reads a property with this name, these parameters and this value into the
/// contact.
fn read_parts(c: &mut Contact, name: &str, params: &Vec<(String, Json)>, value: &Json)
    ensures
        final(c)@ == absorb_parts(old(c)@, name@, members_of(params@), value@),
{
    if text_eq(name, "fn") {
        if let Some(t) = text_of(value) {
            if c.full_name.is_none() {
                c.full_name = Some(t.clone());
            }
        }
    } else if text_eq(name, "kind") {
        if let Some(t) = text_of(value) {
            if c.kind.is_none() {
                c.kind = Some(t.clone());
            }
        }
    } else if text_eq(name, "n") {
        if let Json::Array(a) = value {
            proof {
                lemma_array_view(*value);
            }
            if a.len() == 5 && c.name_parts.is_none() {
                c.name_parts = Some(read_name(a));
            }
        }
    } else if text_eq(name, "adr") {
        if let Some(a) = read_address(params, value) {
            add_item(&mut c.postal_addresses, a);
        }
    } else {
        if let Some(t) = text_of(value) {
            read_text(c, name, params, t);
        }
    }
}

/// Reads one more property into the contact.
fn read_property(c: &mut Contact, p: &Json)
    ensures
        final(c)@ == absorb(old(c)@, p@),
{
    if let Json::Array(a) = p {
        proof {
            lemma_array_view(*p);
        }
        if a.len() >= 4 {
            if let Json::String(name) = &a[0] {
                if let Json::Object(params) = &a[1] {
                    proof {
                        lemma_object_view(a@[1]);
                    }
                    read_parts(c, name.as_str(), params, &a[3]);
                }
            }
        }
    }
}

impl Contact {
    /// The contact that a jCard stands for; `None` for what is no jCard.
    pub fn from_vcard(vcard_array: &[Json]) -> (r: Option<Contact>)
        ensures
            r is Some <==> contact_of(values_of(vcard_array@)) is Some,
            r matches Some(c) ==> Some(c@) == contact_of(values_of(vcard_array@)),
    {
        if vcard_array.len() != 2 {
            return None;
        }
        let is_vcard = match &vcard_array[0] {
            Json::String(s) => text_eq(s.as_str(), "vcard"),
            _ => false,
        };
        if !is_vcard {
            return None;
        }
        match &vcard_array[1] {
            Json::Array(props) => {
                proof {
                    lemma_array_view(vcard_array@[1]);
                }
                let ghost all = values_of(props@);
                let mut c = Contact {
                    langs: None,
                    kind: None,
                    full_name: None,
                    name_parts: None,
                    nick_names: None,
                    titles: None,
                    roles: None,
                    organization_names: None,
                    postal_addresses: None,
                    emails: None,
                    phones: None,
                    contact_uris: None,
                    urls: None,
                };
                let mut i: usize = 0;
                assert(all.take(0) =~= Seq::empty());
                while i < props.len()
                    invariant
                        i <= props.len(),
                        all == values_of(props@),
                        c@ == absorb_all(no_contact(), all.take(i as int)),
                    decreases props.len() - i,
                {
                    proof {
                        let next = all.take(i as int + 1);
                        assert(next.drop_last() =~= all.take(i as int));
                        assert(next.last() == props@[i as int]@);
                    }
                    read_property(&mut c, &props[i]);
                    i += 1;
                }
                assert(all.take(props.len() as int) =~= all);
                Some(c)
            },
            _ => None,
        }
    }
}

impl Entity {
    /// The contact of the entity: what its jCard stands for, if it has one
    /// and that is a jCard.
    pub fn contact(&self) -> (r: Option<Contact>)
        ensures
            match self.vcard_array {
                Some(v) => r is Some <==> contact_of(values_of(v@)) is Some,
                None => r is None,
            },
            r matches Some(c) ==> Some(c@) == contact_of(values_of(self.vcard_array->0@)),
    {
        match &self.vcard_array {
            Some(v) => Contact::from_vcard(v.as_slice()),
            None => None,
        }
    }
}

} // verus!
