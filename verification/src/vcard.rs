//! The bridge between a [`Contact`] and its jCard, the JSON form of vCard.
//!
//! A jCard is `["vcard", [property, ...]]`; a property is
//! `[name, parameters, value type, value]`.

pub mod laws;
pub mod read;

use crate::contact::{
    Contact, ContactView, Email, EmailView, Lang, LangView, NameParts, NamePartsView, Phone,
    PhoneView, PostalAddress, PostalAddressView,
};
use crate::json::{lemma_array_view, lemma_object_view, members_of, values_of, Json, JsonValue};
use crate::lenient::strings_of;
use crate::text::{decimal, u64_to_decimal};
use vstd::prelude::*;

verus! {

/// The members of a JSON object.
pub type Members = Seq<(Seq<char>, JsonValue)>;

/// The property `[name, parameters, value type, value]`.
pub open spec fn property(
    name: Seq<char>,
    params: Members,
    kind: Seq<char>,
    value: JsonValue,
) -> JsonValue {
    JsonValue::Array(
        seq![
            JsonValue::String(name),
            JsonValue::Object(params),
            JsonValue::String(kind),
            value,
        ],
    )
}

/// A property without parameters whose value is a text.
pub open spec fn plain_property(name: Seq<char>, kind: Seq<char>, text: Seq<char>) -> JsonValue {
    property(name, Seq::empty(), kind, JsonValue::String(text))
}

/// A list of texts as one value: the empty text for no list, the text itself
/// for a list of one, else the array of the texts.
pub open spec fn texts_json(list: Option<Seq<Seq<char>>>) -> JsonValue {
    match list {
        None => JsonValue::String(Seq::empty()),
        Some(l) => if l.len() == 1 {
            JsonValue::String(l[0])
        } else {
            JsonValue::Array(strings_of(l))
        },
    }
}

/// An optional text as a value: the empty text if it is absent.
pub open spec fn text_json(text: Option<Seq<char>>) -> JsonValue {
    match text {
        Some(t) => JsonValue::String(t),
        None => JsonValue::String(Seq::empty()),
    }
}

/// The texts of an optional list; none for an absent list.
pub open spec fn listed(list: Option<Seq<Seq<char>>>) -> Seq<Seq<char>> {
    match list {
        Some(l) => l,
        None => Seq::empty(),
    }
}

/// The parameter `type` for labels: absent for none, a text for one, an array
/// for more.
pub open spec fn type_params(labels: Seq<Seq<char>>) -> Members {
    if labels.len() == 0 {
        Seq::empty()
    } else if labels.len() == 1 {
        seq![("type"@, JsonValue::String(labels[0]))]
    } else {
        seq![("type"@, JsonValue::Array(strings_of(labels)))]
    }
}

/// The parameter `pref` for a preference: its decimal text.
pub open spec fn pref_params(preference: Option<u64>) -> Members {
    match preference {
        Some(p) => seq![("pref"@, JsonValue::String(decimal(p as nat)))],
        None => Seq::empty(),
    }
}

/// The parameter `label` for the unstructured text of an address.
pub open spec fn label_params(full_address: Option<Seq<char>>) -> Members {
    match full_address {
        Some(a) => seq![("label"@, JsonValue::String(a))],
        None => Seq::empty(),
    }
}

/// The property of a language.
pub open spec fn lang_property(l: LangView) -> JsonValue {
    property("lang"@, pref_params(l.preference), "language-tag"@, JsonValue::String(l.tag))
}

/// The property of an email address.
pub open spec fn email_property(e: EmailView) -> JsonValue {
    property(
        "email"@,
        type_params(listed(e.contexts)) + pref_params(e.preference),
        "text"@,
        JsonValue::String(e.email),
    )
}

/// The property of a phone number; its labels are the contexts followed by
/// the features.
pub open spec fn phone_property(p: PhoneView) -> JsonValue {
    property(
        "tel"@,
        type_params(listed(p.contexts) + listed(p.features)) + pref_params(p.preference),
        "uri"@,
        JsonValue::String(p.phone),
    )
}

/// The first of two texts that is present.
pub open spec fn either(a: Option<Seq<char>>, b: Option<Seq<char>>) -> Option<Seq<char>> {
    if a is Some {
        a
    } else {
        b
    }
}

/// The seven parts of an address: no post office box, no extended address,
/// the street lines, locality, region, postal code and country. The name of a
/// region or country stands before its code.
pub open spec fn address_parts(a: PostalAddressView) -> Seq<JsonValue> {
    seq![
        JsonValue::String(Seq::empty()),
        JsonValue::String(Seq::empty()),
        texts_json(a.street_parts),
        text_json(a.locality),
        text_json(either(a.region_name, a.region_code)),
        text_json(a.postal_code),
        text_json(either(a.country_name, a.country_code)),
    ]
}

/// The property of a postal address.
pub open spec fn address_property(a: PostalAddressView) -> JsonValue {
    property(
        "adr"@,
        type_params(listed(a.contexts)) + pref_params(a.preference) + label_params(a.full_address),
        "text"@,
        JsonValue::Array(address_parts(a)),
    )
}

/// The property of a structured name: surnames, given names, middle names,
/// prefixes and suffixes.
pub open spec fn name_property(n: NamePartsView) -> JsonValue {
    property(
        "n"@,
        Seq::empty(),
        "text"@,
        JsonValue::Array(
            seq![
                texts_json(n.surnames),
                texts_json(n.given_names),
                texts_json(n.middle_names),
                texts_json(n.prefixes),
                texts_json(n.suffixes),
            ],
        ),
    )
}

/// One property for each item of an optional list.
pub open spec fn each<T>(list: Option<Seq<T>>, f: spec_fn(T) -> JsonValue) -> Seq<JsonValue> {
    match list {
        Some(l) => Seq::new(l.len(), |i: int| f(l[i])),
        None => Seq::empty(),
    }
}

/// One property for an optional value.
pub open spec fn one<T>(value: Option<T>, f: spec_fn(T) -> JsonValue) -> Seq<JsonValue> {
    match value {
        Some(v) => seq![f(v)],
        None => Seq::empty(),
    }
}

/// One plain property for each text of an optional list.
pub open spec fn plain_each(name: Seq<char>, kind: Seq<char>, list: Option<Seq<Seq<char>>>) -> Seq<
    JsonValue,
> {
    each(list, |t: Seq<char>| plain_property(name, kind, t))
}

/// One plain property for an optional text.
pub open spec fn plain_one(name: Seq<char>, kind: Seq<char>, text: Option<Seq<char>>) -> Seq<
    JsonValue,
> {
    one(text, |t: Seq<char>| plain_property(name, kind, t))
}

/// The properties of the languages.
pub open spec fn lang_properties(list: Option<Seq<LangView>>) -> Seq<JsonValue> {
    each(list, |l: LangView| lang_property(l))
}

/// The properties of the email addresses.
pub open spec fn email_properties(list: Option<Seq<EmailView>>) -> Seq<JsonValue> {
    each(list, |e: EmailView| email_property(e))
}

/// The properties of the phone numbers.
pub open spec fn phone_properties(list: Option<Seq<PhoneView>>) -> Seq<JsonValue> {
    each(list, |p: PhoneView| phone_property(p))
}

/// The properties of the postal addresses.
pub open spec fn address_properties(list: Option<Seq<PostalAddressView>>) -> Seq<JsonValue> {
    each(list, |a: PostalAddressView| address_property(a))
}

/// The property of the structured name, if there is one.
pub open spec fn name_properties(name: Option<NamePartsView>) -> Seq<JsonValue> {
    one(name, |n: NamePartsView| name_property(n))
}

/// The properties of a contact, in their order. Only what the contact has is
/// written, after the version.
pub open spec fn properties(c: ContactView) -> Seq<JsonValue> {
    seq![plain_property("version"@, "text"@, "4.0"@)] + plain_one("fn"@, "text"@, c.full_name)
        + name_properties(c.name_parts) + plain_one("kind"@, "text"@, c.kind) + lang_properties(
        c.langs,
    ) + plain_each("org"@, "text"@, c.organization_names) + plain_each("title"@, "text"@, c.titles)
        + plain_each("role"@, "text"@, c.roles) + plain_each("nickname"@, "text"@, c.nick_names)
        + email_properties(c.emails) + phone_properties(c.phones) + address_properties(
        c.postal_addresses,
    ) + plain_each("contact-uri"@, "uri"@, c.contact_uris) + plain_each("url"@, "uri"@, c.urls)
}

/// The jCard of a contact.
pub open spec fn vcard_of(c: ContactView) -> Seq<JsonValue> {
    seq![JsonValue::String("vcard"@), JsonValue::Array(properties(c))]
}

/// The JSON string with the text of `s`.
fn text_value(s: &str) -> (j: Json)
    ensures
        j@ == JsonValue::String(s@),
{
    Json::String(s.to_owned())
}

/// The JSON string without text.
fn empty_value() -> (j: Json)
    ensures
        j@ == JsonValue::String(Seq::empty()),
{
    proof {
        reveal_strlit("");
        assert(""@ =~= Seq::<char>::empty());
    }
    text_value("")
}

/// The JSON array of the strings of `list`.
fn strings_value(list: &Vec<String>) -> (j: Json)
    ensures
        j@ == JsonValue::Array(strings_of(list.deep_view())),
{
    let mut items: Vec<Json> = Vec::new();
    let mut i: usize = 0;
    while i < list.len()
        invariant
            i <= list.len(),
            items.len() == i,
            forall|k: int| 0 <= k < i ==> (#[trigger] items@[k])@ == JsonValue::String(list@[k]@),
        decreases list.len() - i,
    {
        items.push(Json::String(list[i].clone()));
        i += 1;
    }
    let j = Json::Array(items);
    proof {
        lemma_array_view(j);
        assert(values_of(items@) =~= strings_of(list.deep_view()));
    }
    j
}

/// The JSON array of `items`.
fn array_value(items: Vec<Json>) -> (j: Json)
    ensures
        j@ == JsonValue::Array(values_of(items@)),
{
    let j = Json::Array(items);
    proof {
        lemma_array_view(j);
    }
    j
}

/// A list of texts as one value.
fn texts_value(list: &Option<Vec<String>>) -> (j: Json)
    ensures
        j@ == texts_json(list.deep_view()),
{
    match list {
        None => empty_value(),
        Some(l) => if l.len() == 1 {
            assert(l.deep_view()[0] == l@[0]@);
            text_value(l[0].as_str())
        } else {
            strings_value(l)
        },
    }
}

/// An optional text as a value.
fn opt_text_value(text: &Option<String>) -> (j: Json)
    ensures
        j@ == text_json(text.deep_view()),
{
    match text {
        Some(t) => text_value(t.as_str()),
        None => empty_value(),
    }
}

/// The property `[name, parameters, value type, value]`.
fn make_property(name: &str, params: Vec<(String, Json)>, kind: &str, value: Json) -> (j: Json)
    ensures
        j@ == property(name@, members_of(params@), kind@, value@),
{
    let object = Json::Object(params);
    proof {
        lemma_object_view(object);
    }
    let items: Vec<Json> = vec![text_value(name), object, text_value(kind), value];
    let j = array_value(items);
    assert(values_of(items@) =~= seq![
        JsonValue::String(name@),
        JsonValue::Object(members_of(params@)),
        JsonValue::String(kind@),
        value@,
    ]);
    j
}

/// A property without parameters whose value is a text.
fn make_plain(name: &str, kind: &str, text: &str) -> (j: Json)
    ensures
        j@ == plain_property(name@, kind@, text@),
{
    let params: Vec<(String, Json)> = Vec::new();
    assert(members_of(params@) =~= Seq::empty());
    make_property(name, params, kind, text_value(text))
}

/// Adds the parameter `type` for the labels.
fn push_type(params: &mut Vec<(String, Json)>, labels: &Vec<String>)
    ensures
        members_of(final(params)@) == members_of(old(params)@) + type_params(labels.deep_view()),
{
    if labels.len() == 1 {
        assert(labels.deep_view()[0] == labels@[0]@);
        params.push(("type".to_owned(), text_value(labels[0].as_str())));
    } else if labels.len() > 1 {
        params.push(("type".to_owned(), strings_value(labels)));
    }
    assert(members_of(params@) =~= members_of(old(params)@) + type_params(labels.deep_view()));
}

/// Adds the parameter `pref` for the preference.
fn push_pref(params: &mut Vec<(String, Json)>, preference: Option<u64>)
    ensures
        members_of(final(params)@) == members_of(old(params)@) + pref_params(preference),
{
    if let Some(p) = preference {
        let digits = u64_to_decimal(p);
        params.push(("pref".to_owned(), text_value(digits.as_str())));
    }
    assert(members_of(params@) =~= members_of(old(params)@) + pref_params(preference));
}

/// The texts of an optional list, copied.
fn copy_listed(list: &Option<Vec<String>>, out: &mut Vec<String>)
    ensures
        final(out).deep_view() == old(out).deep_view() + listed(list.deep_view()),
{
    match list {
        Some(l) => {
            let mut i: usize = 0;
            assert(l.deep_view().take(0) =~= Seq::empty());
            assert(out.deep_view() =~= old(out).deep_view() + l.deep_view().take(0));
            while i < l.len()
                invariant
                    i <= l.len(),
                    out.deep_view() == old(out).deep_view() + l.deep_view().take(i as int),
                decreases l.len() - i,
            {
                let ghost before = out.deep_view();
                out.push(l[i].clone());
                assert(out.deep_view() =~= before.push(l@[i as int]@));
                assert(l.deep_view().take(i as int + 1) =~= l.deep_view().take(i as int).push(
                    l@[i as int]@,
                ));
                assert(out.deep_view() =~= old(out).deep_view() + l.deep_view().take(
                    i as int + 1,
                ));
                i += 1;
            }
            assert(l.deep_view().take(l.len() as int) =~= l.deep_view());
        },
        None => {
            assert(out.deep_view() =~= old(out).deep_view() + listed(list.deep_view()));
        },
    }
}

/// Adds one plain property for each text of the list.
fn push_plain_each(props: &mut Vec<Json>, name: &str, kind: &str, list: &Option<Vec<String>>)
    ensures
        values_of(final(props)@) == values_of(old(props)@) + plain_each(
            name@,
            kind@,
            list.deep_view(),
        ),
{
    let ghost f = |t: Seq<char>| plain_property(name@, kind@, t);
    let ghost start = values_of(props@);
    match list {
        Some(l) => {
            let mut i: usize = 0;
            assert(values_of(props@) =~= start + each(Some(l.deep_view().take(0)), f));
            while i < l.len()
                invariant
                    i <= l.len(),
                    f == |t: Seq<char>| plain_property(name@, kind@, t),
                    values_of(props@) == start + each(Some(l.deep_view().take(i as int)), f),
                decreases l.len() - i,
            {
                let p = make_plain(name, kind, l[i].as_str());
                let ghost before = values_of(props@);
                props.push(p);
                assert(values_of(props@) =~= before.push(p@));
                assert(l.deep_view()[i as int] == l@[i as int]@);
                assert(each(Some(l.deep_view().take(i as int + 1)), f) =~= each(
                    Some(l.deep_view().take(i as int)),
                    f,
                ).push(f(l@[i as int]@)));
                assert(values_of(props@) =~= start + each(
                    Some(l.deep_view().take(i as int + 1)),
                    f,
                ));
                i += 1;
            }
            assert(l.deep_view().take(l.len() as int) =~= l.deep_view());
        },
        None => {
            assert(values_of(props@) =~= start + each(list.deep_view(), f));
        },
    }
}

/// Adds one plain property for the text, if it is present.
fn push_plain_one(props: &mut Vec<Json>, name: &str, kind: &str, text: &Option<String>)
    ensures
        values_of(final(props)@) == values_of(old(props)@) + plain_one(
            name@,
            kind@,
            text.deep_view(),
        ),
{
    let ghost f = |t: Seq<char>| plain_property(name@, kind@, t);
    let ghost start = values_of(props@);
    match text {
        Some(t) => {
            let p = make_plain(name, kind, t.as_str());
            props.push(p);
            assert(values_of(props@) =~= start + one(text.deep_view(), f));
        },
        None => {
            assert(values_of(props@) =~= start + one(text.deep_view(), f));
        },
    }
}

/// The property of a language.
fn make_lang(l: &Lang) -> (j: Json)
    ensures
        j@ == lang_property(l@),
{
    let mut params: Vec<(String, Json)> = Vec::new();
    assert(members_of(params@) =~= Seq::empty());
    push_pref(&mut params, l.preference);
    assert(members_of(params@) =~= pref_params(l.preference));
    make_property("lang", params, "language-tag", text_value(l.tag.as_str()))
}

/// The property of an email address.
fn make_email(e: &Email) -> (j: Json)
    ensures
        j@ == email_property(e@),
{
    let mut params: Vec<(String, Json)> = Vec::new();
    let mut labels: Vec<String> = Vec::new();
    assert(labels.deep_view() =~= Seq::empty());
    copy_listed(&e.contexts, &mut labels);
    assert(labels.deep_view() =~= listed(e@.contexts));
    assert(members_of(params@) =~= Seq::empty());
    push_type(&mut params, &labels);
    push_pref(&mut params, e.preference);
    assert(members_of(params@) =~= type_params(listed(e@.contexts)) + pref_params(e.preference));
    make_property("email", params, "text", text_value(e.email.as_str()))
}

/// The property of a phone number.
fn make_phone(p: &Phone) -> (j: Json)
    ensures
        j@ == phone_property(p@),
{
    let mut params: Vec<(String, Json)> = Vec::new();
    let mut labels: Vec<String> = Vec::new();
    assert(labels.deep_view() =~= Seq::empty());
    copy_listed(&p.contexts, &mut labels);
    copy_listed(&p.features, &mut labels);
    assert(labels.deep_view() =~= listed(p@.contexts) + listed(p@.features));
    assert(members_of(params@) =~= Seq::empty());
    push_type(&mut params, &labels);
    push_pref(&mut params, p.preference);
    assert(members_of(params@) =~= type_params(listed(p@.contexts) + listed(p@.features))
        + pref_params(p.preference));
    make_property("tel", params, "uri", text_value(p.phone.as_str()))
}

/// The first of two texts that is present.
fn first_present<'a>(a: &'a Option<String>, b: &'a Option<String>) -> (r: &'a Option<String>)
    ensures
        r.deep_view() == either(a.deep_view(), b.deep_view()),
{
    if a.is_some() {
        a
    } else {
        b
    }
}

/// The property of a postal address.
fn make_address(a: &PostalAddress) -> (j: Json)
    ensures
        j@ == address_property(a@),
{
    let mut params: Vec<(String, Json)> = Vec::new();
    let mut labels: Vec<String> = Vec::new();
    assert(labels.deep_view() =~= Seq::empty());
    copy_listed(&a.contexts, &mut labels);
    assert(labels.deep_view() =~= listed(a@.contexts));
    assert(members_of(params@) =~= Seq::empty());
    push_type(&mut params, &labels);
    push_pref(&mut params, a.preference);
    if let Some(full) = &a.full_address {
        params.push(("label".to_owned(), text_value(full.as_str())));
    }
    assert(members_of(params@) =~= type_params(listed(a@.contexts)) + pref_params(a.preference)
        + label_params(a@.full_address));
    let parts: Vec<Json> = vec![
        empty_value(),
        empty_value(),
        texts_value(&a.street_parts),
        opt_text_value(&a.locality),
        opt_text_value(first_present(&a.region_name, &a.region_code)),
        opt_text_value(&a.postal_code),
        opt_text_value(first_present(&a.country_name, &a.country_code)),
    ];
    let value = array_value(parts);
    assert(values_of(parts@) =~= address_parts(a@));
    make_property("adr", params, "text", value)
}

/// The property of a structured name.
fn make_name(n: &NameParts) -> (j: Json)
    ensures
        j@ == name_property(n@),
{
    let params: Vec<(String, Json)> = Vec::new();
    assert(members_of(params@) =~= Seq::empty());
    let parts: Vec<Json> = vec![
        texts_value(&n.surnames),
        texts_value(&n.given_names),
        texts_value(&n.middle_names),
        texts_value(&n.prefixes),
        texts_value(&n.suffixes),
    ];
    let value = array_value(parts);
    assert(values_of(parts@) =~= seq![
        texts_json(n@.surnames),
        texts_json(n@.given_names),
        texts_json(n@.middle_names),
        texts_json(n@.prefixes),
        texts_json(n@.suffixes),
    ]);
    make_property("n", params, "text", value)
}

fn push_langs(props: &mut Vec<Json>, list: &Option<Vec<Lang>>)
    ensures
        values_of(final(props)@) == values_of(old(props)@) + lang_properties(list.deep_view()),
{
    let ghost start = values_of(props@);
    match list {
        Some(l) => {
            let mut i: usize = 0;
            assert(values_of(props@) =~= start + lang_properties(Some(l.deep_view().take(0))));
            while i < l.len()
                invariant
                    i <= l.len(),
                    values_of(props@) == start + lang_properties(
                        Some(l.deep_view().take(i as int)),
                    ),
                decreases l.len() - i,
            {
                let p = make_lang(&l[i]);
                let ghost before = values_of(props@);
                props.push(p);
                assert(values_of(props@) =~= before.push(p@));
                assert(l.deep_view()[i as int] == l@[i as int]@);
                assert(values_of(props@) =~= start + lang_properties(
                    Some(l.deep_view().take(i as int + 1)),
                ));
                i += 1;
            }
            assert(l.deep_view().take(l.len() as int) =~= l.deep_view());
        },
        None => {
            assert(values_of(props@) =~= start + lang_properties(list.deep_view()));
        },
    }
}

fn push_emails(props: &mut Vec<Json>, list: &Option<Vec<Email>>)
    ensures
        values_of(final(props)@) == values_of(old(props)@) + email_properties(list.deep_view()),
{
    let ghost start = values_of(props@);
    match list {
        Some(l) => {
            let mut i: usize = 0;
            assert(values_of(props@) =~= start + email_properties(Some(l.deep_view().take(0))));
            while i < l.len()
                invariant
                    i <= l.len(),
                    values_of(props@) == start + email_properties(
                        Some(l.deep_view().take(i as int)),
                    ),
                decreases l.len() - i,
            {
                let p = make_email(&l[i]);
                let ghost before = values_of(props@);
                props.push(p);
                assert(values_of(props@) =~= before.push(p@));
                assert(l.deep_view()[i as int] == l@[i as int]@);
                assert(values_of(props@) =~= start + email_properties(
                    Some(l.deep_view().take(i as int + 1)),
                ));
                i += 1;
            }
            assert(l.deep_view().take(l.len() as int) =~= l.deep_view());
        },
        None => {
            assert(values_of(props@) =~= start + email_properties(list.deep_view()));
        },
    }
}

fn push_phones(props: &mut Vec<Json>, list: &Option<Vec<Phone>>)
    ensures
        values_of(final(props)@) == values_of(old(props)@) + phone_properties(list.deep_view()),
{
    let ghost start = values_of(props@);
    match list {
        Some(l) => {
            let mut i: usize = 0;
            assert(values_of(props@) =~= start + phone_properties(Some(l.deep_view().take(0))));
            while i < l.len()
                invariant
                    i <= l.len(),
                    values_of(props@) == start + phone_properties(
                        Some(l.deep_view().take(i as int)),
                    ),
                decreases l.len() - i,
            {
                let p = make_phone(&l[i]);
                let ghost before = values_of(props@);
                props.push(p);
                assert(values_of(props@) =~= before.push(p@));
                assert(l.deep_view()[i as int] == l@[i as int]@);
                assert(values_of(props@) =~= start + phone_properties(
                    Some(l.deep_view().take(i as int + 1)),
                ));
                i += 1;
            }
            assert(l.deep_view().take(l.len() as int) =~= l.deep_view());
        },
        None => {
            assert(values_of(props@) =~= start + phone_properties(list.deep_view()));
        },
    }
}

fn push_addresses(props: &mut Vec<Json>, list: &Option<Vec<PostalAddress>>)
    ensures
        values_of(final(props)@) == values_of(old(props)@) + address_properties(list.deep_view()),
{
    let ghost start = values_of(props@);
    match list {
        Some(l) => {
            let mut i: usize = 0;
            assert(values_of(props@) =~= start + address_properties(Some(l.deep_view().take(0))));
            while i < l.len()
                invariant
                    i <= l.len(),
                    values_of(props@) == start + address_properties(
                        Some(l.deep_view().take(i as int)),
                    ),
                decreases l.len() - i,
            {
                let p = make_address(&l[i]);
                let ghost before = values_of(props@);
                props.push(p);
                assert(values_of(props@) =~= before.push(p@));
                assert(l.deep_view()[i as int] == l@[i as int]@);
                assert(values_of(props@) =~= start + address_properties(
                    Some(l.deep_view().take(i as int + 1)),
                ));
                i += 1;
            }
            assert(l.deep_view().take(l.len() as int) =~= l.deep_view());
        },
        None => {
            assert(values_of(props@) =~= start + address_properties(list.deep_view()));
        },
    }
}

fn push_name(props: &mut Vec<Json>, name: &Option<NameParts>)
    ensures
        values_of(final(props)@) == values_of(old(props)@) + name_properties(name.deep_view()),
{
    let ghost start = values_of(props@);
    match name {
        Some(n) => {
            let p = make_name(n);
            props.push(p);
            assert(values_of(props@) =~= start + name_properties(name.deep_view()));
        },
        None => {
            assert(values_of(props@) =~= start + name_properties(name.deep_view()));
        },
    }
}

impl Contact {
    /// The jCard of the contact: `["vcard", [property, ...]]`.
    pub fn to_vcard(&self) -> (r: Vec<Json>)
        ensures
            values_of(r@) == vcard_of(self@),
    {
        let mut props: Vec<Json> = Vec::new();
        let version = make_plain("version", "text", "4.0");
        props.push(version);
        assert(values_of(props@) =~= seq![plain_property("version"@, "text"@, "4.0"@)]);
        push_plain_one(&mut props, "fn", "text", &self.full_name);
        push_name(&mut props, &self.name_parts);
        push_plain_one(&mut props, "kind", "text", &self.kind);
        push_langs(&mut props, &self.langs);
        push_plain_each(&mut props, "org", "text", &self.organization_names);
        push_plain_each(&mut props, "title", "text", &self.titles);
        push_plain_each(&mut props, "role", "text", &self.roles);
        push_plain_each(&mut props, "nickname", "text", &self.nick_names);
        push_emails(&mut props, &self.emails);
        push_phones(&mut props, &self.phones);
        push_addresses(&mut props, &self.postal_addresses);
        push_plain_each(&mut props, "contact-uri", "uri", &self.contact_uris);
        push_plain_each(&mut props, "url", "uri", &self.urls);
        let list = array_value(props);
        let r: Vec<Json> = vec![text_value("vcard"), list];
        assert(values_of(r@) =~= vcard_of(self@));
        r
    }
}

} // verus!
