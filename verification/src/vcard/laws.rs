//! What is written of a contact reads back as the contact.

use crate::contact::{
    ContactView, EmailView, LangView, NamePartsView, PhoneView, PostalAddressView,
};
use crate::json::{member_of, JsonValue};
use crate::lenient::{strings_of, texts_of};
use crate::text::lemma_decimal_round_trip;
use crate::vcard::read::{
    absorb, absorb_all, added, address_of, as_filled_text, as_texts, contact_of, filled,
    is_feature, keep, label_in, labels_in, name_of, no_contact, pref_in,
};
use crate::vcard::{
    address_parts, address_properties, address_property, each, email_properties, email_property,
    label_params, lang_properties, lang_property, listed, name_properties, name_property, one,
    phone_properties, phone_property, plain_each, plain_one, plain_property, pref_params,
    properties, property, text_json, texts_json, type_params, vcard_of, Members,
};
use vstd::prelude::*;

verus! {

/// Makes the texts of the names of properties and parameters known.
proof fn lemma_names()
    ensures
        "version"@.len() == 7,
        "fn"@.len() == 2,
        "n"@.len() == 1,
        "kind"@.len() == 4 && "kind"@[0] == 'k',
        "adr"@.len() == 3 && "adr"@[0] == 'a',
        "lang"@.len() == 4 && "lang"@[0] == 'l',
        "org"@.len() == 3 && "org"@[0] == 'o',
        "title"@.len() == 5 && "title"@[0] == 't',
        "role"@.len() == 4 && "role"@[0] == 'r',
        "nickname"@.len() == 8,
        "email"@.len() == 5 && "email"@[0] == 'e',
        "tel"@.len() == 3 && "tel"@[0] == 't',
        "contact-uri"@.len() == 11,
        "url"@.len() == 3 && "url"@[0] == 'u',
        "type"@.len() == 4 && "type"@[0] == 't',
        "pref"@.len() == 4 && "pref"@[0] == 'p',
        "label"@.len() == 5,
{
    reveal_strlit("version");
    reveal_strlit("fn");
    reveal_strlit("n");
    reveal_strlit("kind");
    reveal_strlit("adr");
    reveal_strlit("lang");
    reveal_strlit("org");
    reveal_strlit("title");
    reveal_strlit("role");
    reveal_strlit("nickname");
    reveal_strlit("email");
    reveal_strlit("tel");
    reveal_strlit("contact-uri");
    reveal_strlit("url");
    reveal_strlit("type");
    reveal_strlit("pref");
    reveal_strlit("label");
}

/// Whether a list reads back as it is written: it is not empty, and if it
/// holds one text only, that text is not empty.
pub open spec fn is_portable_list(list: Option<Seq<Seq<char>>>) -> bool {
    match list {
        Some(l) => l.len() > 0 && (l.len() == 1 ==> l[0].len() > 0),
        None => true,
    }
}

/// Whether a list is absent or has an item.
pub open spec fn is_filled<T>(list: Option<Seq<T>>) -> bool {
    match list {
        Some(l) => l.len() > 0,
        None => true,
    }
}

/// Whether a text is absent or not empty.
pub open spec fn is_filled_text(text: Option<Seq<char>>) -> bool {
    match text {
        Some(t) => t.len() > 0,
        None => true,
    }
}

/// Whether all of the labels are features, or none of them.
pub open spec fn all_features(labels: Seq<Seq<char>>, features: bool) -> bool {
    forall|i: int| 0 <= i < labels.len() ==> is_feature(#[trigger] labels[i]) == features
}

/// A list of texts reads back as it is written.
proof fn lemma_texts_round_trip(list: Option<Seq<Seq<char>>>)
    requires
        is_portable_list(list),
    ensures
        as_texts(texts_json(list)) == list,
{
    match list {
        Some(l) => {
            if l.len() == 1 {
                assert(seq![l[0]] =~= l);
            } else {
                assert(texts_of(strings_of(l)) =~= l);
            }
        },
        None => {},
    }
}

/// The labels of a property read back as they are written, whatever
/// parameters follow them.
proof fn lemma_labels_round_trip(labels: Seq<Seq<char>>, rest: Members)
    requires
        member_of(rest, "type"@) is None,
    ensures
        labels_in(type_params(labels) + rest) == labels,
{
    let params = type_params(labels) + rest;
    if labels.len() == 0 {
        assert(params =~= rest);
        assert(labels =~= Seq::empty());
    } else {
        assert(params[0] == type_params(labels)[0]);
        if labels.len() == 1 {
            assert(seq![labels[0]] =~= labels);
        } else {
            assert(texts_of(strings_of(labels)) =~= labels);
        }
    }
}

/// A member is found behind members with other keys.
proof fn lemma_member_behind(front: Members, rest: Members, key: Seq<char>)
    requires
        forall|i: int| 0 <= i < front.len() ==> (#[trigger] front[i]).0 != key,
    ensures
        member_of(front + rest, key) == member_of(rest, key),
    decreases front.len(),
{
    if front.len() == 0 {
        assert(front + rest =~= rest);
    } else {
        let all = front + rest;
        assert(all[0] == front[0]);
        assert(all.drop_first() =~= front.drop_first() + rest);
        assert forall|i: int| 0 <= i < front.drop_first().len() implies (
        #[trigger] front.drop_first()[i]).0 != key by {
            assert(front.drop_first()[i] == front[i + 1]);
        }
        lemma_member_behind(front.drop_first(), rest, key);
    }
}

/// No member is found among members with other keys.
proof fn lemma_member_absent(m: Members, key: Seq<char>)
    requires
        forall|i: int| 0 <= i < m.len() ==> (#[trigger] m[i]).0 != key,
    ensures
        member_of(m, key) is None,
    decreases m.len(),
{
    if m.len() > 0 {
        assert forall|i: int| 0 <= i < m.drop_first().len() implies (#[trigger] m.drop_first()[i]).0
            != key by {
            assert(m.drop_first()[i] == m[i + 1]);
        }
        lemma_member_absent(m.drop_first(), key);
    }
}

/// The parameters that are written read back: the labels, the preference and
/// the label of an address.
pub proof fn lemma_params_round_trip(
    labels: Seq<Seq<char>>,
    preference: Option<u64>,
    label: Option<Seq<char>>,
)
    ensures
        labels_in(type_params(labels) + pref_params(preference) + label_params(label)) == labels,
        pref_in(type_params(labels) + pref_params(preference) + label_params(label)) == preference,
        label_in(type_params(labels) + pref_params(preference) + label_params(label)) == label,
        labels_in(type_params(labels) + pref_params(preference)) == labels,
        pref_in(type_params(labels) + pref_params(preference)) == preference,
        pref_in(pref_params(preference)) == preference,
{
    lemma_names();
    let t = type_params(labels);
    let p = pref_params(preference);
    let l = label_params(label);
    let none: Members = Seq::empty();
    assert(t + p + l =~= t + (p + l));
    assert(t + p =~= t + (p + none));
    assert(p + none =~= p);
    // the keys of each group
    assert(forall|i: int| 0 <= i < t.len() ==> (#[trigger] t[i]).0 == "type"@);
    assert(forall|i: int| 0 <= i < p.len() ==> (#[trigger] p[i]).0 == "pref"@);
    assert(forall|i: int| 0 <= i < l.len() ==> (#[trigger] l[i]).0 == "label"@);
    // labels
    lemma_member_absent(p, "type"@);
    lemma_member_absent(l, "type"@);
    lemma_member_behind(p, l, "type"@);
    lemma_labels_round_trip(labels, p + l);
    lemma_labels_round_trip(labels, p);
    // preference
    lemma_member_behind(t, p + l, "pref"@);
    lemma_member_behind(t, p, "pref"@);
    match preference {
        Some(n) => {
            lemma_decimal_round_trip(n as nat);
            assert((p + l)[0] == p[0]);
            assert(member_of(p + l, "pref"@) == Some(p[0].1));
            assert(member_of(p, "pref"@) == Some(p[0].1));
        },
        None => {
            assert(p + l =~= l);
            lemma_member_absent(l, "pref"@);
            lemma_member_absent(p, "pref"@);
        },
    }
    // label
    lemma_member_behind(t, p + l, "label"@);
    lemma_member_behind(p, l, "label"@);
    match label {
        Some(a) => {
            assert(member_of(l, "label"@) == Some(l[0].1));
        },
        None => {
            lemma_member_absent(l, "label"@);
        },
    }
}

/// Whether a name is that of a property whose texts make a list.
pub open spec fn is_list_name(name: Seq<char>) -> bool {
    ||| name == "org"@
    ||| name == "title"@
    ||| name == "role"@
    ||| name == "nickname"@
    ||| name == "contact-uri"@
    ||| name == "url"@
}

/// The list of a contact that the properties of a name make.
pub open spec fn list_of(c: ContactView, name: Seq<char>) -> Option<Seq<Seq<char>>> {
    if name == "org"@ {
        c.organization_names
    } else if name == "title"@ {
        c.titles
    } else if name == "role"@ {
        c.roles
    } else if name == "nickname"@ {
        c.nick_names
    } else if name == "contact-uri"@ {
        c.contact_uris
    } else {
        c.urls
    }
}

/// The contact with another list for the properties of a name.
pub open spec fn with_list(
    c: ContactView,
    name: Seq<char>,
    list: Option<Seq<Seq<char>>>,
) -> ContactView {
    if name == "org"@ {
        ContactView { organization_names: list, ..c }
    } else if name == "title"@ {
        ContactView { titles: list, ..c }
    } else if name == "role"@ {
        ContactView { roles: list, ..c }
    } else if name == "nickname"@ {
        ContactView { nick_names: list, ..c }
    } else if name == "contact-uri"@ {
        ContactView { contact_uris: list, ..c }
    } else {
        ContactView { urls: list, ..c }
    }
}

proof fn lemma_absorb_version(c: ContactView)
    ensures
        absorb(c, plain_property("version"@, "text"@, "4.0"@)) == c,
{
    lemma_names();
}

proof fn lemma_absorb_full_name(c: ContactView, t: Seq<char>)
    requires
        c.full_name is None,
    ensures
        absorb(c, plain_property("fn"@, "text"@, t)) == (ContactView { full_name: Some(t), ..c }),
{
    lemma_names();
}

proof fn lemma_absorb_kind(c: ContactView, t: Seq<char>)
    requires
        c.kind is None,
    ensures
        absorb(c, plain_property("kind"@, "text"@, t)) == (ContactView { kind: Some(t), ..c }),
{
    lemma_names();
}

/// Whether a structured name reads back as it is written.
pub open spec fn is_portable_name(n: NamePartsView) -> bool {
    &&& is_portable_list(n.surnames)
    &&& is_portable_list(n.given_names)
    &&& is_portable_list(n.middle_names)
    &&& is_portable_list(n.prefixes)
    &&& is_portable_list(n.suffixes)
}

proof fn lemma_absorb_name(c: ContactView, n: NamePartsView)
    requires
        c.name_parts is None,
        is_portable_name(n),
    ensures
        absorb(c, name_property(n)) == (ContactView { name_parts: Some(n), ..c }),
{
    lemma_names();
    lemma_texts_round_trip(n.surnames);
    lemma_texts_round_trip(n.given_names);
    lemma_texts_round_trip(n.middle_names);
    lemma_texts_round_trip(n.prefixes);
    lemma_texts_round_trip(n.suffixes);
    let a = seq![
        texts_json(n.surnames),
        texts_json(n.given_names),
        texts_json(n.middle_names),
        texts_json(n.prefixes),
        texts_json(n.suffixes),
    ];
    assert(name_of(a) == n);
}

proof fn lemma_absorb_listed(c: ContactView, name: Seq<char>, kind: Seq<char>, t: Seq<char>)
    requires
        is_list_name(name),
    ensures
        absorb(c, plain_property(name, kind, t)) == with_list(
            c,
            name,
            added(list_of(c, name), t),
        ),
{
    lemma_names();
}

proof fn lemma_absorb_lang(c: ContactView, l: LangView)
    ensures
        absorb(c, lang_property(l)) == (ContactView { langs: added(c.langs, l), ..c }),
{
    lemma_names();
    lemma_params_round_trip(Seq::empty(), l.preference, None);
}

/// Whether an email address reads back as it is written.
pub open spec fn is_portable_email(e: EmailView) -> bool {
    is_filled(e.contexts)
}

proof fn lemma_absorb_email(c: ContactView, e: EmailView)
    requires
        is_portable_email(e),
    ensures
        absorb(c, email_property(e)) == (ContactView { emails: added(c.emails, e), ..c }),
{
    lemma_names();
    lemma_params_round_trip(listed(e.contexts), e.preference, None);
    assert(filled(listed(e.contexts)) == e.contexts);
}

/// Whether a phone number reads back as it is written: no context is the
/// name of a feature, and every feature is.
pub open spec fn is_portable_phone(p: PhoneView) -> bool {
    &&& is_filled(p.contexts)
    &&& is_filled(p.features)
    &&& all_features(listed(p.contexts), false)
    &&& all_features(listed(p.features), true)
}

/// Of labels of one kind, all are kept or none.
proof fn lemma_keep_all(labels: Seq<Seq<char>>, features: bool)
    requires
        all_features(labels, features),
    ensures
        keep(labels, features) == labels,
        keep(labels, !features) == Seq::<Seq<char>>::empty(),
    decreases labels.len(),
{
    if labels.len() > 0 {
        let front = labels.drop_last();
        assert forall|i: int| 0 <= i < front.len() implies is_feature(#[trigger] front[i])
            == features by {
            assert(front[i] == labels[i]);
        }
        lemma_keep_all(front, features);
        assert(is_feature(labels.last()) == features);
        assert(front.push(labels.last()) =~= labels);
    } else {
        assert(labels =~= Seq::empty());
    }
}

/// What is kept of two lists, one after the other, is what is kept of each.
proof fn lemma_keep_append(a: Seq<Seq<char>>, b: Seq<Seq<char>>, features: bool)
    ensures
        keep(a + b, features) == keep(a, features) + keep(b, features),
    decreases b.len(),
{
    if b.len() == 0 {
        assert(a + b =~= a);
        assert(keep(a, features) + keep(b, features) =~= keep(a, features));
    } else {
        let all = a + b;
        assert(all.drop_last() =~= a + b.drop_last());
        assert(all.last() == b.last());
        lemma_keep_append(a, b.drop_last(), features);
        if is_feature(b.last()) == features {
            assert(keep(a, features) + keep(b, features) =~= (keep(a, features) + keep(
                b.drop_last(),
                features,
            )).push(b.last()));
        }
    }
}

proof fn lemma_absorb_phone(c: ContactView, p: PhoneView)
    requires
        is_portable_phone(p),
    ensures
        absorb(c, phone_property(p)) == (ContactView { phones: added(c.phones, p), ..c }),
{
    lemma_names();
    let contexts = listed(p.contexts);
    let features = listed(p.features);
    lemma_params_round_trip(contexts + features, p.preference, None);
    lemma_keep_append(contexts, features, true);
    lemma_keep_append(contexts, features, false);
    lemma_keep_all(contexts, false);
    lemma_keep_all(features, true);
    assert(keep(contexts + features, false) =~= contexts);
    assert(keep(contexts + features, true) =~= features);
    assert(filled(contexts) == p.contexts);
    assert(filled(features) == p.features);
}

/// Whether a postal address reads back as it is written: it has no code of a
/// region or country, and none of its texts is empty.
pub open spec fn is_portable_address(a: PostalAddressView) -> bool {
    &&& is_filled(a.contexts)
    &&& is_portable_list(a.street_parts)
    &&& is_filled_text(a.locality)
    &&& is_filled_text(a.region_name)
    &&& is_filled_text(a.postal_code)
    &&& is_filled_text(a.country_name)
    &&& a.region_code is None
    &&& a.country_code is None
}

proof fn lemma_filled_text(t: Option<Seq<char>>)
    requires
        is_filled_text(t),
    ensures
        as_filled_text(text_json(t)) == t,
{
}

proof fn lemma_absorb_address(c: ContactView, a: PostalAddressView)
    requires
        is_portable_address(a),
    ensures
        absorb(c, address_property(a)) == (ContactView {
            postal_addresses: added(c.postal_addresses, a),
            ..c
        }),
{
    lemma_names();
    lemma_params_round_trip(listed(a.contexts), a.preference, a.full_address);
    lemma_texts_round_trip(a.street_parts);
    lemma_filled_text(a.locality);
    lemma_filled_text(a.region_name);
    lemma_filled_text(a.postal_code);
    lemma_filled_text(a.country_name);
    assert(filled(listed(a.contexts)) == a.contexts);
    let params = type_params(listed(a.contexts)) + pref_params(a.preference) + label_params(
        a.full_address,
    );
    let parts = address_parts(a);
    assert(address_of(params, JsonValue::Array(parts)) == Some(a));
}

/// Reading two runs of properties is reading the first and then the second.
pub proof fn lemma_absorb_all_append(c: ContactView, a: Seq<JsonValue>, b: Seq<JsonValue>)
    ensures
        absorb_all(c, a + b) == absorb_all(absorb_all(c, a), b),
    decreases b.len(),
{
    if b.len() == 0 {
        assert(a + b =~= a);
    } else {
        let all = a + b;
        assert(all.drop_last() =~= a + b.drop_last());
        assert(all.last() == b.last());
        lemma_absorb_all_append(c, a, b.drop_last());
    }
}

/// Reading one property.
proof fn lemma_absorb_all_one(c: ContactView, p: JsonValue)
    ensures
        absorb_all(c, seq![p]) == absorb(c, p),
{
    let s = seq![p];
    assert(s.drop_last() =~= Seq::<JsonValue>::empty());
    assert(absorb_all(c, s.drop_last()) == c);
}

/// The first `k` of a list, or no list for none.
pub open spec fn first<T>(list: Seq<T>, k: int) -> Option<Seq<T>> {
    if k == 0 {
        None
    } else {
        Some(list.take(k))
    }
}

proof fn lemma_absorb_listed_upto(
    c: ContactView,
    name: Seq<char>,
    kind: Seq<char>,
    list: Seq<Seq<char>>,
    k: int,
)
    requires
        is_list_name(name),
        list_of(c, name) is None,
        0 <= k <= list.len(),
    ensures
        absorb_all(c, plain_each(name, kind, Some(list.take(k)))) == with_list(
            c,
            name,
            first(list, k),
        ),
    decreases k,
{
    lemma_names();
    let props = plain_each(name, kind, Some(list.take(k)));
    if k == 0 {
        assert(props =~= Seq::empty());
        assert(with_list(c, name, None) == c);
    } else {
        let before = plain_each(name, kind, Some(list.take(k - 1)));
        assert(props.drop_last() =~= before);
        assert(props.last() == plain_property(name, kind, list[k - 1]));
        lemma_absorb_listed_upto(c, name, kind, list, k - 1);
        let d = with_list(c, name, first(list, k - 1));
        lemma_absorb_listed(d, name, kind, list[k - 1]);
        if k == 1 {
            assert(seq![list[0]] =~= list.take(1));
        } else {
            assert(list.take(k - 1).push(list[k - 1]) =~= list.take(k));
        }
    }
}

/// Reading the properties of a list of texts gives the list.
proof fn lemma_absorb_listed_all(
    c: ContactView,
    name: Seq<char>,
    kind: Seq<char>,
    list: Option<Seq<Seq<char>>>,
)
    requires
        is_list_name(name),
        list_of(c, name) is None,
        is_filled(list),
    ensures
        absorb_all(c, plain_each(name, kind, list)) == with_list(c, name, list),
{
    lemma_names();
    match list {
        Some(l) => {
            lemma_absorb_listed_upto(c, name, kind, l, l.len() as int);
            assert(l.take(l.len() as int) =~= l);
        },
        None => {
            assert(plain_each(name, kind, list) =~= Seq::empty());
        },
    }
}

proof fn lemma_absorb_langs_upto(c: ContactView, list: Seq<LangView>, k: int)
    requires
        c.langs is None,
        0 <= k <= list.len(),
    ensures
        absorb_all(c, lang_properties(Some(list.take(k)))) == (ContactView {
            langs: first(list, k),
            ..c
        }),
    decreases k,
{
    let props = lang_properties(Some(list.take(k)));
    if k == 0 {
        assert(props =~= Seq::empty());
    } else {
        assert(props.drop_last() =~= lang_properties(Some(list.take(k - 1))));
        assert(props.last() == lang_property(list[k - 1]));
        lemma_absorb_langs_upto(c, list, k - 1);
        lemma_absorb_lang(ContactView { langs: first(list, k - 1), ..c }, list[k - 1]);
        if k == 1 {
            assert(seq![list[0]] =~= list.take(1));
        } else {
            assert(list.take(k - 1).push(list[k - 1]) =~= list.take(k));
        }
    }
}

proof fn lemma_absorb_emails_upto(c: ContactView, list: Seq<EmailView>, k: int)
    requires
        c.emails is None,
        0 <= k <= list.len(),
        forall|i: int| 0 <= i < list.len() ==> is_portable_email(#[trigger] list[i]),
    ensures
        absorb_all(c, email_properties(Some(list.take(k)))) == (ContactView {
            emails: first(list, k),
            ..c
        }),
    decreases k,
{
    let props = email_properties(Some(list.take(k)));
    if k == 0 {
        assert(props =~= Seq::empty());
    } else {
        assert(props.drop_last() =~= email_properties(Some(list.take(k - 1))));
        assert(props.last() == email_property(list[k - 1]));
        lemma_absorb_emails_upto(c, list, k - 1);
        lemma_absorb_email(ContactView { emails: first(list, k - 1), ..c }, list[k - 1]);
        if k == 1 {
            assert(seq![list[0]] =~= list.take(1));
        } else {
            assert(list.take(k - 1).push(list[k - 1]) =~= list.take(k));
        }
    }
}

proof fn lemma_absorb_phones_upto(c: ContactView, list: Seq<PhoneView>, k: int)
    requires
        c.phones is None,
        0 <= k <= list.len(),
        forall|i: int| 0 <= i < list.len() ==> is_portable_phone(#[trigger] list[i]),
    ensures
        absorb_all(c, phone_properties(Some(list.take(k)))) == (ContactView {
            phones: first(list, k),
            ..c
        }),
    decreases k,
{
    let props = phone_properties(Some(list.take(k)));
    if k == 0 {
        assert(props =~= Seq::empty());
    } else {
        assert(props.drop_last() =~= phone_properties(Some(list.take(k - 1))));
        assert(props.last() == phone_property(list[k - 1]));
        lemma_absorb_phones_upto(c, list, k - 1);
        lemma_absorb_phone(ContactView { phones: first(list, k - 1), ..c }, list[k - 1]);
        if k == 1 {
            assert(seq![list[0]] =~= list.take(1));
        } else {
            assert(list.take(k - 1).push(list[k - 1]) =~= list.take(k));
        }
    }
}

proof fn lemma_absorb_addresses_upto(c: ContactView, list: Seq<PostalAddressView>, k: int)
    requires
        c.postal_addresses is None,
        0 <= k <= list.len(),
        forall|i: int| 0 <= i < list.len() ==> is_portable_address(#[trigger] list[i]),
    ensures
        absorb_all(c, address_properties(Some(list.take(k)))) == (ContactView {
            postal_addresses: first(list, k),
            ..c
        }),
    decreases k,
{
    let props = address_properties(Some(list.take(k)));
    if k == 0 {
        assert(props =~= Seq::empty());
    } else {
        assert(props.drop_last() =~= address_properties(Some(list.take(k - 1))));
        assert(props.last() == address_property(list[k - 1]));
        lemma_absorb_addresses_upto(c, list, k - 1);
        lemma_absorb_address(
            ContactView { postal_addresses: first(list, k - 1), ..c },
            list[k - 1],
        );
        if k == 1 {
            assert(seq![list[0]] =~= list.take(1));
        } else {
            assert(list.take(k - 1).push(list[k - 1]) =~= list.take(k));
        }
    }
}

/// Whether each item of an optional list meets a condition.
pub open spec fn each_is<T>(list: Option<Seq<T>>, ok: spec_fn(T) -> bool) -> bool {
    match list {
        Some(l) => forall|i: int| 0 <= i < l.len() ==> ok(#[trigger] l[i]),
        None => true,
    }
}

/// Whether a contact reads back from its jCard as it is.
///
/// That holds of a contact whose lists, where present, are not empty; whose
/// name parts and street lines are not a single empty text; whose addresses
/// have no empty text and no code of a region or country, which jCard has no
/// place for; and whose phone numbers have no context that is the name of a
/// feature, and no feature that is not.
pub open spec fn is_portable(c: ContactView) -> bool {
    &&& is_filled(c.langs)
    &&& is_filled(c.nick_names)
    &&& is_filled(c.titles)
    &&& is_filled(c.roles)
    &&& is_filled(c.organization_names)
    &&& is_filled(c.postal_addresses)
    &&& is_filled(c.emails)
    &&& is_filled(c.phones)
    &&& is_filled(c.contact_uris)
    &&& is_filled(c.urls)
    &&& (c.name_parts matches Some(n) ==> is_portable_name(n))
    &&& each_is(c.emails, |e: EmailView| is_portable_email(e))
    &&& each_is(c.phones, |p: PhoneView| is_portable_phone(p))
    &&& each_is(c.postal_addresses, |a: PostalAddressView| is_portable_address(a))
}

/// Reading the properties that are written of a contact, from nothing, gives
/// the contact.
proof fn lemma_properties_round_trip(c: ContactView)
    requires
        is_portable(c),
    ensures
        absorb_all(no_contact(), properties(c)) == c,
{
    lemma_names();
    let c0 = no_contact();
    let s0 = seq![plain_property("version"@, "text"@, "4.0"@)];
    let s1 = s0 + plain_one("fn"@, "text"@, c.full_name);
    let s2 = s1 + name_properties(c.name_parts);
    let s3 = s2 + plain_one("kind"@, "text"@, c.kind);
    let s4 = s3 + lang_properties(c.langs);
    let s5 = s4 + plain_each("org"@, "text"@, c.organization_names);
    let s6 = s5 + plain_each("title"@, "text"@, c.titles);
    let s7 = s6 + plain_each("role"@, "text"@, c.roles);
    let s8 = s7 + plain_each("nickname"@, "text"@, c.nick_names);
    let s9 = s8 + email_properties(c.emails);
    let s10 = s9 + phone_properties(c.phones);
    let s11 = s10 + address_properties(c.postal_addresses);
    let s12 = s11 + plain_each("contact-uri"@, "uri"@, c.contact_uris);
    let s13 = s12 + plain_each("url"@, "uri"@, c.urls);
    assert(properties(c) == s13);
    // version
    lemma_absorb_all_one(c0, s0[0]);
    lemma_absorb_version(c0);
    assert(absorb_all(c0, s0) == c0);
    // fn
    let c1 = ContactView { full_name: c.full_name, ..c0 };
    lemma_absorb_all_append(c0, s0, plain_one("fn"@, "text"@, c.full_name));
    match c.full_name {
        Some(t) => {
            lemma_absorb_all_one(c0, plain_property("fn"@, "text"@, t));
            lemma_absorb_full_name(c0, t);
        },
        None => {},
    }
    assert(absorb_all(c0, s1) == c1);
    // n
    let c2 = ContactView { name_parts: c.name_parts, ..c1 };
    lemma_absorb_all_append(c0, s1, name_properties(c.name_parts));
    match c.name_parts {
        Some(n) => {
            lemma_absorb_all_one(c1, name_property(n));
            lemma_absorb_name(c1, n);
        },
        None => {},
    }
    assert(absorb_all(c0, s2) == c2);
    // kind
    let c3 = ContactView { kind: c.kind, ..c2 };
    lemma_absorb_all_append(c0, s2, plain_one("kind"@, "text"@, c.kind));
    match c.kind {
        Some(t) => {
            lemma_absorb_all_one(c2, plain_property("kind"@, "text"@, t));
            lemma_absorb_kind(c2, t);
        },
        None => {},
    }
    assert(absorb_all(c0, s3) == c3);
    // lang
    let c4 = ContactView { langs: c.langs, ..c3 };
    lemma_absorb_all_append(c0, s3, lang_properties(c.langs));
    match c.langs {
        Some(l) => {
            lemma_absorb_langs_upto(c3, l, l.len() as int);
            assert(l.take(l.len() as int) =~= l);
        },
        None => {},
    }
    assert(absorb_all(c0, s4) == c4);
    // org, title, role, nickname
    let c5 = ContactView { organization_names: c.organization_names, ..c4 };
    lemma_absorb_all_append(c0, s4, plain_each("org"@, "text"@, c.organization_names));
    lemma_absorb_listed_all(c4, "org"@, "text"@, c.organization_names);
    assert(absorb_all(c0, s5) == c5);
    let c6 = ContactView { titles: c.titles, ..c5 };
    lemma_absorb_all_append(c0, s5, plain_each("title"@, "text"@, c.titles));
    lemma_absorb_listed_all(c5, "title"@, "text"@, c.titles);
    assert(absorb_all(c0, s6) == c6);
    let c7 = ContactView { roles: c.roles, ..c6 };
    lemma_absorb_all_append(c0, s6, plain_each("role"@, "text"@, c.roles));
    lemma_absorb_listed_all(c6, "role"@, "text"@, c.roles);
    assert(absorb_all(c0, s7) == c7);
    let c8 = ContactView { nick_names: c.nick_names, ..c7 };
    lemma_absorb_all_append(c0, s7, plain_each("nickname"@, "text"@, c.nick_names));
    lemma_absorb_listed_all(c7, "nickname"@, "text"@, c.nick_names);
    assert(absorb_all(c0, s8) == c8);
    // email
    let c9 = ContactView { emails: c.emails, ..c8 };
    lemma_absorb_all_append(c0, s8, email_properties(c.emails));
    match c.emails {
        Some(l) => {
            lemma_absorb_emails_upto(c8, l, l.len() as int);
            assert(l.take(l.len() as int) =~= l);
        },
        None => {},
    }
    assert(absorb_all(c0, s9) == c9);
    // tel
    let c10 = ContactView { phones: c.phones, ..c9 };
    lemma_absorb_all_append(c0, s9, phone_properties(c.phones));
    match c.phones {
        Some(l) => {
            lemma_absorb_phones_upto(c9, l, l.len() as int);
            assert(l.take(l.len() as int) =~= l);
        },
        None => {},
    }
    assert(absorb_all(c0, s10) == c10);
    // adr
    let c11 = ContactView { postal_addresses: c.postal_addresses, ..c10 };
    lemma_absorb_all_append(c0, s10, address_properties(c.postal_addresses));
    match c.postal_addresses {
        Some(l) => {
            lemma_absorb_addresses_upto(c10, l, l.len() as int);
            assert(l.take(l.len() as int) =~= l);
        },
        None => {},
    }
    assert(absorb_all(c0, s11) == c11);
    // contact-uri, url
    let c12 = ContactView { contact_uris: c.contact_uris, ..c11 };
    lemma_absorb_all_append(c0, s11, plain_each("contact-uri"@, "uri"@, c.contact_uris));
    lemma_absorb_listed_all(c11, "contact-uri"@, "uri"@, c.contact_uris);
    assert(absorb_all(c0, s12) == c12);
    let c13 = ContactView { urls: c.urls, ..c12 };
    lemma_absorb_all_append(c0, s12, plain_each("url"@, "uri"@, c.urls));
    lemma_absorb_listed_all(c12, "url"@, "uri"@, c.urls);
    assert(absorb_all(c0, s13) == c13);
    assert(c13 == c);
}

/// For every contact that is portable, the contact that its jCard stands for
/// is the contact itself.
pub proof fn law_vcard_round_trip(c: ContactView)
    requires
        is_portable(c),
    ensures
        contact_of(vcard_of(c)) == Some(c),
{
    lemma_properties_round_trip(c);
}

} // verus!
