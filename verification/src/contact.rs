//! A plain model of the contact information of an entity.
//!
//! jCard is awkward to work with directly; a [`Contact`] holds the same
//! information in named fields. Empty lists are never stored: a field is
//! either absent or holds at least one item when it comes from a constructor.

use crate::text::{decimal, joined, join, push_decimal};
use vstd::prelude::*;
use vstd::string::StringExecFns;

pub mod builder;

verus! {

/// `None` for an empty list, else the list.
pub fn to_opt_vec<T>(vec: Vec<T>) -> (r: Option<Vec<T>>)
    ensures
        r == opt_vec(vec),
{
    if vec.len() == 0 {
        None
    } else {
        Some(vec)
    }
}

/// `None` for an empty list, else the list.
pub open spec fn opt_vec<T>(vec: Vec<T>) -> Option<Vec<T>> {
    if vec@.len() == 0 {
        None
    } else {
        Some(vec)
    }
}

/// What a [`Lang`] stands for.
pub struct LangView {
    pub preference: Option<u64>,
    pub tag: Seq<char>,
}

/// A language that the contact prefers.
#[derive(Debug, Clone, PartialEq, Eq, PartialOrd, Ord)]
pub struct Lang {
    /// The rank of this language among the preferred ones; lower is preferred.
    pub preference: Option<u64>,
    /// RFC 5646 language tag.
    pub tag: String,
}

impl View for Lang {
    type V = LangView;

    open spec fn view(&self) -> LangView {
        LangView { preference: self.preference, tag: self.tag@ }
    }
}

impl DeepView for Lang {
    type V = LangView;

    open spec fn deep_view(&self) -> LangView {
        self@
    }
}

impl LangView {
    /// The tag, followed by the preference in brackets if there is one.
    pub open spec fn text(self) -> Seq<char> {
        match self.preference {
            Some(p) => self.tag + " (pref: "@ + decimal(p as nat) + ")"@,
            None => self.tag,
        }
    }
}

impl Lang {
    /// The language as a line of text.
    pub fn to_string(&self) -> (r: String)
        ensures
            r@ == self@.text(),
    {
        let mut r = self.tag.clone();
        if let Some(pref) = self.preference {
            r.append(" (pref: ");
            push_decimal(&mut r, pref);
            r.append(")");
        }
        r
    }
}

/// What a [`NameParts`] stands for.
pub struct NamePartsView {
    pub prefixes: Option<Seq<Seq<char>>>,
    pub surnames: Option<Seq<Seq<char>>>,
    pub middle_names: Option<Seq<Seq<char>>>,
    pub given_names: Option<Seq<Seq<char>>>,
    pub suffixes: Option<Seq<Seq<char>>>,
}

/// The parts of a structured name.
#[derive(Debug, Clone, PartialEq, Eq, PartialOrd, Ord)]
pub struct NameParts {
    /// Name prefixes.
    pub prefixes: Option<Vec<String>>,
    /// Surnames or last names.
    pub surnames: Option<Vec<String>>,
    /// Middle names.
    pub middle_names: Option<Vec<String>>,
    /// Given or first names.
    pub given_names: Option<Vec<String>>,
    /// Name suffixes.
    pub suffixes: Option<Vec<String>>,
}

impl View for NameParts {
    type V = NamePartsView;

    open spec fn view(&self) -> NamePartsView {
        NamePartsView {
            prefixes: self.prefixes.deep_view(),
            surnames: self.surnames.deep_view(),
            middle_names: self.middle_names.deep_view(),
            given_names: self.given_names.deep_view(),
            suffixes: self.suffixes.deep_view(),
        }
    }
}

impl DeepView for NameParts {
    type V = NamePartsView;

    open spec fn deep_view(&self) -> NamePartsView {
        self@
    }
}

impl NameParts {
    /// Name parts from lists; an empty list leaves its part absent.
    pub fn new(
        prefixes: Vec<String>,
        surnames: Vec<String>,
        middle_names: Vec<String>,
        given_names: Vec<String>,
        suffixes: Vec<String>,
    ) -> (r: Self)
        ensures
            r.prefixes == opt_vec(prefixes),
            r.surnames == opt_vec(surnames),
            r.middle_names == opt_vec(middle_names),
            r.given_names == opt_vec(given_names),
            r.suffixes == opt_vec(suffixes),
    {
        Self {
            prefixes: to_opt_vec(prefixes),
            surnames: to_opt_vec(surnames),
            middle_names: to_opt_vec(middle_names),
            given_names: to_opt_vec(given_names),
            suffixes: to_opt_vec(suffixes),
        }
    }
}

/// What a [`PostalAddress`] stands for.
pub struct PostalAddressView {
    pub preference: Option<u64>,
    pub contexts: Option<Seq<Seq<char>>>,
    pub full_address: Option<Seq<char>>,
    pub street_parts: Option<Seq<Seq<char>>>,
    pub locality: Option<Seq<char>>,
    pub region_name: Option<Seq<char>>,
    pub region_code: Option<Seq<char>>,
    pub country_name: Option<Seq<char>>,
    pub country_code: Option<Seq<char>>,
    pub postal_code: Option<Seq<char>>,
}

/// A postal address.
#[derive(Debug, Clone, PartialEq, Eq, PartialOrd, Ord)]
pub struct PostalAddress {
    /// The rank of this address among the contact's addresses; lower is preferred.
    pub preference: Option<u64>,
    /// Work, home and the like; the `type` parameter of jCard.
    pub contexts: Option<Vec<String>>,
    /// The whole address as one unstructured text, where it was given so. It
    /// may stand beside the structured fields.
    pub full_address: Option<String>,
    /// The street lines.
    pub street_parts: Option<Vec<String>>,
    /// City, county and the like.
    pub locality: Option<String>,
    /// Name of the region (state, province).
    pub region_name: Option<String>,
    /// Code of the region.
    pub region_code: Option<String>,
    /// Name of the country.
    pub country_name: Option<String>,
    /// Code of the country.
    pub country_code: Option<String>,
    /// Postal code.
    pub postal_code: Option<String>,
}

impl View for PostalAddress {
    type V = PostalAddressView;

    open spec fn view(&self) -> PostalAddressView {
        PostalAddressView {
            preference: self.preference,
            contexts: self.contexts.deep_view(),
            full_address: self.full_address.deep_view(),
            street_parts: self.street_parts.deep_view(),
            locality: self.locality.deep_view(),
            region_name: self.region_name.deep_view(),
            region_code: self.region_code.deep_view(),
            country_name: self.country_name.deep_view(),
            country_code: self.country_code.deep_view(),
            postal_code: self.postal_code.deep_view(),
        }
    }
}

impl DeepView for PostalAddress {
    type V = PostalAddressView;

    open spec fn deep_view(&self) -> PostalAddressView {
        self@
    }
}

impl PostalAddress {
    /// An address from its parts; an empty list leaves its field absent.
    pub fn new(
        preference: Option<u64>,
        contexts: Vec<String>,
        full_address: Option<String>,
        street_parts: Vec<String>,
        locality: Option<String>,
        region_name: Option<String>,
        region_code: Option<String>,
        country_name: Option<String>,
        country_code: Option<String>,
        postal_code: Option<String>,
    ) -> (r: Self)
        ensures
            r.preference == preference,
            r.contexts == opt_vec(contexts),
            r.full_address == full_address,
            r.street_parts == opt_vec(street_parts),
            r.locality == locality,
            r.region_name == region_name,
            r.region_code == region_code,
            r.country_name == country_name,
            r.country_code == country_code,
            r.postal_code == postal_code,
    {
        Self {
            preference,
            contexts: to_opt_vec(contexts),
            full_address,
            street_parts: to_opt_vec(street_parts),
            locality,
            region_name,
            region_code,
            country_name,
            country_code,
            postal_code,
        }
    }
}

/// The bracketed notes that follow an address or a number in a line of text:
/// the preference, then each list of labels that is present, a space between
/// each two.
pub open spec fn qualifiers_text(
    preference: Option<u64>,
    labels: Seq<Option<Seq<Seq<char>>>>,
) -> Seq<char> {
    joined(qualifiers(preference, labels), " "@)
}

/// The bracketed notes one by one.
pub open spec fn qualifiers(
    preference: Option<u64>,
    labels: Seq<Option<Seq<Seq<char>>>>,
) -> Seq<Seq<char>>
    decreases labels.len(),
{
    if labels.len() == 0 {
        match preference {
            Some(p) => seq!["(pref: "@ + decimal(p as nat) + ")"@],
            None => Seq::empty(),
        }
    } else {
        let before = qualifiers(preference, labels.drop_last());
        match labels.last() {
            Some(l) => before.push("("@ + joined(l, ","@) + ")"@),
            None => before,
        }
    }
}

/// `value` alone if there are no notes, else `value`, a space and the notes.
pub open spec fn qualified_text(value: Seq<char>, notes: Seq<char>) -> Seq<char> {
    if notes.len() == 0 {
        value
    } else {
        value + " "@ + notes
    }
}

/// What an [`Email`] stands for.
pub struct EmailView {
    pub preference: Option<u64>,
    pub contexts: Option<Seq<Seq<char>>>,
    pub email: Seq<char>,
}

/// An email address.
#[derive(Debug, Clone, PartialEq, Eq, PartialOrd, Ord)]
pub struct Email {
    /// The rank of this address among the contact's addresses; lower is preferred.
    pub preference: Option<u64>,
    /// Work, home and the like; the `type` parameter of jCard.
    pub contexts: Option<Vec<String>>,
    /// The address.
    pub email: String,
}

impl View for Email {
    type V = EmailView;

    open spec fn view(&self) -> EmailView {
        EmailView {
            preference: self.preference,
            contexts: self.contexts.deep_view(),
            email: self.email@,
        }
    }
}

impl DeepView for Email {
    type V = EmailView;

    open spec fn deep_view(&self) -> EmailView {
        self@
    }
}

impl EmailView {
    /// The address, followed by its preference and contexts in brackets.
    pub open spec fn text(self) -> Seq<char> {
        qualified_text(self.email, qualifiers_text(self.preference, seq![self.contexts]))
    }
}

/// The note `(pref: N)`.
fn preference_note(pref: u64) -> (r: String)
    ensures
        r@ == "(pref: "@ + decimal(pref as nat) + ")"@,
{
    let mut r = "(pref: ".to_owned();
    push_decimal(&mut r, pref);
    r.append(")");
    r
}

/// The note `(a,b,c)` of a list of labels.
fn labels_note(labels: &Vec<String>) -> (r: String)
    ensures
        r@ == "("@ + joined(labels.deep_view(), ","@) + ")"@,
{
    let mut r = "(".to_owned();
    let inner = join(labels, ",");
    r.append(inner.as_str());
    r.append(")");
    r
}

/// `value`, followed by a space and the joined notes if there are any.
fn with_qualifiers(value: &String, notes: &Vec<String>) -> (r: String)
    ensures
        r@ == qualified_text(value@, joined(notes.deep_view(), " "@)),
{
    let q = join(notes, " ");
    if q.as_str().unicode_len() == 0 {
        value.clone()
    } else {
        let mut r = value.clone();
        r.append(" ");
        r.append(q.as_str());
        r
    }
}

impl Email {
    /// An email address; an empty list of contexts leaves them absent.
    pub fn new(preference: Option<u64>, contexts: Vec<String>, email: String) -> (r: Self)
        ensures
            r.preference == preference,
            r.contexts == opt_vec(contexts),
            r.email == email,
    {
        Self { preference, contexts: to_opt_vec(contexts), email }
    }

    /// The address as a line of text.
    pub fn to_string(&self) -> (r: String)
        ensures
            r@ == self@.text(),
    {
        let mut notes: Vec<String> = Vec::new();
        let ghost none: Seq<Option<Seq<Seq<char>>>> = Seq::empty();
        if let Some(pref) = self.preference {
            notes.push(preference_note(pref));
        }
        assert(notes.deep_view() =~= qualifiers(self.preference, none));
        if let Some(contexts) = &self.contexts {
            notes.push(labels_note(contexts));
        }
        proof {
            let labels = seq![self@.contexts];
            assert(labels.drop_last() =~= none);
            assert(notes.deep_view() =~= qualifiers(self.preference, labels));
        }
        with_qualifiers(&self.email, &notes)
    }
}

/// What a [`Phone`] stands for.
pub struct PhoneView {
    pub preference: Option<u64>,
    pub contexts: Option<Seq<Seq<char>>>,
    pub phone: Seq<char>,
    pub features: Option<Seq<Seq<char>>>,
}

/// A phone number.
#[derive(Debug, Clone, PartialEq, Eq, PartialOrd, Ord)]
pub struct Phone {
    /// The rank of this number among the contact's numbers; lower is preferred.
    pub preference: Option<u64>,
    /// Work, home and the like; the `type` parameter of jCard.
    pub contexts: Option<Vec<String>>,
    /// The number.
    pub phone: String,
    /// What the number can be used for: voice, fax and the like.
    pub features: Option<Vec<String>>,
}

impl View for Phone {
    type V = PhoneView;

    open spec fn view(&self) -> PhoneView {
        PhoneView {
            preference: self.preference,
            contexts: self.contexts.deep_view(),
            phone: self.phone@,
            features: self.features.deep_view(),
        }
    }
}

impl DeepView for Phone {
    type V = PhoneView;

    open spec fn deep_view(&self) -> PhoneView {
        self@
    }
}

impl PhoneView {
    /// The number, followed by its preference, contexts and features in
    /// brackets.
    pub open spec fn text(self) -> Seq<char> {
        qualified_text(
            self.phone,
            qualifiers_text(self.preference, seq![self.contexts, self.features]),
        )
    }
}

impl Phone {
    /// A phone number; an empty list leaves its field absent.
    pub fn new(
        preference: Option<u64>,
        contexts: Vec<String>,
        phone: String,
        features: Vec<String>,
    ) -> (r: Self)
        ensures
            r.preference == preference,
            r.contexts == opt_vec(contexts),
            r.phone == phone,
            r.features == opt_vec(features),
    {
        Self { preference, contexts: to_opt_vec(contexts), phone, features: to_opt_vec(features) }
    }

    /// The number as a line of text.
    pub fn to_string(&self) -> (r: String)
        ensures
            r@ == self@.text(),
    {
        let mut notes: Vec<String> = Vec::new();
        let ghost none: Seq<Option<Seq<Seq<char>>>> = Seq::empty();
        if let Some(pref) = self.preference {
            notes.push(preference_note(pref));
        }
        assert(notes.deep_view() =~= qualifiers(self.preference, none));
        if let Some(contexts) = &self.contexts {
            notes.push(labels_note(contexts));
        }
        proof {
            let labels = seq![self@.contexts];
            assert(labels.drop_last() =~= none);
            assert(notes.deep_view() =~= qualifiers(self.preference, labels));
        }
        if let Some(features) = &self.features {
            notes.push(labels_note(features));
        }
        proof {
            let labels = seq![self@.contexts, self@.features];
            assert(labels.drop_last() =~= seq![self@.contexts]);
            assert(notes.deep_view() =~= qualifiers(self.preference, labels));
        }
        with_qualifiers(&self.phone, &notes)
    }
}

/// What a [`Contact`] stands for.
pub struct ContactView {
    pub langs: Option<Seq<LangView>>,
    pub kind: Option<Seq<char>>,
    pub full_name: Option<Seq<char>>,
    pub name_parts: Option<NamePartsView>,
    pub nick_names: Option<Seq<Seq<char>>>,
    pub titles: Option<Seq<Seq<char>>>,
    pub roles: Option<Seq<Seq<char>>>,
    pub organization_names: Option<Seq<Seq<char>>>,
    pub postal_addresses: Option<Seq<PostalAddressView>>,
    pub emails: Option<Seq<EmailView>>,
    pub phones: Option<Seq<PhoneView>>,
    pub contact_uris: Option<Seq<Seq<char>>>,
    pub urls: Option<Seq<Seq<char>>>,
}

/// A contact: a person, an organisation or a role, and how to reach it.
#[derive(Debug, Clone, PartialEq, Eq, PartialOrd, Ord)]
pub struct Contact {
    /// Preferred languages.
    pub langs: Option<Vec<Lang>>,
    /// The kind, such as individual or company.
    pub kind: Option<String>,
    /// Full name of the contact.
    pub full_name: Option<String>,
    /// Structured parts of the name.
    pub name_parts: Option<NameParts>,
    /// Nick names.
    pub nick_names: Option<Vec<String>>,
    /// Titles.
    pub titles: Option<Vec<String>>,
    /// Organisational roles.
    pub roles: Option<Vec<String>>,
    /// Organisation names.
    pub organization_names: Option<Vec<String>>,
    /// Postal addresses.
    pub postal_addresses: Option<Vec<PostalAddress>>,
    /// Email addresses.
    pub emails: Option<Vec<Email>>,
    /// Phone numbers.
    pub phones: Option<Vec<Phone>>,
    /// Contact URIs.
    pub contact_uris: Option<Vec<String>>,
    /// URLs.
    pub urls: Option<Vec<String>>,
}

impl View for Contact {
    type V = ContactView;

    open spec fn view(&self) -> ContactView {
        ContactView {
            langs: self.langs.deep_view(),
            kind: self.kind.deep_view(),
            full_name: self.full_name.deep_view(),
            name_parts: self.name_parts.deep_view(),
            nick_names: self.nick_names.deep_view(),
            titles: self.titles.deep_view(),
            roles: self.roles.deep_view(),
            organization_names: self.organization_names.deep_view(),
            postal_addresses: self.postal_addresses.deep_view(),
            emails: self.emails.deep_view(),
            phones: self.phones.deep_view(),
            contact_uris: self.contact_uris.deep_view(),
            urls: self.urls.deep_view(),
        }
    }
}

impl DeepView for Contact {
    type V = ContactView;

    open spec fn deep_view(&self) -> ContactView {
        self@
    }
}

/// The email address `text` with no preference and no contexts.
pub open spec fn plain_email(text: Seq<char>) -> EmailView {
    EmailView { preference: None, contexts: None, email: text }
}

/// The phone number `text` with the one context `label`.
pub open spec fn labelled_phone(label: Seq<char>, text: Seq<char>) -> PhoneView {
    PhoneView { preference: None, contexts: Some(seq![label]), phone: text, features: None }
}

/// `None` for no texts, else each text made into an email address.
pub open spec fn plain_emails(texts: Seq<Seq<char>>) -> Option<Seq<EmailView>> {
    if texts.len() == 0 {
        None
    } else {
        Some(Seq::new(texts.len(), |i: int| plain_email(texts[i])))
    }
}

/// `None` for no texts, else each text made into a phone number with the
/// context `label`.
pub open spec fn labelled_phones(label: Seq<char>, texts: Seq<Seq<char>>) -> Option<
    Seq<PhoneView>,
> {
    if texts.len() == 0 {
        None
    } else {
        Some(Seq::new(texts.len(), |i: int| labelled_phone(label, texts[i])))
    }
}

/// The texts of a slice of string slices.
pub open spec fn texts(items: &[&str]) -> Seq<Seq<char>> {
    Seq::new(items@.len(), |i: int| items@[i]@)
}

impl ContactView {
    /// Whether any field is present.
    pub open spec fn is_non_empty(self) -> bool {
        ||| self.langs is Some
        ||| self.kind is Some
        ||| self.full_name is Some
        ||| self.name_parts is Some
        ||| self.nick_names is Some
        ||| self.titles is Some
        ||| self.roles is Some
        ||| self.organization_names is Some
        ||| self.postal_addresses is Some
        ||| self.emails is Some
        ||| self.phones is Some
        ||| self.contact_uris is Some
        ||| self.urls is Some
    }
}

impl Contact {
    /// A contact from its parts; an empty list leaves its field absent.
    pub fn new(
        langs: Vec<Lang>,
        kind: Option<String>,
        full_name: Option<String>,
        name_parts: Option<NameParts>,
        nick_names: Vec<String>,
        titles: Vec<String>,
        roles: Vec<String>,
        organization_names: Vec<String>,
        postal_addresses: Vec<PostalAddress>,
        emails: Vec<Email>,
        phones: Vec<Phone>,
        contact_uris: Vec<String>,
        urls: Vec<String>,
    ) -> (r: Self)
        ensures
            r.langs == opt_vec(langs),
            r.kind == kind,
            r.full_name == full_name,
            r.name_parts == name_parts,
            r.nick_names == opt_vec(nick_names),
            r.titles == opt_vec(titles),
            r.roles == opt_vec(roles),
            r.organization_names == opt_vec(organization_names),
            r.postal_addresses == opt_vec(postal_addresses),
            r.emails == opt_vec(emails),
            r.phones == opt_vec(phones),
            r.contact_uris == opt_vec(contact_uris),
            r.urls == opt_vec(urls),
    {
        Self {
            langs: to_opt_vec(langs),
            kind,
            full_name,
            name_parts,
            nick_names: to_opt_vec(nick_names),
            titles: to_opt_vec(titles),
            roles: to_opt_vec(roles),
            organization_names: to_opt_vec(organization_names),
            postal_addresses: to_opt_vec(postal_addresses),
            emails: to_opt_vec(emails),
            phones: to_opt_vec(phones),
            contact_uris: to_opt_vec(contact_uris),
            urls: to_opt_vec(urls),
        }
    }

    /// Whether the contact holds any data.
    pub fn is_non_empty(&self) -> (r: bool)
        ensures
            r == self@.is_non_empty(),
    {
        self.langs.is_some() || self.kind.is_some() || self.full_name.is_some()
            || self.name_parts.is_some() || self.nick_names.is_some() || self.titles.is_some()
            || self.roles.is_some() || self.organization_names.is_some()
            || self.postal_addresses.is_some() || self.emails.is_some() || self.phones.is_some()
            || self.contact_uris.is_some() || self.urls.is_some()
    }

    /// Replaces the email addresses by the given ones, each without preference
    /// or context; with none given the contact has no email address.
    pub fn set_emails(self, emails: &[&str]) -> (r: Self)
        ensures
            r@ == (ContactView { emails: plain_emails(texts(emails)), ..self@ }),
    {
        let mut list: Vec<Email> = Vec::new();
        let mut i: usize = 0;
        while i < emails.len()
            invariant
                i <= emails.len(),
                list.len() == i,
                forall|k: int| 0 <= k < i ==> (#[trigger] list@[k])@ == plain_email(emails@[k]@),
            decreases emails.len() - i,
        {
            let e = Email::new(None, Vec::new(), emails[i].to_owned());
            list.push(e);
            i += 1;
        }
        proof {
            if list.len() > 0 {
                assert(list.deep_view() =~= plain_emails(texts(emails))->0);
            }
        }
        let mut contact = self;
        contact.emails = to_opt_vec(list);
        contact
    }

    /// The phone numbers for [`Contact::add_voice_phones`] and
    /// [`Contact::add_fax_phones`]: each text with the one context `label`.
    fn phones_with_context(label: &str, phones: &[&str]) -> (list: Vec<Phone>)
        ensures
            list.len() == phones.len(),
            list.len() > 0 ==> Some(list.deep_view()) == labelled_phones(label@, texts(phones)),
    {
        let mut list: Vec<Phone> = Vec::new();
        let mut i: usize = 0;
        while i < phones.len()
            invariant
                i <= phones.len(),
                list.len() == i,
                forall|k: int|
                    0 <= k < i ==> (#[trigger] list@[k])@ == labelled_phone(label@, phones@[k]@),
            decreases phones.len() - i,
        {
            let contexts: Vec<String> = vec![label.to_owned()];
            assert(contexts.deep_view() =~= seq![label@]);
            let p = Phone::new(None, contexts, phones[i].to_owned(), Vec::new());
            list.push(p);
            i += 1;
        }
        proof {
            if list.len() > 0 {
                assert(list.deep_view() =~= labelled_phones(label@, texts(phones))->0);
            }
        }
        list
    }

    /// Gives a contact without phone numbers the given ones, each with the
    /// context `voice`. A contact that has phone numbers keeps them and takes
    /// no new one.
    pub fn add_voice_phones(self, phones: &[&str]) -> (r: Self)
        ensures
            self.phones is Some ==> r == self,
            self.phones is None ==> r@ == (ContactView {
                phones: labelled_phones("voice"@, texts(phones)),
                ..self@
            }),
    {
        let list = Self::phones_with_context("voice", phones);
        let mut contact = self;
        if contact.phones.is_none() {
            contact.phones = to_opt_vec(list);
        }
        contact
    }

    /// Gives a contact without phone numbers the given ones, each with the
    /// context `fax`. A contact that has phone numbers keeps them and takes no
    /// new one.
    pub fn add_fax_phones(self, phones: &[&str]) -> (r: Self)
        ensures
            self.phones is Some ==> r == self,
            self.phones is None ==> r@ == (ContactView {
                phones: labelled_phones("fax"@, texts(phones)),
                ..self@
            }),
    {
        let list = Self::phones_with_context("fax", phones);
        let mut contact = self;
        if contact.phones.is_none() {
            contact.phones = to_opt_vec(list);
        }
        contact
    }

    /// Replaces the postal addresses by the one given.
    pub fn set_postal_address(self, postal_address: PostalAddress) -> (r: Self)
        ensures
            r@ == (ContactView { postal_addresses: Some(seq![postal_address@]), ..self@ }),
    {
        let list: Vec<PostalAddress> = vec![postal_address];
        assert(list.deep_view() =~= seq![postal_address@]);
        let mut contact = self;
        contact.postal_addresses = Some(list);
        contact
    }
}

} // verus!
