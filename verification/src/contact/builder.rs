//! Builders for contacts and their parts.
//!
//! A builder collects the fields one by one; `build` hands them to the
//! constructor of the type, so that empty lists are left absent. A field that
//! must be given is part of the type of the builder: `build` exists only
//! where it was given.

use crate::contact::{opt_vec, Contact, Email, Lang, NameParts, Phone, PostalAddress};
use vstd::prelude::*;

verus! {

/// Collects the fields of a [`Lang`]; `TAG` tells whether the tag was given.
pub struct LangBuilder<const TAG: bool> {
    pub preference: Option<u64>,
    pub tag: String,
}

impl Lang {
    /// A builder without any field.
    pub fn builder() -> (r: LangBuilder<false>)
        ensures
            r.preference is None,
    {
        LangBuilder { preference: None, tag: String::new() }
    }
}

impl<const TAG: bool> LangBuilder<TAG> {
    pub fn preference(self, preference: u64) -> (r: Self)
        ensures
            r.preference == Some(preference),
            r.tag == self.tag,
    {
        LangBuilder { preference: Some(preference), tag: self.tag }
    }

    pub fn tag(self, tag: &str) -> (r: LangBuilder<true>)
        ensures
            r.preference == self.preference,
            r.tag@ == tag@,
    {
        LangBuilder { preference: self.preference, tag: tag.to_owned() }
    }
}

impl LangBuilder<true> {
    pub fn build(self) -> (r: Lang)
        ensures
            r.preference == self.preference,
            r.tag == self.tag,
    {
        Lang { preference: self.preference, tag: self.tag }
    }
}

/// A list with one more item at its end.
fn with_item<T>(list: Vec<T>, item: T) -> (r: Vec<T>)
    ensures
        r@ == list@.push(item),
{
    let mut list = list;
    list.push(item);
    list
}

/// Collects the fields of a [`NameParts`].
pub struct NamePartsBuilder {
    pub prefixes: Vec<String>,
    pub surnames: Vec<String>,
    pub middle_names: Vec<String>,
    pub given_names: Vec<String>,
    pub suffixes: Vec<String>,
}

impl NameParts {
    /// A builder without any name.
    pub fn builder() -> (r: NamePartsBuilder)
        ensures
            r.prefixes@.len() == 0,
            r.surnames@.len() == 0,
            r.middle_names@.len() == 0,
            r.given_names@.len() == 0,
            r.suffixes@.len() == 0,
    {
        NamePartsBuilder {
            prefixes: Vec::new(),
            surnames: Vec::new(),
            middle_names: Vec::new(),
            given_names: Vec::new(),
            suffixes: Vec::new(),
        }
    }
}

impl NamePartsBuilder {
    pub fn prefixes(self, prefixes: Vec<String>) -> (r: Self)
        ensures
            r == (NamePartsBuilder { prefixes, ..self }),
    {
        NamePartsBuilder { prefixes, ..self }
    }

    pub fn surnames(self, surnames: Vec<String>) -> (r: Self)
        ensures
            r == (NamePartsBuilder { surnames, ..self }),
    {
        NamePartsBuilder { surnames, ..self }
    }

    pub fn middle_names(self, middle_names: Vec<String>) -> (r: Self)
        ensures
            r == (NamePartsBuilder { middle_names, ..self }),
    {
        NamePartsBuilder { middle_names, ..self }
    }

    pub fn given_names(self, given_names: Vec<String>) -> (r: Self)
        ensures
            r == (NamePartsBuilder { given_names, ..self }),
    {
        NamePartsBuilder { given_names, ..self }
    }

    pub fn suffixes(self, suffixes: Vec<String>) -> (r: Self)
        ensures
            r == (NamePartsBuilder { suffixes, ..self }),
    {
        NamePartsBuilder { suffixes, ..self }
    }

    pub fn build(self) -> (r: NameParts)
        ensures
            r.prefixes == opt_vec(self.prefixes),
            r.surnames == opt_vec(self.surnames),
            r.middle_names == opt_vec(self.middle_names),
            r.given_names == opt_vec(self.given_names),
            r.suffixes == opt_vec(self.suffixes),
    {
        NameParts::new(
            self.prefixes,
            self.surnames,
            self.middle_names,
            self.given_names,
            self.suffixes,
        )
    }
}

/// Collects the fields of an [`Email`]; `EMAIL` tells whether the address was
/// given.
pub struct EmailBuilder<const EMAIL: bool> {
    pub preference: Option<u64>,
    pub contexts: Vec<String>,
    pub email: String,
}

impl Email {
    /// A builder without any field.
    pub fn builder() -> (r: EmailBuilder<false>)
        ensures
            r.preference is None,
            r.contexts@.len() == 0,
    {
        EmailBuilder { preference: None, contexts: Vec::new(), email: String::new() }
    }
}

impl<const EMAIL: bool> EmailBuilder<EMAIL> {
    pub fn preference(self, preference: u64) -> (r: Self)
        ensures
            r.preference == Some(preference),
            r.contexts == self.contexts,
            r.email == self.email,
    {
        EmailBuilder { preference: Some(preference), contexts: self.contexts, email: self.email }
    }

    pub fn contexts(self, contexts: Vec<String>) -> (r: Self)
        ensures
            r.preference == self.preference,
            r.contexts == contexts,
            r.email == self.email,
    {
        EmailBuilder { preference: self.preference, contexts, email: self.email }
    }

    pub fn email(self, email: &str) -> (r: EmailBuilder<true>)
        ensures
            r.preference == self.preference,
            r.contexts == self.contexts,
            r.email@ == email@,
    {
        EmailBuilder {
            preference: self.preference,
            contexts: self.contexts,
            email: email.to_owned(),
        }
    }
}

impl EmailBuilder<true> {
    pub fn build(self) -> (r: Email)
        ensures
            r.preference == self.preference,
            r.contexts == opt_vec(self.contexts),
            r.email == self.email,
    {
        Email::new(self.preference, self.contexts, self.email)
    }
}

/// Collects the fields of a [`Phone`]; `PHONE` tells whether the number was
/// given.
pub struct PhoneBuilder<const PHONE: bool> {
    pub preference: Option<u64>,
    pub contexts: Vec<String>,
    pub phone: String,
    pub features: Vec<String>,
}

impl Phone {
    /// A builder without any field.
    pub fn builder() -> (r: PhoneBuilder<false>)
        ensures
            r.preference is None,
            r.contexts@.len() == 0,
            r.features@.len() == 0,
    {
        PhoneBuilder {
            preference: None,
            contexts: Vec::new(),
            phone: String::new(),
            features: Vec::new(),
        }
    }
}

impl<const PHONE: bool> PhoneBuilder<PHONE> {
    pub fn preference(self, preference: u64) -> (r: Self)
        ensures
            r.preference == Some(preference),
            r.contexts == self.contexts,
            r.phone == self.phone,
            r.features == self.features,
    {
        PhoneBuilder {
            preference: Some(preference),
            contexts: self.contexts,
            phone: self.phone,
            features: self.features,
        }
    }

    pub fn contexts(self, contexts: Vec<String>) -> (r: Self)
        ensures
            r.preference == self.preference,
            r.contexts == contexts,
            r.phone == self.phone,
            r.features == self.features,
    {
        PhoneBuilder {
            preference: self.preference,
            contexts,
            phone: self.phone,
            features: self.features,
        }
    }

    pub fn features(self, features: Vec<String>) -> (r: Self)
        ensures
            r.preference == self.preference,
            r.contexts == self.contexts,
            r.phone == self.phone,
            r.features == features,
    {
        PhoneBuilder {
            preference: self.preference,
            contexts: self.contexts,
            phone: self.phone,
            features,
        }
    }

    pub fn phone(self, phone: &str) -> (r: PhoneBuilder<true>)
        ensures
            r.preference == self.preference,
            r.contexts == self.contexts,
            r.phone@ == phone@,
            r.features == self.features,
    {
        PhoneBuilder {
            preference: self.preference,
            contexts: self.contexts,
            phone: phone.to_owned(),
            features: self.features,
        }
    }
}

impl PhoneBuilder<true> {
    pub fn build(self) -> (r: Phone)
        ensures
            r.preference == self.preference,
            r.contexts == opt_vec(self.contexts),
            r.phone == self.phone,
            r.features == opt_vec(self.features),
    {
        Phone::new(self.preference, self.contexts, self.phone, self.features)
    }
}

/// Collects the fields of a [`PostalAddress`].
pub struct PostalAddressBuilder {
    pub preference: Option<u64>,
    pub contexts: Vec<String>,
    pub full_address: Option<String>,
    pub street_parts: Vec<String>,
    pub locality: Option<String>,
    pub region_name: Option<String>,
    pub region_code: Option<String>,
    pub country_name: Option<String>,
    pub country_code: Option<String>,
    pub postal_code: Option<String>,
}

impl PostalAddress {
    /// A builder without any field.
    pub fn builder() -> (r: PostalAddressBuilder)
        ensures
            r.preference is None,
            r.contexts@.len() == 0,
            r.full_address is None,
            r.street_parts@.len() == 0,
            r.locality is None,
            r.region_name is None,
            r.region_code is None,
            r.country_name is None,
            r.country_code is None,
            r.postal_code is None,
    {
        PostalAddressBuilder {
            preference: None,
            contexts: Vec::new(),
            full_address: None,
            street_parts: Vec::new(),
            locality: None,
            region_name: None,
            region_code: None,
            country_name: None,
            country_code: None,
            postal_code: None,
        }
    }
}

/// Whether `field` holds the text of `text`.
pub open spec fn holds(field: Option<String>, text: &str) -> bool {
    field matches Some(t) && t@ == text@
}

impl PostalAddressBuilder {
    pub fn preference(self, preference: u64) -> (r: Self)
        ensures
            r == (PostalAddressBuilder { preference: Some(preference), ..self }),
    {
        PostalAddressBuilder { preference: Some(preference), ..self }
    }

    pub fn contexts(self, contexts: Vec<String>) -> (r: Self)
        ensures
            r == (PostalAddressBuilder { contexts, ..self }),
    {
        PostalAddressBuilder { contexts, ..self }
    }

    pub fn street_parts(self, street_parts: Vec<String>) -> (r: Self)
        ensures
            r == (PostalAddressBuilder { street_parts, ..self }),
    {
        PostalAddressBuilder { street_parts, ..self }
    }

    pub fn full_address(self, full_address: &str) -> (r: Self)
        ensures
            holds(r.full_address, full_address),
            r == (PostalAddressBuilder { full_address: r.full_address, ..self }),
    {
        PostalAddressBuilder { full_address: Some(full_address.to_owned()), ..self }
    }

    pub fn locality(self, locality: &str) -> (r: Self)
        ensures
            holds(r.locality, locality),
            r == (PostalAddressBuilder { locality: r.locality, ..self }),
    {
        PostalAddressBuilder { locality: Some(locality.to_owned()), ..self }
    }

    pub fn region_name(self, region_name: &str) -> (r: Self)
        ensures
            holds(r.region_name, region_name),
            r == (PostalAddressBuilder { region_name: r.region_name, ..self }),
    {
        PostalAddressBuilder { region_name: Some(region_name.to_owned()), ..self }
    }

    pub fn region_code(self, region_code: &str) -> (r: Self)
        ensures
            holds(r.region_code, region_code),
            r == (PostalAddressBuilder { region_code: r.region_code, ..self }),
    {
        PostalAddressBuilder { region_code: Some(region_code.to_owned()), ..self }
    }

    pub fn country_name(self, country_name: &str) -> (r: Self)
        ensures
            holds(r.country_name, country_name),
            r == (PostalAddressBuilder { country_name: r.country_name, ..self }),
    {
        PostalAddressBuilder { country_name: Some(country_name.to_owned()), ..self }
    }

    pub fn country_code(self, country_code: &str) -> (r: Self)
        ensures
            holds(r.country_code, country_code),
            r == (PostalAddressBuilder { country_code: r.country_code, ..self }),
    {
        PostalAddressBuilder { country_code: Some(country_code.to_owned()), ..self }
    }

    pub fn postal_code(self, postal_code: &str) -> (r: Self)
        ensures
            holds(r.postal_code, postal_code),
            r == (PostalAddressBuilder { postal_code: r.postal_code, ..self }),
    {
        PostalAddressBuilder { postal_code: Some(postal_code.to_owned()), ..self }
    }

    pub fn build(self) -> (r: PostalAddress)
        ensures
            r.preference == self.preference,
            r.contexts == opt_vec(self.contexts),
            r.full_address == self.full_address,
            r.street_parts == opt_vec(self.street_parts),
            r.locality == self.locality,
            r.region_name == self.region_name,
            r.region_code == self.region_code,
            r.country_name == self.country_name,
            r.country_code == self.country_code,
            r.postal_code == self.postal_code,
    {
        PostalAddress::new(
            self.preference,
            self.contexts,
            self.full_address,
            self.street_parts,
            self.locality,
            self.region_name,
            self.region_code,
            self.country_name,
            self.country_code,
            self.postal_code,
        )
    }
}

/// Collects the fields of a [`Contact`].
pub struct ContactBuilder {
    pub langs: Vec<Lang>,
    pub kind: Option<String>,
    pub full_name: Option<String>,
    pub name_parts: Option<NameParts>,
    pub nick_names: Vec<String>,
    pub titles: Vec<String>,
    pub roles: Vec<String>,
    pub organization_names: Vec<String>,
    pub postal_addresses: Vec<PostalAddress>,
    pub emails: Vec<Email>,
    pub phones: Vec<Phone>,
    pub contact_uris: Vec<String>,
    pub urls: Vec<String>,
}

impl Contact {
    /// A builder without any field.
    pub fn builder() -> (r: ContactBuilder)
        ensures
            r.langs@.len() == 0,
            r.kind is None,
            r.full_name is None,
            r.name_parts is None,
            r.nick_names@.len() == 0,
            r.titles@.len() == 0,
            r.roles@.len() == 0,
            r.organization_names@.len() == 0,
            r.postal_addresses@.len() == 0,
            r.emails@.len() == 0,
            r.phones@.len() == 0,
            r.contact_uris@.len() == 0,
            r.urls@.len() == 0,
    {
        ContactBuilder {
            langs: Vec::new(),
            kind: None,
            full_name: None,
            name_parts: None,
            nick_names: Vec::new(),
            titles: Vec::new(),
            roles: Vec::new(),
            organization_names: Vec::new(),
            postal_addresses: Vec::new(),
            emails: Vec::new(),
            phones: Vec::new(),
            contact_uris: Vec::new(),
            urls: Vec::new(),
        }
    }
}

impl ContactBuilder {
    pub fn kind(self, kind: &str) -> (r: Self)
        ensures
            holds(r.kind, kind),
            r == (ContactBuilder { kind: r.kind, ..self }),
    {
        ContactBuilder { kind: Some(kind.to_owned()), ..self }
    }

    pub fn full_name(self, full_name: &str) -> (r: Self)
        ensures
            holds(r.full_name, full_name),
            r == (ContactBuilder { full_name: r.full_name, ..self }),
    {
        ContactBuilder { full_name: Some(full_name.to_owned()), ..self }
    }

    pub fn name_parts(self, name_parts: NameParts) -> (r: Self)
        ensures
            r == (ContactBuilder { name_parts: Some(name_parts), ..self }),
    {
        ContactBuilder { name_parts: Some(name_parts), ..self }
    }

    pub fn langs(self, langs: Vec<Lang>) -> (r: Self)
        ensures
            r == (ContactBuilder { langs, ..self }),
    {
        ContactBuilder { langs, ..self }
    }

    pub fn nick_names(self, nick_names: Vec<String>) -> (r: Self)
        ensures
            r == (ContactBuilder { nick_names, ..self }),
    {
        ContactBuilder { nick_names, ..self }
    }

    pub fn titles(self, titles: Vec<String>) -> (r: Self)
        ensures
            r == (ContactBuilder { titles, ..self }),
    {
        ContactBuilder { titles, ..self }
    }

    pub fn roles(self, roles: Vec<String>) -> (r: Self)
        ensures
            r == (ContactBuilder { roles, ..self }),
    {
        ContactBuilder { roles, ..self }
    }

    pub fn organization_names(self, organization_names: Vec<String>) -> (r: Self)
        ensures
            r == (ContactBuilder { organization_names, ..self }),
    {
        ContactBuilder { organization_names, ..self }
    }

    pub fn postal_addresses(self, postal_addresses: Vec<PostalAddress>) -> (r: Self)
        ensures
            r == (ContactBuilder { postal_addresses, ..self }),
    {
        ContactBuilder { postal_addresses, ..self }
    }

    pub fn emails(self, emails: Vec<Email>) -> (r: Self)
        ensures
            r == (ContactBuilder { emails, ..self }),
    {
        ContactBuilder { emails, ..self }
    }

    pub fn phones(self, phones: Vec<Phone>) -> (r: Self)
        ensures
            r == (ContactBuilder { phones, ..self }),
    {
        ContactBuilder { phones, ..self }
    }

    pub fn contact_uris(self, contact_uris: Vec<String>) -> (r: Self)
        ensures
            r == (ContactBuilder { contact_uris, ..self }),
    {
        ContactBuilder { contact_uris, ..self }
    }

    pub fn urls(self, urls: Vec<String>) -> (r: Self)
        ensures
            r == (ContactBuilder { urls, ..self }),
    {
        ContactBuilder { urls, ..self }
    }

    /// One more language.
    pub fn lang(self, lang: Lang) -> (r: Self)
        ensures
            r.langs@ == self.langs@.push(lang),
            r == (ContactBuilder { langs: r.langs, ..self }),
    {
        let ContactBuilder {
            langs,
            kind,
            full_name,
            name_parts,
            nick_names,
            titles,
            roles,
            organization_names,
            postal_addresses,
            emails,
            phones,
            contact_uris,
            urls,
        } = self;
        ContactBuilder {
            langs: with_item(langs, lang),
            kind,
            full_name,
            name_parts,
            nick_names,
            titles,
            roles,
            organization_names,
            postal_addresses,
            emails,
            phones,
            contact_uris,
            urls,
        }
    }

    /// One more postal address.
    pub fn postal_address(self, postal_address: PostalAddress) -> (r: Self)
        ensures
            r.postal_addresses@ == self.postal_addresses@.push(postal_address),
            r == (ContactBuilder { postal_addresses: r.postal_addresses, ..self }),
    {
        let ContactBuilder {
            langs,
            kind,
            full_name,
            name_parts,
            nick_names,
            titles,
            roles,
            organization_names,
            postal_addresses,
            emails,
            phones,
            contact_uris,
            urls,
        } = self;
        ContactBuilder {
            langs,
            kind,
            full_name,
            name_parts,
            nick_names,
            titles,
            roles,
            organization_names,
            postal_addresses: with_item(postal_addresses, postal_address),
            emails,
            phones,
            contact_uris,
            urls,
        }
    }

    /// One more email address.
    pub fn email(self, email: Email) -> (r: Self)
        ensures
            r.emails@ == self.emails@.push(email),
            r == (ContactBuilder { emails: r.emails, ..self }),
    {
        let ContactBuilder {
            langs,
            kind,
            full_name,
            name_parts,
            nick_names,
            titles,
            roles,
            organization_names,
            postal_addresses,
            emails,
            phones,
            contact_uris,
            urls,
        } = self;
        ContactBuilder {
            langs,
            kind,
            full_name,
            name_parts,
            nick_names,
            titles,
            roles,
            organization_names,
            postal_addresses,
            emails: with_item(emails, email),
            phones,
            contact_uris,
            urls,
        }
    }

    /// One more phone number.
    pub fn phone(self, phone: Phone) -> (r: Self)
        ensures
            r.phones@ == self.phones@.push(phone),
            r == (ContactBuilder { phones: r.phones, ..self }),
    {
        let ContactBuilder {
            langs,
            kind,
            full_name,
            name_parts,
            nick_names,
            titles,
            roles,
            organization_names,
            postal_addresses,
            emails,
            phones,
            contact_uris,
            urls,
        } = self;
        ContactBuilder {
            langs,
            kind,
            full_name,
            name_parts,
            nick_names,
            titles,
            roles,
            organization_names,
            postal_addresses,
            emails,
            phones: with_item(phones, phone),
            contact_uris,
            urls,
        }
    }

    pub fn build(self) -> (r: Contact)
        ensures
            r.langs == opt_vec(self.langs),
            r.kind == self.kind,
            r.full_name == self.full_name,
            r.name_parts == self.name_parts,
            r.nick_names == opt_vec(self.nick_names),
            r.titles == opt_vec(self.titles),
            r.roles == opt_vec(self.roles),
            r.organization_names == opt_vec(self.organization_names),
            r.postal_addresses == opt_vec(self.postal_addresses),
            r.emails == opt_vec(self.emails),
            r.phones == opt_vec(self.phones),
            r.contact_uris == opt_vec(self.contact_uris),
            r.urls == opt_vec(self.urls),
    {
        Contact::new(
            self.langs,
            self.kind,
            self.full_name,
            self.name_parts,
            self.nick_names,
            self.titles,
            self.roles,
            self.organization_names,
            self.postal_addresses,
            self.emails,
            self.phones,
            self.contact_uris,
            self.urls,
        )
    }
}

} // verus!
