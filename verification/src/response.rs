//! The RDAP response objects of RFC 9083.
//!
//! Every object carries the same envelope, [`Common`]; a response is one of
//! ten kinds, [`RdapResponse`].

use crate::json::Json;
use crate::lenient::{Boolish, Numberish, VectorStringish};
use vstd::prelude::*;

verus! {

/// A link to a related resource.
#[derive(Debug, Clone, PartialEq, Eq)]
pub struct Link {
    /// The context of the link, most often the URL of the object that holds it.
    pub value: Option<String>,
    /// The relation, such as `self` or `related`.
    pub rel: Option<String>,
    /// The target.
    pub href: Option<String>,
    /// The media type of the target.
    pub media_type: Option<String>,
    /// A title for the target.
    pub title: Option<String>,
    /// Members that this model does not know, kept as they came.
    pub unknown_keys: Vec<(String, Json)>,
}

/// A notice or remark: a title and lines of text.
#[derive(Debug, Clone, PartialEq, Eq)]
pub struct Notice {
    pub title: Option<String>,
    pub description: Option<VectorStringish>,
    pub links: Option<Vec<Link>>,
    pub unknown_keys: Vec<(String, Json)>,
}

/// Something that happened to an object, and when.
#[derive(Debug, Clone, PartialEq, Eq)]
pub struct Event {
    pub event_action: Option<String>,
    pub event_actor: Option<String>,
    pub event_date: Option<String>,
    pub unknown_keys: Vec<(String, Json)>,
}

/// An identifier of an entity in some public registry.
#[derive(Debug, Clone, PartialEq, Eq)]
pub struct PublicId {
    pub id_type: Option<String>,
    pub identifier: Option<String>,
    pub unknown_keys: Vec<(String, Json)>,
}

/// Another object that an object refers to, by its handle.
#[derive(Debug, Clone, PartialEq, Eq)]
pub struct ObjectRef {
    pub handle: Option<String>,
    /// What else the reference came with, kept as it came.
    pub unknown_keys: Vec<(String, Json)>,
}

/// The envelope that every response object carries.
#[derive(Debug, Clone, PartialEq, Eq)]
pub struct Common {
    /// One of `domain`, `nameserver`, `entity`, `autnum`, `ip network`.
    pub object_class_name: Option<String>,
    /// The extension identifiers that the server claims, in order.
    pub rdap_conformance: Option<Vec<String>>,
    pub notices: Option<Vec<Notice>>,
    pub links: Option<Vec<Link>>,
    pub events: Option<Vec<Event>>,
    pub status: Option<VectorStringish>,
    pub port_43: Option<String>,
    pub lang: Option<String>,
    /// Members that this model does not know, kept as they came.
    pub unknown_keys: Vec<(String, Json)>,
}

/// The DNSSEC state of a domain.
#[derive(Debug, Clone, PartialEq, Eq)]
pub struct SecureDns {
    pub zone_signed: Option<Boolish>,
    pub delegation_signed: Option<Boolish>,
    pub max_sig_life: Option<Numberish<u64>>,
    pub unknown_keys: Vec<(String, Json)>,
}

/// The addresses of a name server.
#[derive(Debug, Clone, PartialEq, Eq)]
pub struct IpAddresses {
    pub v4: Option<VectorStringish>,
    pub v6: Option<VectorStringish>,
    pub unknown_keys: Vec<(String, Json)>,
}

/// One block of a network in CIDR notation: the prefix of one of the two
/// families, and its length.
#[derive(Debug, Clone, PartialEq, Eq)]
pub struct Cidr0Cidr {
    pub v4prefix: Option<String>,
    pub v6prefix: Option<String>,
    pub length: Option<Numberish<u8>>,
    pub unknown_keys: Vec<(String, Json)>,
}

/// A person, an organisation or a role.
#[derive(Debug, Clone, PartialEq, Eq)]
pub struct Entity {
    pub common: Common,
    pub handle: Option<String>,
    pub roles: Option<VectorStringish>,
    pub public_ids: Option<Vec<PublicId>>,
    /// The jCard of the entity: `["vcard", [property, ...]]`.
    pub vcard_array: Option<Vec<Json>>,
    /// The entities that stand in some role to this object, by handle.
    pub entities: Option<Vec<ObjectRef>>,
}

/// A name server.
#[derive(Debug, Clone, PartialEq, Eq)]
pub struct Nameserver {
    pub common: Common,
    pub ldh_name: Option<String>,
    pub unicode_name: Option<String>,
    pub ip_addresses: Option<IpAddresses>,
    /// The entities that stand in some role to this object, by handle.
    pub entities: Option<Vec<ObjectRef>>,
}

/// A range of autonomous system numbers, both ends included.
#[derive(Debug, Clone, PartialEq, Eq)]
pub struct Autnum {
    pub common: Common,
    pub start_autnum: Option<Numberish<u32>>,
    pub end_autnum: Option<Numberish<u32>>,
    /// The entities that stand in some role to this object, by handle.
    pub entities: Option<Vec<ObjectRef>>,
}

/// A range of IP addresses, both ends included.
#[derive(Debug, Clone, PartialEq, Eq)]
pub struct Network {
    pub common: Common,
    pub start_address: Option<String>,
    pub end_address: Option<String>,
    /// `v4` or `v6`.
    pub ip_version: Option<String>,
    pub cidr0_cidrs: Option<Vec<Cidr0Cidr>>,
    /// The entities that stand in some role to this object, by handle.
    pub entities: Option<Vec<ObjectRef>>,
}

/// A domain name.
#[derive(Debug, Clone, PartialEq, Eq)]
pub struct Domain {
    pub common: Common,
    pub ldh_name: Option<String>,
    pub unicode_name: Option<String>,
    pub nameservers: Option<Vec<Nameserver>>,
    pub secure_dns: Option<SecureDns>,
    /// The entities that stand in some role to this object, by handle.
    pub entities: Option<Vec<ObjectRef>>,
    /// The network that the domain belongs to, for a reverse domain.
    pub network: Option<ObjectRef>,
}

/// The domains that a search found.
#[derive(Debug, Clone, PartialEq, Eq)]
pub struct DomainSearchResults {
    pub common: Common,
    pub results: Vec<Domain>,
}

/// The entities that a search found.
#[derive(Debug, Clone, PartialEq, Eq)]
pub struct EntitySearchResults {
    pub common: Common,
    pub results: Vec<Entity>,
}

/// The name servers that a search found.
#[derive(Debug, Clone, PartialEq, Eq)]
pub struct NameserverSearchResults {
    pub common: Common,
    pub results: Vec<Nameserver>,
}

/// An error, or a redirect, in the shape of RFC 9083.
#[derive(Debug, Clone, PartialEq, Eq)]
pub struct Rfc9083Error {
    pub common: Common,
    /// The HTTP status code.
    pub error_code: u16,
    pub title: Option<String>,
    pub description: Option<Vec<String>>,
}

/// The help that a server offers.
#[derive(Debug, Clone, PartialEq, Eq)]
pub struct Help {
    pub common: Common,
}

/// An RDAP response.
#[derive(Debug, Clone, PartialEq, Eq)]
pub enum RdapResponse {
    Entity(Entity),
    Domain(Domain),
    Nameserver(Nameserver),
    Autnum(Autnum),
    Network(Network),
    DomainSearchResults(DomainSearchResults),
    EntitySearchResults(EntitySearchResults),
    NameserverSearchResults(NameserverSearchResults),
    ErrorResponse(Rfc9083Error),
    Help(Help),
}

/// The first target among `links`, if any of them has one.
pub open spec fn first_href(links: Seq<Link>) -> Option<String>
    decreases links.len(),
{
    if links.len() == 0 {
        None
    } else if links[0].href is Some {
        links[0].href
    } else {
        first_href(links.drop_first())
    }
}

/// The first target among the links of `notices`, if any.
pub open spec fn first_notice_href(notices: Seq<Notice>) -> Option<String>
    decreases notices.len(),
{
    if notices.len() == 0 {
        None
    } else {
        let here = match notices[0].links {
            Some(links) => first_href(links@),
            None => None,
        };
        if here is Some {
            here
        } else {
            first_notice_href(notices.drop_first())
        }
    }
}

impl Common {
    /// An envelope with nothing in it.
    pub fn empty() -> (r: Self)
        ensures
            r.object_class_name is None,
            r.rdap_conformance is None,
            r.notices is None,
            r.links is None,
            r.events is None,
            r.status is None,
            r.port_43 is None,
            r.lang is None,
            r.unknown_keys@.len() == 0,
    {
        Common {
            object_class_name: None,
            rdap_conformance: None,
            notices: None,
            links: None,
            events: None,
            status: None,
            port_43: None,
            lang: None,
            unknown_keys: Vec::new(),
        }
    }
}

impl Rfc9083Error {
    /// Whether the status code is one of redirection, 300 to 399.
    pub open spec fn spec_is_redirect(&self) -> bool {
        300 <= self.error_code < 400
    }

    /// Where a redirect leads: the first link target in its notices. `None`
    /// for an error that is no redirect or names no target.
    pub open spec fn spec_redirect_url(&self) -> Option<String> {
        if self.spec_is_redirect() {
            match self.common.notices {
                Some(notices) => first_notice_href(notices@),
                None => None,
            }
        } else {
            None
        }
    }

    /// Whether the error is made as [`Rfc9083Error::redirect`] makes it for
    /// `url`: with the status 307 and its title, and with one notice of one
    /// link, which leads to `url` with the relation `related`.
    pub open spec fn is_redirect_to(&self, url: Seq<char>) -> bool {
        &&& self.error_code == 307
        &&& self.title matches Some(t) && t@ == "Temporary Redirect"@
        &&& self.description is None
        &&& self.common.notices matches Some(notices) && notices@.len() == 1 && {
            let notice = notices@[0];
            &&& notice.title is None
            &&& notice.description is None
            &&& notice.unknown_keys@.len() == 0
            &&& notice.links matches Some(links) && links@.len() == 1 && {
                let link = links@[0];
                &&& link.href matches Some(h) && h@ == url
                &&& link.value matches Some(v) && v@ == url
                &&& link.rel matches Some(r) && r@ == "related"@
                &&& link.media_type matches Some(m) && m@ == "application/rdap+json"@
                &&& link.title is None
                &&& link.unknown_keys@.len() == 0
            }
        }
        &&& self.common.object_class_name is None
        &&& self.common.rdap_conformance is None
        &&& self.common.links is None
        &&& self.common.events is None
        &&& self.common.status is None
        &&& self.common.port_43 is None
        &&& self.common.lang is None
        &&& self.common.unknown_keys@.len() == 0
    }

    /// A temporary redirect, status 307, to `url`.
    pub fn redirect(url: String) -> (r: Self)
        ensures
            r.is_redirect_to(url@),
            r.spec_redirect_url() matches Some(u) && u@ == url@,
    {
        let link = Link {
            value: Some(url.clone()),
            rel: Some("related".to_owned()),
            href: Some(url),
            media_type: Some("application/rdap+json".to_owned()),
            title: None,
            unknown_keys: Vec::new(),
        };
        let links: Vec<Link> = vec![link];
        let notice = Notice {
            title: None,
            description: None,
            links: Some(links),
            unknown_keys: Vec::new(),
        };
        let notices: Vec<Notice> = vec![notice];
        let mut common = Common::empty();
        common.notices = Some(notices);
        let r = Rfc9083Error {
            common,
            error_code: 307,
            title: Some("Temporary Redirect".to_owned()),
            description: None,
        };
        assert(first_href(links@) == links@[0].href);
        assert(first_notice_href(notices@) == first_href(links@));
        r
    }

    /// A plain error with the status `error_code`.
    pub fn error(error_code: u16) -> (r: Self)
        ensures
            r.error_code == error_code,
            r.common.notices is None,
            r.title is None,
            r.description is None,
    {
        Rfc9083Error { common: Common::empty(), error_code, title: None, description: None }
    }

    /// Whether the status code is one of redirection, 300 to 399.
    #[verifier::when_used_as_spec(spec_is_redirect)]
    pub fn is_redirect(&self) -> (r: bool)
        ensures
            r == self.spec_is_redirect(),
    {
        300 <= self.error_code && self.error_code < 400
    }

    /// Where a redirect leads, if it is one and names a target.
    #[verifier::when_used_as_spec(spec_redirect_url_ref)]
    #[verifier::loop_isolation(false)]
    pub fn redirect_url(&self) -> (r: Option<&String>)
        ensures
            r is Some <==> self.spec_redirect_url() is Some,
            r matches Some(u) ==> Some(*u) == self.spec_redirect_url(),
    {
        if !self.is_redirect() {
            return None;
        }
        match &self.common.notices {
            None => None,
            Some(notices) => {
                let mut i: usize = 0;
                assert(notices@.skip(0) =~= notices@);
                while i < notices.len()
                    invariant
                        i <= notices.len(),
                        first_notice_href(notices@) == first_notice_href(notices@.skip(i as int)),
                    decreases notices.len() - i,
                {
                    let ghost rest = notices@.skip(i as int);
                    assert(rest[0] == notices@[i as int]);
                    assert(rest.drop_first() =~= notices@.skip(i as int + 1));
                    if let Some(links) = &notices[i].links {
                        let mut k: usize = 0;
                        assert(links@.skip(0) =~= links@);
                        while k < links.len()
                            invariant
                                k <= links.len(),
                                first_href(links@) == first_href(links@.skip(k as int)),
                            decreases links.len() - k,
                        {
                            let ghost tail = links@.skip(k as int);
                            assert(tail[0] == links@[k as int]);
                            assert(tail.drop_first() =~= links@.skip(k as int + 1));
                            if let Some(href) = &links[k].href {
                                return Some(href);
                            }
                            k += 1;
                        }
                        assert(links@.skip(links@.len() as int).len() == 0);
                    }
                    i += 1;
                }
                assert(notices@.skip(notices@.len() as int).len() == 0);
                None
            },
        }
    }

    /// Where a redirect leads, by reference.
    pub open spec fn spec_redirect_url_ref(&self) -> Option<&String> {
        match self.spec_redirect_url() {
            Some(u) => Some(&u),
            None => None,
        }
    }
}

impl RdapResponse {
    /// Whether the response is an error whose status code is one of
    /// redirection.
    pub open spec fn spec_is_redirect(&self) -> bool {
        match self {
            RdapResponse::ErrorResponse(e) => e.spec_is_redirect(),
            _ => false,
        }
    }

    /// Whether the response is a redirect.
    #[verifier::when_used_as_spec(spec_is_redirect)]
    pub fn is_redirect(&self) -> (r: bool)
        ensures
            r == self.spec_is_redirect(),
    {
        match self {
            RdapResponse::ErrorResponse(e) => e.is_redirect(),
            _ => false,
        }
    }
}

} // verus!
