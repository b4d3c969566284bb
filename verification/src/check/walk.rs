//! The conformance checker: it walks a response and records what it finds.
//!
//! The findings on each structure are a fixed list of conditions, each with
//! its finding, taken in order; a finding is recorded exactly when its
//! condition holds.

use crate::check::{
    any_blank, is_ldh_domain_name, is_ldh_domain_text, is_whitespace_or_empty, Check, CheckItem,
    CheckParams, Checks, RdapStructure, StringListCheck,
};
use crate::ip::{ip_of_text, parse_ip, IpAddr};
use crate::lenient::{Boolish, Numberish, VectorStringish};
use crate::response::{
    Autnum, Cidr0Cidr, Common, Domain, DomainSearchResults, Entity, EntitySearchResults, Help,
    IpAddresses, Link, Nameserver, NameserverSearchResults, Network, Notice, RdapResponse,
    Rfc9083Error, SecureDns,
};
use crate::text::{all_white_space, text_eq};
use vstd::prelude::*;

verus! {

/// The finding `check` if `condition` holds, else nothing.
pub open spec fn when(condition: bool, check: Check) -> Seq<CheckItem> {
    if condition {
        seq![CheckItem { check_class: check.spec_class(), check }]
    } else {
        Seq::empty()
    }
}

/// Records `check` if `condition` holds.
fn record(items: &mut Vec<CheckItem>, condition: bool, check: Check)
    ensures
        final(items)@ == old(items)@ + when(condition, check),
{
    if condition {
        items.push(check.check_item());
        assert(items@ =~= old(items)@ + when(condition, check));
    } else {
        assert(items@ =~= old(items)@ + when(condition, check));
    }
}

/// Whether one of the links has the relation `self`.
pub open spec fn has_self_link(links: Option<Vec<Link>>) -> bool {
    links matches Some(l) && exists|i: int| 0 <= i < l@.len() && is_self_link(#[trigger] l@[i])
}

/// Whether the link has the relation `self`.
pub open spec fn is_self_link(link: Link) -> bool {
    match link.rel {
        Some(r) => r@ == "self"@,
        None => false,
    }
}

/// Whether the description of one of the notices came as a single string.
pub open spec fn has_string_description(notices: Option<Vec<Notice>>) -> bool {
    notices matches Some(n) && exists|i: int|
        0 <= i < n@.len() && is_string_list((#[trigger] n@[i]).description)
}

/// The extensions that are registered with IANA and known here.
pub open spec fn is_registered_extension(id: Seq<char>) -> bool {
    ||| id == "rdap_level_0"@
    ||| id == "cidr0"@
    ||| id == "redacted"@
    ||| id == "rdap_objectTag"@
    ||| id == "arin_originas0"@
    ||| id == "nro_rdap_profile_0"@
    ||| id == "icann_rdap_response_profile_0"@
    ||| id == "icann_rdap_technical_implementation_guide_0"@
}

/// Whether the list names an extension that is not registered.
pub open spec fn has_unknown_extension(conformance: Option<Vec<String>>) -> bool {
    conformance matches Some(c) && exists|i: int|
        0 <= i < c@.len() && !is_registered_extension((#[trigger] c@[i])@)
}

/// Whether the list is present and does not name `rdap_level_0`.
pub open spec fn lacks_level_0(conformance: Option<Vec<String>>) -> bool {
    conformance matches Some(c) && forall|i: int|
        0 <= i < c@.len() ==> (#[trigger] c@[i])@ != "rdap_level_0"@
}

/// The findings on the envelope of an object.
pub open spec fn common_findings(c: Common) -> Seq<CheckItem> {
    when(c.events is None, Check::EventsMissing) + when(c.status is None, Check::StatusMissing)
        + when(c.status matches Some(s) && s@.is_string, Check::StatusIsString) + when(
        c.status matches Some(s) && any_blank(s@.items),
        Check::StatusIsEmpty,
    ) + when(has_string_description(c.notices), Check::NoticeDescriptionIsString) + when(
        !has_self_link(c.links),
        Check::SelfLinkMissing,
    )
}

/// The findings on the envelope that are made at the top of a response only,
/// and the one that is made everywhere else.
pub open spec fn place_findings(c: Common, at_top: bool, allow_unreg_ext: bool) -> Seq<CheckItem> {
    if at_top {
        when(c.rdap_conformance is None, Check::RdapConformanceMissing) + when(
            lacks_level_0(c.rdap_conformance),
            Check::RdapLevel0Missing,
        ) + when(
            !allow_unreg_ext && has_unknown_extension(c.rdap_conformance),
            Check::UnknownExtension,
        ) + when(c.notices is None, Check::NoticesMissing)
    } else {
        when(c.rdap_conformance is Some, Check::RdapConformanceInvalidParent)
    }
}

#[verifier::loop_isolation(false)]
fn self_link_in(links: &Option<Vec<Link>>) -> (r: bool)
    ensures
        r == has_self_link(*links),
{
    match links {
        None => false,
        Some(l) => {
            let mut i: usize = 0;
            while i < l.len()
                invariant
                    i <= l.len(),
                    forall|k: int| 0 <= k < i ==> !is_self_link(#[trigger] l@[k]),
                decreases l.len() - i,
            {
                if let Some(rel) = &l[i].rel {
                    if text_eq(rel.as_str(), "self") {
                        assert(is_self_link(l@[i as int]));
                        return true;
                    }
                }
                i += 1;
            }
            false
        },
    }
}

#[verifier::loop_isolation(false)]
fn string_description_in(notices: &Option<Vec<Notice>>) -> (r: bool)
    ensures
        r == has_string_description(*notices),
{
    match notices {
        None => false,
        Some(n) => {
            let mut i: usize = 0;
            while i < n.len()
                invariant
                    i <= n.len(),
                    forall|k: int| 0 <= k < i ==> !is_string_list((#[trigger] n@[k]).description),
                decreases n.len() - i,
            {
                if let Some(d) = &n[i].description {
                    if d.is_string() {
                        assert(is_string_list(n@[i as int].description));
                        return true;
                    }
                }
                i += 1;
            }
            false
        },
    }
}

fn is_registered(id: &str) -> (r: bool)
    ensures
        r == is_registered_extension(id@),
{
    text_eq(id, "rdap_level_0") || text_eq(id, "cidr0") || text_eq(id, "redacted") || text_eq(
        id,
        "rdap_objectTag",
    ) || text_eq(id, "arin_originas0") || text_eq(id, "nro_rdap_profile_0") || text_eq(
        id,
        "icann_rdap_response_profile_0",
    ) || text_eq(id, "icann_rdap_technical_implementation_guide_0")
}

#[verifier::loop_isolation(false)]
fn unknown_extension_in(conformance: &Option<Vec<String>>) -> (r: bool)
    ensures
        r == has_unknown_extension(*conformance),
{
    match conformance {
        None => false,
        Some(c) => {
            let mut i: usize = 0;
            while i < c.len()
                invariant
                    i <= c.len(),
                    forall|k: int| 0 <= k < i ==> is_registered_extension((#[trigger] c@[k])@),
                decreases c.len() - i,
            {
                if !is_registered(c[i].as_str()) {
                    assert(!is_registered_extension(c@[i as int]@));
                    return true;
                }
                i += 1;
            }
            false
        },
    }
}

#[verifier::loop_isolation(false)]
fn level_0_lacking_in(conformance: &Option<Vec<String>>) -> (r: bool)
    ensures
        r == lacks_level_0(*conformance),
{
    match conformance {
        None => false,
        Some(c) => {
            let mut i: usize = 0;
            while i < c.len()
                invariant
                    i <= c.len(),
                    forall|k: int| 0 <= k < i ==> (#[trigger] c@[k])@ != "rdap_level_0"@,
                decreases c.len() - i,
            {
                if text_eq(c[i].as_str(), "rdap_level_0") {
                    assert(c@[i as int]@ == "rdap_level_0"@);
                    return false;
                }
                i += 1;
            }
            true
        },
    }
}

/// Records the findings on the envelope of an object.
fn check_common(items: &mut Vec<CheckItem>, c: &Common)
    ensures
        final(items)@ == old(items)@ + common_findings(*c),
{
    let ghost start = items@;
    record(items, c.events.is_none(), Check::EventsMissing);
    record(items, c.status.is_none(), Check::StatusMissing);
    let (is_string, is_empty) = match &c.status {
        Some(s) => (s.is_string(), s.is_empty_or_any_empty_or_whitespace()),
        None => (false, false),
    };
    record(items, is_string, Check::StatusIsString);
    record(items, is_empty, Check::StatusIsEmpty);
    record(items, string_description_in(&c.notices), Check::NoticeDescriptionIsString);
    record(items, !self_link_in(&c.links), Check::SelfLinkMissing);
    assert(items@ =~= start + common_findings(*c));
}

/// Records the findings that depend on where the envelope stands.
fn check_place(items: &mut Vec<CheckItem>, c: &Common, at_top: bool, allow_unreg_ext: bool)
    ensures
        final(items)@ == old(items)@ + place_findings(*c, at_top, allow_unreg_ext),
{
    let ghost start = items@;
    if at_top {
        record(items, c.rdap_conformance.is_none(), Check::RdapConformanceMissing);
        record(items, level_0_lacking_in(&c.rdap_conformance), Check::RdapLevel0Missing);
        record(
            items,
            !allow_unreg_ext && unknown_extension_in(&c.rdap_conformance),
            Check::UnknownExtension,
        );
        record(items, c.notices.is_none(), Check::NoticesMissing);
    } else {
        record(items, c.rdap_conformance.is_some(), Check::RdapConformanceInvalidParent);
    }
    assert(items@ =~= start + place_findings(*c, at_top, allow_unreg_ext));
}

/// Whether a name is present and is no LDH domain name.
pub open spec fn is_bad_ldh(name: Option<String>) -> bool {
    name matches Some(n) && !is_ldh_domain_text(n@)
}

fn bad_ldh(name: &Option<String>) -> (r: bool)
    ensures
        r == is_bad_ldh(*name),
{
    match name {
        Some(n) => !is_ldh_domain_name(n.as_str()),
        None => false,
    }
}

/// Whether a boolean is present and came as a string.
pub open spec fn is_string_bool(b: Option<Boolish>) -> bool {
    b matches Some(v) && v@ is Text
}

/// Whether a number is present and came as a string.
pub open spec fn is_string_number<T>(n: Option<Numberish<T>>) -> bool {
    n matches Some(v) && v@ is Text
}

/// Whether a list is present and came as a single string.
pub open spec fn is_string_list(l: Option<VectorStringish>) -> bool {
    l matches Some(v) && v@.is_string
}

fn string_bool(b: &Option<Boolish>) -> (r: bool)
    ensures
        r == is_string_bool(*b),
{
    match b {
        Some(v) => v.is_string(),
        None => false,
    }
}

fn string_number<T>(n: &Option<Numberish<T>>) -> (r: bool)
    ensures
        r == is_string_number(*n),
{
    match n {
        Some(v) => v.is_string(),
        None => false,
    }
}

fn string_list(l: &Option<VectorStringish>) -> (r: bool)
    ensures
        r == is_string_list(*l),
{
    match l {
        Some(v) => v.is_string(),
        None => false,
    }
}

/// The findings on the DNSSEC state of a domain.
pub open spec fn secure_dns_findings(s: Option<SecureDns>) -> Seq<CheckItem> {
    match s {
        Some(s) => when(is_string_bool(s.zone_signed), Check::ZoneSignedIsString) + when(
            is_string_bool(s.delegation_signed),
            Check::DelegationSignedIsString,
        ) + when(is_string_number(s.max_sig_life), Check::MaxSigLifeIsString),
        None => Seq::empty(),
    }
}

/// The findings on a domain itself.
pub open spec fn domain_findings(d: Domain) -> Seq<CheckItem> {
    when(is_bad_ldh(d.ldh_name), Check::LdhNameInvalid) + secure_dns_findings(d.secure_dns)
}

/// Whether an address list of a name server came as a single string.
pub open spec fn has_string_addresses(a: Option<IpAddresses>) -> bool {
    a matches Some(a) && (is_string_list(a.v4) || is_string_list(a.v6))
}

/// The findings on a name server.
pub open spec fn nameserver_findings(n: Nameserver) -> Seq<CheckItem> {
    when(is_bad_ldh(n.ldh_name), Check::LdhNameInvalid) + when(
        has_string_addresses(n.ip_addresses),
        Check::IpAddressListIsString,
    )
}

/// The findings on an entity.
pub open spec fn entity_findings(e: Entity) -> Seq<CheckItem> {
    when(e.handle is None, Check::HandleMissing) + when(
        e.handle matches Some(h) && all_white_space(h@),
        Check::HandleIsEmpty,
    ) + when(is_string_list(e.roles), Check::RolesIsString) + when(
        e.roles matches Some(r) && any_blank(r@.items),
        Check::RolesIsEmpty,
    )
}

/// Whether both ends of the range read as numbers below 2^32 and the start is
/// the greater.
pub open spec fn is_inverted_autnum(a: Autnum) -> bool {
    a.start_autnum matches Some(s) && a.end_autnum matches Some(e) && s@.value_up_to(
        u32::MAX as u64,
    ) matches Some(x) && e@.value_up_to(u32::MAX as u64) matches Some(y) && x > y
}

/// The findings on a range of AS numbers.
pub open spec fn autnum_findings(a: Autnum) -> Seq<CheckItem> {
    when(is_string_number(a.start_autnum), Check::StartAutnumIsString) + when(
        is_string_number(a.end_autnum),
        Check::EndAutnumIsString,
    ) + when(
        is_inverted_autnum(a),
        Check::AutnumRangeInverted,
    )
}

/// Whether both ends of the range read as addresses of one family and the
/// start is the greater.
pub open spec fn is_inverted_network(n: Network) -> bool {
    n.start_address matches Some(s) && n.end_address matches Some(e) && ip_of_text(s@) matches Some(
        x,
    ) && ip_of_text(e@) matches Some(y) && x.same_family(y) && x.value() > y.value()
}

/// Whether a block is not made of the prefix of one family, which is an
/// address of that family, and of a length that fits the family.
pub open spec fn is_malformed_cidr(c: Cidr0Cidr) -> bool {
    if c.v6prefix is None {
        !(is_prefix_of_family(c.v4prefix, true) && is_length_up_to(c.length, 32))
    } else if c.v4prefix is None {
        !(is_prefix_of_family(c.v6prefix, false) && is_length_up_to(c.length, 128))
    } else {
        true
    }
}

/// Whether the prefix is present and is an address of the family asked for.
pub open spec fn is_prefix_of_family(prefix: Option<String>, v4: bool) -> bool {
    match prefix {
        Some(p) => match ip_of_text(p@) {
            Some(a) => (a is V4) == v4,
            None => false,
        },
        None => false,
    }
}

/// Whether the length is present and reads as a number of at most `max`.
pub open spec fn is_length_up_to(length: Option<Numberish<u8>>, max: u64) -> bool {
    match length {
        Some(l) => l@.value_up_to(max) is Some,
        None => false,
    }
}

/// The length of a block.
pub open spec fn cidr_length(c: Cidr0Cidr) -> Option<Numberish<u8>> {
    c.length
}

/// Whether one of the blocks is malformed.
pub open spec fn has_malformed_cidr(cidrs: Option<Vec<Cidr0Cidr>>) -> bool {
    cidrs matches Some(c) && exists|i: int| 0 <= i < c@.len() && is_malformed_cidr(#[trigger] c@[i])
}

/// Whether the length of one of the blocks came as a string.
pub open spec fn has_string_length(cidrs: Option<Vec<Cidr0Cidr>>) -> bool {
    cidrs matches Some(c) && exists|i: int|
        0 <= i < c@.len() && is_string_number(cidr_length(#[trigger] c@[i]))
}

/// The findings on a network.
pub open spec fn network_findings(n: Network) -> Seq<CheckItem> {
    when(has_string_length(n.cidr0_cidrs), Check::Cidr0LengthIsString) + when(
        has_malformed_cidr(n.cidr0_cidrs),
        Check::Cidr0Malformed,
    ) + when(
        is_inverted_network(n),
        Check::NetworkRangeInverted,
    )
}

fn prefix_of_family(prefix: &Option<String>, v4: bool) -> (r: bool)
    ensures
        r == is_prefix_of_family(*prefix, v4),
{
    match prefix {
        Some(p) => match parse_ip(p.as_str()) {
            Some(IpAddr::V4(_)) => v4,
            Some(IpAddr::V6(_)) => !v4,
            None => false,
        },
        None => false,
    }
}

fn length_up_to(length: &Option<Numberish<u8>>, max: u8) -> (r: bool)
    ensures
        r == is_length_up_to(*length, max as u64),
{
    match length {
        Some(l) => match l.as_u8() {
            Some(n) => n <= max,
            None => false,
        },
        None => false,
    }
}

fn malformed_cidr(c: &Cidr0Cidr) -> (r: bool)
    ensures
        r == is_malformed_cidr(*c),
{
    if c.v6prefix.is_none() {
        !(prefix_of_family(&c.v4prefix, true) && length_up_to(&c.length, 32))
    } else if c.v4prefix.is_none() {
        !(prefix_of_family(&c.v6prefix, false) && length_up_to(&c.length, 128))
    } else {
        true
    }
}

fn cidr_findings(cidrs: &Option<Vec<Cidr0Cidr>>) -> (r: (bool, bool))
    ensures
        r.0 == has_string_length(*cidrs),
        r.1 == has_malformed_cidr(*cidrs),
{
    match cidrs {
        None => (false, false),
        Some(c) => {
            let mut string_length = false;
            let mut malformed = false;
            let mut i: usize = 0;
            while i < c.len()
                invariant
                    i <= c.len(),
                    string_length == (exists|k: int|
                        0 <= k < i && is_string_number(cidr_length(#[trigger] c@[k]))),
                    malformed == (exists|k: int| 0 <= k < i && is_malformed_cidr(#[trigger] c@[k])),
                decreases c.len() - i,
            {
                let is_string = string_number(&c[i].length);
                if is_string {
                    string_length = true;
                }
                if malformed_cidr(&c[i]) {
                    malformed = true;
                }
                i += 1;
            }
            (string_length, malformed)
        },
    }
}

fn inverted_autnum(a: &Autnum) -> (r: bool)
    ensures
        r == is_inverted_autnum(*a),
{
    match (&a.start_autnum, &a.end_autnum) {
        (Some(s), Some(e)) => match (s.as_u32(), e.as_u32()) {
            (Some(x), Some(y)) => x > y,
            _ => false,
        },
        _ => false,
    }
}

fn inverted_network(n: &Network) -> (r: bool)
    ensures
        r == is_inverted_network(*n),
{
    match (&n.start_address, &n.end_address) {
        (Some(s), Some(e)) => match (parse_ip(s.as_str()), parse_ip(e.as_str())) {
            (Some(IpAddr::V4(x)), Some(IpAddr::V4(y))) => x > y,
            (Some(IpAddr::V6(x)), Some(IpAddr::V6(y))) => x > y,
            _ => false,
        },
        _ => false,
    }
}

/// Whether the structure stands at the top of the response.
pub open spec fn at_top(params: CheckParams) -> bool {
    params.parent_type == RdapStructure::Response
}

/// The findings on an object: those of its place, those on its envelope and
/// those on the members of its own.
pub open spec fn object_findings(c: Common, params: CheckParams, own: Seq<CheckItem>) -> Seq<
    CheckItem,
> {
    place_findings(c, at_top(params), params.allow_unreg_ext) + common_findings(c) + own
}

/// Records the findings of the place and on the envelope of an object.
fn check_envelope(c: &Common, params: &CheckParams) -> (items: Vec<CheckItem>)
    ensures
        items@ == place_findings(*c, at_top(*params), params.allow_unreg_ext) + common_findings(*c),
{
    let mut items: Vec<CheckItem> = Vec::new();
    check_place(
        &mut items,
        c,
        params.parent_type == RdapStructure::Response,
        params.allow_unreg_ext,
    );
    assert(items@ =~= place_findings(*c, at_top(*params), params.allow_unreg_ext));
    check_common(&mut items, c);
    items
}

fn check_entity(items: &mut Vec<CheckItem>, e: &Entity)
    ensures
        final(items)@ == old(items)@ + entity_findings(*e),
{
    let ghost start = items@;
    record(items, e.handle.is_none(), Check::HandleMissing);
    let blank = match &e.handle {
        Some(h) => is_whitespace_or_empty(h.as_str()),
        None => false,
    };
    record(items, blank, Check::HandleIsEmpty);
    record(items, string_list(&e.roles), Check::RolesIsString);
    let empty = match &e.roles {
        Some(r) => r.is_empty_or_any_empty_or_whitespace(),
        None => false,
    };
    record(items, empty, Check::RolesIsEmpty);
    assert(items@ =~= start + entity_findings(*e));
}

fn check_nameserver(items: &mut Vec<CheckItem>, n: &Nameserver)
    ensures
        final(items)@ == old(items)@ + nameserver_findings(*n),
{
    let ghost start = items@;
    record(items, bad_ldh(&n.ldh_name), Check::LdhNameInvalid);
    let strings = match &n.ip_addresses {
        Some(a) => string_list(&a.v4) || string_list(&a.v6),
        None => false,
    };
    record(items, strings, Check::IpAddressListIsString);
    assert(items@ =~= start + nameserver_findings(*n));
}

fn check_autnum(items: &mut Vec<CheckItem>, a: &Autnum)
    ensures
        final(items)@ == old(items)@ + autnum_findings(*a),
{
    let ghost start = items@;
    record(items, string_number(&a.start_autnum), Check::StartAutnumIsString);
    record(items, string_number(&a.end_autnum), Check::EndAutnumIsString);
    record(items, inverted_autnum(a), Check::AutnumRangeInverted);
    assert(items@ =~= start + autnum_findings(*a));
}

fn check_network(items: &mut Vec<CheckItem>, n: &Network)
    ensures
        final(items)@ == old(items)@ + network_findings(*n),
{
    let ghost start = items@;
    let (string_length, malformed) = cidr_findings(&n.cidr0_cidrs);
    record(items, string_length, Check::Cidr0LengthIsString);
    record(items, malformed, Check::Cidr0Malformed);
    record(items, inverted_network(n), Check::NetworkRangeInverted);
    assert(items@ =~= start + network_findings(*n));
}

fn check_domain(items: &mut Vec<CheckItem>, d: &Domain)
    ensures
        final(items)@ == old(items)@ + domain_findings(*d),
{
    let ghost start = items@;
    record(items, bad_ldh(&d.ldh_name), Check::LdhNameInvalid);
    match &d.secure_dns {
        Some(s) => {
            record(items, string_bool(&s.zone_signed), Check::ZoneSignedIsString);
            record(items, string_bool(&s.delegation_signed), Check::DelegationSignedIsString);
            record(items, string_number(&s.max_sig_life), Check::MaxSigLifeIsString);
        },
        None => {},
    }
    assert(items@ =~= start + domain_findings(*d));
}

/// What checks a structure.
pub trait GetChecks {
    /// The structure that is checked.
    spec fn structure(&self) -> RdapStructure;

    /// The findings on the structure itself.
    spec fn findings(&self, params: CheckParams) -> Seq<CheckItem>;

    /// The findings on each of the structures within, where `params` asks for
    /// them.
    spec fn sub_findings(&self, params: CheckParams) -> Seq<Seq<CheckItem>>;

    /// The kind of the structures within.
    spec fn sub_structure(&self) -> RdapStructure;

    /// Checks the structure, and the structures within it if `params` asks
    /// for that. Those within are checked as such, one level deep.
    fn get_checks(&self, params: CheckParams) -> (r: Checks)
        ensures
            r.rdap_struct == self.structure(),
            r.items@ == self.findings(params),
            r.sub_checks@.len() == self.sub_findings(params).len(),
            forall|i: int|
                0 <= i < r.sub_checks@.len() ==> {
                    &&& (#[trigger] r.sub_checks@[i]).items@ == self.sub_findings(params)[i]
                    &&& r.sub_checks@[i].rdap_struct == self.sub_structure()
                    &&& r.sub_checks@[i].sub_checks@.len() == 0
                },
    ;

    /// Where the structures within are not asked for, there are no findings
    /// on them.
    proof fn lemma_shallow(&self, params: CheckParams)
        requires
            !params.do_subchecks,
        ensures
            self.sub_findings(params).len() == 0,
    ;
}

/// How a structure within `structure` is checked: as `params` says, but with
/// that structure as its parent and nothing within it.
pub open spec fn within(params: CheckParams, structure: RdapStructure) -> CheckParams {
    CheckParams { parent_type: structure, do_subchecks: false, ..params }
}

impl GetChecks for Entity {
    open spec fn sub_structure(&self) -> RdapStructure {
        self.structure()
    }

    proof fn lemma_shallow(&self, params: CheckParams) {
    }

    open spec fn structure(&self) -> RdapStructure {
        RdapStructure::Entity
    }

    open spec fn findings(&self, params: CheckParams) -> Seq<CheckItem> {
        object_findings(self.common, params, entity_findings(*self))
    }

    open spec fn sub_findings(&self, params: CheckParams) -> Seq<Seq<CheckItem>> {
        Seq::empty()
    }

    fn get_checks(&self, params: CheckParams) -> (r: Checks) {
        let mut items = check_envelope(&self.common, &params);
        check_entity(&mut items, self);
        Checks { rdap_struct: RdapStructure::Entity, items, sub_checks: Vec::new() }
    }
}

impl GetChecks for Nameserver {
    open spec fn sub_structure(&self) -> RdapStructure {
        self.structure()
    }

    proof fn lemma_shallow(&self, params: CheckParams) {
    }

    open spec fn structure(&self) -> RdapStructure {
        RdapStructure::Nameserver
    }

    open spec fn findings(&self, params: CheckParams) -> Seq<CheckItem> {
        object_findings(self.common, params, nameserver_findings(*self))
    }

    open spec fn sub_findings(&self, params: CheckParams) -> Seq<Seq<CheckItem>> {
        Seq::empty()
    }

    fn get_checks(&self, params: CheckParams) -> (r: Checks) {
        let mut items = check_envelope(&self.common, &params);
        check_nameserver(&mut items, self);
        Checks { rdap_struct: RdapStructure::Nameserver, items, sub_checks: Vec::new() }
    }
}

impl GetChecks for Autnum {
    open spec fn sub_structure(&self) -> RdapStructure {
        self.structure()
    }

    proof fn lemma_shallow(&self, params: CheckParams) {
    }

    open spec fn structure(&self) -> RdapStructure {
        RdapStructure::Autnum
    }

    open spec fn findings(&self, params: CheckParams) -> Seq<CheckItem> {
        object_findings(self.common, params, autnum_findings(*self))
    }

    open spec fn sub_findings(&self, params: CheckParams) -> Seq<Seq<CheckItem>> {
        Seq::empty()
    }

    fn get_checks(&self, params: CheckParams) -> (r: Checks) {
        let mut items = check_envelope(&self.common, &params);
        check_autnum(&mut items, self);
        Checks { rdap_struct: RdapStructure::Autnum, items, sub_checks: Vec::new() }
    }
}

impl GetChecks for Network {
    open spec fn sub_structure(&self) -> RdapStructure {
        self.structure()
    }

    proof fn lemma_shallow(&self, params: CheckParams) {
    }

    open spec fn structure(&self) -> RdapStructure {
        RdapStructure::Network
    }

    open spec fn findings(&self, params: CheckParams) -> Seq<CheckItem> {
        object_findings(self.common, params, network_findings(*self))
    }

    open spec fn sub_findings(&self, params: CheckParams) -> Seq<Seq<CheckItem>> {
        Seq::empty()
    }

    fn get_checks(&self, params: CheckParams) -> (r: Checks) {
        let mut items = check_envelope(&self.common, &params);
        check_network(&mut items, self);
        Checks { rdap_struct: RdapStructure::Network, items, sub_checks: Vec::new() }
    }
}

/// The findings on each of `list`, checked as structures within `structure`.
pub open spec fn each_within<T: GetChecks>(
    list: Seq<T>,
    params: CheckParams,
    structure: RdapStructure,
) -> Seq<Seq<CheckItem>> {
    if params.do_subchecks {
        Seq::new(list.len(), |i: int| list[i].findings(within(params, structure)))
    } else {
        Seq::empty()
    }
}

/// Checks each of `list` as a structure within `structure`, if `params` asks
/// for the structures within.
fn check_each<T: GetChecks>(list: &Vec<T>, params: &CheckParams, structure: RdapStructure) -> (r:
    Vec<Checks>)
    ensures
        r@.len() == each_within(list@, *params, structure).len(),
        forall|i: int|
            0 <= i < r@.len() ==> {
                &&& (#[trigger] r@[i]).items@ == each_within(list@, *params, structure)[i]
                &&& r@[i].rdap_struct == list@[i].structure()
                &&& r@[i].sub_checks@.len() == 0
            },
{
    let mut subs: Vec<Checks> = Vec::new();
    if !params.do_subchecks {
        return subs;
    }
    let inner = CheckParams {
        do_subchecks: false,
        root: params.root,
        parent_type: structure,
        allow_unreg_ext: params.allow_unreg_ext,
    };
    let mut i: usize = 0;
    while i < list.len()
        invariant
            i <= list.len(),
            inner == within(*params, structure),
            subs@.len() == i,
            forall|k: int|
                0 <= k < i ==> {
                    &&& (#[trigger] subs@[k]).items@ == list@[k].findings(inner)
                    &&& subs@[k].rdap_struct == list@[k].structure()
                    &&& subs@[k].sub_checks@.len() == 0
                },
        decreases list.len() - i,
    {
        proof {
            list@[i as int].lemma_shallow(inner);
        }
        let checks = list[i].get_checks(inner);
        subs.push(checks);
        i += 1;
    }
    subs
}

/// The name servers of a domain.
pub open spec fn nameservers_of(d: Domain) -> Seq<Nameserver> {
    match d.nameservers {
        Some(n) => n@,
        None => Seq::empty(),
    }
}

impl GetChecks for Domain {
    open spec fn sub_structure(&self) -> RdapStructure {
        RdapStructure::Nameserver
    }

    proof fn lemma_shallow(&self, params: CheckParams) {
    }

    open spec fn structure(&self) -> RdapStructure {
        RdapStructure::Domain
    }

    open spec fn findings(&self, params: CheckParams) -> Seq<CheckItem> {
        object_findings(self.common, params, domain_findings(*self))
    }

    open spec fn sub_findings(&self, params: CheckParams) -> Seq<Seq<CheckItem>> {
        each_within(nameservers_of(*self), params, RdapStructure::Domain)
    }

    fn get_checks(&self, params: CheckParams) -> (r: Checks) {
        let mut items = check_envelope(&self.common, &params);
        check_domain(&mut items, self);
        let sub_checks = match &self.nameservers {
            Some(n) => check_each(n, &params, RdapStructure::Domain),
            None => Vec::new(),
        };
        Checks { rdap_struct: RdapStructure::Domain, items, sub_checks }
    }
}

/// The findings on a response that is no object: those of its place.
pub open spec fn plain_findings(c: Common, params: CheckParams) -> Seq<CheckItem> {
    place_findings(c, at_top(params), params.allow_unreg_ext)
}

fn check_plain(c: &Common, params: &CheckParams) -> (items: Vec<CheckItem>)
    ensures
        items@ == plain_findings(*c, *params),
{
    let mut items: Vec<CheckItem> = Vec::new();
    check_place(
        &mut items,
        c,
        params.parent_type == RdapStructure::Response,
        params.allow_unreg_ext,
    );
    assert(items@ =~= plain_findings(*c, *params));
    items
}

impl GetChecks for DomainSearchResults {
    open spec fn sub_structure(&self) -> RdapStructure {
        RdapStructure::Domain
    }

    proof fn lemma_shallow(&self, params: CheckParams) {
    }

    open spec fn structure(&self) -> RdapStructure {
        RdapStructure::DomainSearchResults
    }

    open spec fn findings(&self, params: CheckParams) -> Seq<CheckItem> {
        plain_findings(self.common, params)
    }

    open spec fn sub_findings(&self, params: CheckParams) -> Seq<Seq<CheckItem>> {
        each_within(self.results@, params, RdapStructure::DomainSearchResults)
    }

    fn get_checks(&self, params: CheckParams) -> (r: Checks) {
        let items = check_plain(&self.common, &params);
        let sub_checks = check_each(&self.results, &params, RdapStructure::DomainSearchResults);
        Checks { rdap_struct: RdapStructure::DomainSearchResults, items, sub_checks }
    }
}

impl GetChecks for EntitySearchResults {
    open spec fn sub_structure(&self) -> RdapStructure {
        RdapStructure::Entity
    }

    proof fn lemma_shallow(&self, params: CheckParams) {
    }

    open spec fn structure(&self) -> RdapStructure {
        RdapStructure::EntitySearchResults
    }

    open spec fn findings(&self, params: CheckParams) -> Seq<CheckItem> {
        plain_findings(self.common, params)
    }

    open spec fn sub_findings(&self, params: CheckParams) -> Seq<Seq<CheckItem>> {
        each_within(self.results@, params, RdapStructure::EntitySearchResults)
    }

    fn get_checks(&self, params: CheckParams) -> (r: Checks) {
        let items = check_plain(&self.common, &params);
        let sub_checks = check_each(&self.results, &params, RdapStructure::EntitySearchResults);
        Checks { rdap_struct: RdapStructure::EntitySearchResults, items, sub_checks }
    }
}

impl GetChecks for NameserverSearchResults {
    open spec fn sub_structure(&self) -> RdapStructure {
        RdapStructure::Nameserver
    }

    proof fn lemma_shallow(&self, params: CheckParams) {
    }

    open spec fn structure(&self) -> RdapStructure {
        RdapStructure::NameserverSearchResults
    }

    open spec fn findings(&self, params: CheckParams) -> Seq<CheckItem> {
        plain_findings(self.common, params)
    }

    open spec fn sub_findings(&self, params: CheckParams) -> Seq<Seq<CheckItem>> {
        each_within(self.results@, params, RdapStructure::NameserverSearchResults)
    }

    fn get_checks(&self, params: CheckParams) -> (r: Checks) {
        let items = check_plain(&self.common, &params);
        let sub_checks = check_each(
            &self.results,
            &params,
            RdapStructure::NameserverSearchResults,
        );
        Checks { rdap_struct: RdapStructure::NameserverSearchResults, items, sub_checks }
    }
}

impl GetChecks for Rfc9083Error {
    open spec fn sub_structure(&self) -> RdapStructure {
        self.structure()
    }

    proof fn lemma_shallow(&self, params: CheckParams) {
    }

    open spec fn structure(&self) -> RdapStructure {
        RdapStructure::Error
    }

    open spec fn findings(&self, params: CheckParams) -> Seq<CheckItem> {
        plain_findings(self.common, params)
    }

    open spec fn sub_findings(&self, params: CheckParams) -> Seq<Seq<CheckItem>> {
        Seq::empty()
    }

    fn get_checks(&self, params: CheckParams) -> (r: Checks) {
        let items = check_plain(&self.common, &params);
        Checks { rdap_struct: RdapStructure::Error, items, sub_checks: Vec::new() }
    }
}

impl GetChecks for Help {
    open spec fn sub_structure(&self) -> RdapStructure {
        self.structure()
    }

    proof fn lemma_shallow(&self, params: CheckParams) {
    }

    open spec fn structure(&self) -> RdapStructure {
        RdapStructure::Help
    }

    open spec fn findings(&self, params: CheckParams) -> Seq<CheckItem> {
        plain_findings(self.common, params)
    }

    open spec fn sub_findings(&self, params: CheckParams) -> Seq<Seq<CheckItem>> {
        Seq::empty()
    }

    fn get_checks(&self, params: CheckParams) -> (r: Checks) {
        let items = check_plain(&self.common, &params);
        Checks { rdap_struct: RdapStructure::Help, items, sub_checks: Vec::new() }
    }
}

impl GetChecks for RdapResponse {
    open spec fn sub_structure(&self) -> RdapStructure {
        match self {
            RdapResponse::Entity(e) => e.sub_structure(),
            RdapResponse::Domain(d) => d.sub_structure(),
            RdapResponse::Nameserver(n) => n.sub_structure(),
            RdapResponse::Autnum(a) => a.sub_structure(),
            RdapResponse::Network(n) => n.sub_structure(),
            RdapResponse::DomainSearchResults(r) => r.sub_structure(),
            RdapResponse::EntitySearchResults(r) => r.sub_structure(),
            RdapResponse::NameserverSearchResults(r) => r.sub_structure(),
            RdapResponse::ErrorResponse(e) => e.sub_structure(),
            RdapResponse::Help(h) => h.sub_structure(),
        }
    }

    proof fn lemma_shallow(&self, params: CheckParams) {
    }

    open spec fn structure(&self) -> RdapStructure {
        match self {
            RdapResponse::Entity(e) => e.structure(),
            RdapResponse::Domain(d) => d.structure(),
            RdapResponse::Nameserver(n) => n.structure(),
            RdapResponse::Autnum(a) => a.structure(),
            RdapResponse::Network(n) => n.structure(),
            RdapResponse::DomainSearchResults(r) => r.structure(),
            RdapResponse::EntitySearchResults(r) => r.structure(),
            RdapResponse::NameserverSearchResults(r) => r.structure(),
            RdapResponse::ErrorResponse(e) => e.structure(),
            RdapResponse::Help(h) => h.structure(),
        }
    }

    open spec fn findings(&self, params: CheckParams) -> Seq<CheckItem> {
        match self {
            RdapResponse::Entity(e) => e.findings(params),
            RdapResponse::Domain(d) => d.findings(params),
            RdapResponse::Nameserver(n) => n.findings(params),
            RdapResponse::Autnum(a) => a.findings(params),
            RdapResponse::Network(n) => n.findings(params),
            RdapResponse::DomainSearchResults(r) => r.findings(params),
            RdapResponse::EntitySearchResults(r) => r.findings(params),
            RdapResponse::NameserverSearchResults(r) => r.findings(params),
            RdapResponse::ErrorResponse(e) => e.findings(params),
            RdapResponse::Help(h) => h.findings(params),
        }
    }

    open spec fn sub_findings(&self, params: CheckParams) -> Seq<Seq<CheckItem>> {
        match self {
            RdapResponse::Entity(e) => e.sub_findings(params),
            RdapResponse::Domain(d) => d.sub_findings(params),
            RdapResponse::Nameserver(n) => n.sub_findings(params),
            RdapResponse::Autnum(a) => a.sub_findings(params),
            RdapResponse::Network(n) => n.sub_findings(params),
            RdapResponse::DomainSearchResults(r) => r.sub_findings(params),
            RdapResponse::EntitySearchResults(r) => r.sub_findings(params),
            RdapResponse::NameserverSearchResults(r) => r.sub_findings(params),
            RdapResponse::ErrorResponse(e) => e.sub_findings(params),
            RdapResponse::Help(h) => h.sub_findings(params),
        }
    }

    fn get_checks(&self, params: CheckParams) -> (r: Checks) {
        match self {
            RdapResponse::Entity(e) => e.get_checks(params),
            RdapResponse::Domain(d) => d.get_checks(params),
            RdapResponse::Nameserver(n) => n.get_checks(params),
            RdapResponse::Autnum(a) => a.get_checks(params),
            RdapResponse::Network(n) => n.get_checks(params),
            RdapResponse::DomainSearchResults(r) => r.get_checks(params),
            RdapResponse::EntitySearchResults(r) => r.get_checks(params),
            RdapResponse::NameserverSearchResults(r) => r.get_checks(params),
            RdapResponse::ErrorResponse(e) => e.get_checks(params),
            RdapResponse::Help(h) => h.get_checks(params),
        }
    }
}

impl RdapResponse {
    /// Checks a response as a whole: the response stands at the top, and the
    /// structures within it are checked too.
    pub fn check(&self, allow_unreg_ext: bool) -> (r: Checks)
        ensures
            r.rdap_struct == self.structure(),
            r.items@ == self.findings(top_params(self, allow_unreg_ext)),
            r.sub_checks@.len() == self.sub_findings(top_params(self, allow_unreg_ext)).len(),
            forall|i: int|
                0 <= i < r.sub_checks@.len() ==> {
                    &&& (#[trigger] r.sub_checks@[i]).items@ == self.sub_findings(
                        top_params(self, allow_unreg_ext),
                    )[i]
                    &&& r.sub_checks@[i].rdap_struct == self.sub_structure()
                    &&& r.sub_checks@[i].sub_checks@.len() == 0
                },
    {
        self.get_checks(
            CheckParams {
                do_subchecks: true,
                root: self,
                parent_type: RdapStructure::Response,
                allow_unreg_ext,
            },
        )
    }
}

/// How a response is checked as a whole.
pub open spec fn top_params(root: &RdapResponse, allow_unreg_ext: bool) -> CheckParams {
    CheckParams { do_subchecks: true, root, parent_type: RdapStructure::Response, allow_unreg_ext }
}

} // verus!
