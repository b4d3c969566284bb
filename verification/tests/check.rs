use rdap_core::check::walk::GetChecks;
use rdap_core::check::{
    is_ldh, is_ldh_domain_name, is_ldh_string, is_whitespace_or_empty, Check, CheckClass,
    CheckItem, CheckParams, RdapStructure, StringListCheck,
};
use rdap_core::json::{Json, JsonNumber};
use rdap_core::lenient::{Boolish, Numberish, VectorStringish};
use rdap_core::response::{
    Autnum, Cidr0Cidr, Common, Domain, DomainSearchResults, Entity, Event, Help, IpAddresses, Link,
    Nameserver, Network, Notice, RdapResponse, Rfc9083Error, SecureDns,
};

fn text(s: &str) -> Json {
    Json::String(s.to_string())
}

fn domain(ldh: &str) -> Domain {
    Domain {
        common: Common::empty(),
        ldh_name: Some(ldh.to_string()),
        unicode_name: None,
        nameservers: None,
        secure_dns: None,
        entities: None,
        network: None,
    }
}

fn good_common() -> Common {
    let mut c = Common::empty();
    c.rdap_conformance = Some(vec!["rdap_level_0".to_string()]);
    c.notices = Some(vec![Notice { title: None, description: None, links: None, unknown_keys: vec![] }]);
    c.events = Some(vec![Event { event_action: None, event_actor: None, event_date: None, unknown_keys: vec![] }]);
    c.status = Some(VectorStringish::from(vec!["active".to_string()]));
    c.links = Some(vec![Link {
        value: None,
        rel: Some("self".to_string()),
        href: Some("https://example.net/domain/foo.example".to_string()),
        media_type: None,
        title: None,
        unknown_keys: vec![],
    }]);
    c
}

fn checks_of(items: &[CheckItem]) -> Vec<Check> {
    items.iter().map(|i| i.check).collect()
}

#[test]
fn text_checks() {
    assert!(is_ldh('a') && is_ldh('Z') && is_ldh('0') && is_ldh('9') && is_ldh('-'));
    assert!(!is_ldh('.') && !is_ldh('_') && !is_ldh(' ') && !is_ldh('é') && !is_ldh('@'));
    assert!(is_whitespace_or_empty(""));
    assert!(is_whitespace_or_empty(" \t\r\n\u{2003}"));
    assert!(!is_whitespace_or_empty(" a "));
    assert!(is_ldh_string("abc-123"));
    assert!(!is_ldh_string(""));
    assert!(!is_ldh_string("a.b"));
    for good in ["example", "foo.example", "foo.example.", ".", "a-b.c-d", "XN--P1AI", "-a-"] {
        assert!(is_ldh_domain_name(good), "{good:?}");
    }
    for bad in ["", "..", ".example", "foo..example", "foo_bar.example", "foo bar", "é.example", "a.."] {
        assert!(!is_ldh_domain_name(bad), "{bad:?}");
    }
}

#[test]
fn string_list_checks() {
    let empty: Vec<String> = vec![];
    assert!(empty.is_empty_or_any_empty_or_whitespace());
    assert!(!empty.is_ldh_string_list());
    let good = vec!["abc".to_string(), "d-e".to_string()];
    assert!(!good.is_empty_or_any_empty_or_whitespace());
    assert!(good.is_ldh_string_list());
    let blank = vec!["abc".to_string(), "  ".to_string()];
    assert!(blank.is_empty_or_any_empty_or_whitespace());
    assert!(!blank.is_ldh_string_list());
    let v = VectorStringish::from(vec!["abc".to_string(), "".to_string()]);
    assert!(v.is_empty_or_any_empty_or_whitespace());
    assert!(!v.is_ldh_string_list());
    let v = VectorStringish::from("abc");
    assert!(!v.is_empty_or_any_empty_or_whitespace());
    assert!(v.is_ldh_string_list());
}

#[test]
fn classes_codes_and_labels() {
    assert_eq!(Check::EventsMissing.class(), CheckClass::Informational);
    assert_eq!(Check::ZoneSignedIsString.class(), CheckClass::SpecificationNote);
    assert_eq!(Check::LdhNameInvalid.class(), CheckClass::StdErrorViolation);
    assert_eq!(Check::SelfLinkMissing.class(), CheckClass::StdErrorWarning);
    assert_eq!(Check::EventsMissing.code(), 100);
    assert_eq!(Check::UnknownExtension.code(), 303);
    assert_eq!(Check::RdapConformanceInvalidParent.code(), 407);
    assert_eq!(CheckClass::Informational.to_string(), "Info");
    assert_eq!(CheckClass::SpecificationNote.to_string(), "SpecNote");
    assert_eq!(CheckClass::StdErrorWarning.to_string(), "StdWarn");
    assert_eq!(CheckClass::StdErrorViolation.to_string(), "StdErr");
    assert_eq!(CheckClass::Cidr0Error.to_string(), "Cidr0Err");
    assert_eq!(CheckClass::IcannError.to_string(), "IcannErr");
    let item = Check::NoticesMissing.check_item();
    assert_eq!(item, CheckItem { check_class: CheckClass::StdErrorWarning, check: Check::NoticesMissing });
}

#[test]
fn a_conforming_domain_has_no_findings() {
    let mut d = domain("foo.example");
    d.common = good_common();
    let checks = RdapResponse::Domain(d).check(false);
    assert_eq!(checks.rdap_struct, RdapStructure::Domain);
    assert!(checks.items.is_empty());
    assert!(checks.sub_checks.is_empty());
}

#[test]
fn lenient_boolish() {
    // {"active": "yes"}: the value is true, and it came as a string
    let active = Boolish::from_json(&text("yes")).unwrap();
    assert!(active.into_bool());
    assert!(active.is_string());
    let mut d = domain("foo.example");
    d.common = good_common();
    d.secure_dns = Some(SecureDns {
        zone_signed: Some(active),
        delegation_signed: Some(Boolish::from(true)),
        max_sig_life: None,
        unknown_keys: vec![],
    });
    let checks = RdapResponse::Domain(d).check(false);
    assert_eq!(
        checks.items,
        vec![CheckItem { check_class: CheckClass::SpecificationNote, check: Check::ZoneSignedIsString }]
    );
}

#[test]
fn findings_on_a_bare_domain_in_their_order() {
    let checks = RdapResponse::Domain(domain("foo_bar")).check(false);
    assert_eq!(
        checks_of(&checks.items),
        vec![
            Check::RdapConformanceMissing,
            Check::NoticesMissing,
            Check::EventsMissing,
            Check::StatusMissing,
            Check::SelfLinkMissing,
            Check::LdhNameInvalid,
        ]
    );
    for item in &checks.items {
        assert_eq!(item.check_class, item.check.class());
    }
}

#[test]
fn lenient_shapes_are_noted() {
    let mut d = domain("foo.example");
    d.common = good_common();
    d.common.status = Some(VectorStringish::from_json(&text("active")).unwrap());
    d.common.notices = Some(vec![Notice {
        title: None,
        description: Some(VectorStringish::from_json(&text("one line")).unwrap()),
        links: None,
        unknown_keys: vec![],
    }]);
    d.secure_dns = Some(SecureDns {
        zone_signed: None,
        delegation_signed: Some(Boolish::from_json(&text("false")).unwrap()),
        max_sig_life: Some(Numberish::from_json(&text("3600")).unwrap()),
        unknown_keys: vec![],
    });
    assert_eq!(
        checks_of(&RdapResponse::Domain(d).check(false).items),
        vec![
            Check::StatusIsString,
            Check::NoticeDescriptionIsString,
            Check::DelegationSignedIsString,
            Check::MaxSigLifeIsString,
        ]
    );
}

#[test]
fn extensions() {
    let mut d = domain("foo.example");
    d.common = good_common();
    d.common.rdap_conformance =
        Some(vec!["rdap_level_0".to_string(), "cidr0".to_string(), "my_own_0".to_string()]);
    let r = RdapResponse::Domain(d);
    assert_eq!(checks_of(&r.check(false).items), vec![Check::UnknownExtension]);
    assert!(r.check(true).items.is_empty());
    let mut d = domain("foo.example");
    d.common = good_common();
    d.common.rdap_conformance = Some(vec!["cidr0".to_string()]);
    assert_eq!(
        checks_of(&RdapResponse::Domain(d.clone()).check(false).items),
        vec![Check::RdapLevel0Missing]
    );
    d.common.rdap_conformance = Some(vec![]);
    assert_eq!(
        checks_of(&RdapResponse::Domain(d).check(true).items),
        vec![Check::RdapLevel0Missing]
    );
    assert_eq!(Check::RdapLevel0Missing.class(), CheckClass::StdErrorViolation);
    assert_eq!(Check::RdapLevel0Missing.code(), 408);
}

#[test]
fn structures_within_are_checked_as_such() {
    let mut d = domain("foo.example");
    d.common = good_common();
    let mut ns = Nameserver {
        common: good_common(),
        ldh_name: Some("ns1.foo.example".to_string()),
        unicode_name: None,
        ip_addresses: Some(IpAddresses {
            v4: Some(VectorStringish::from_json(&text("192.0.2.1")).unwrap()),
            v6: None,
            unknown_keys: vec![],
        }),
        entities: None,
    };
    ns.common.notices = None;
    d.nameservers = Some(vec![ns.clone()]);
    let r = RdapResponse::Domain(d);
    let checks = r.check(false);
    assert!(checks.items.is_empty());
    assert_eq!(checks.sub_checks.len(), 1);
    assert_eq!(checks.sub_checks[0].rdap_struct, RdapStructure::Nameserver);
    assert_eq!(
        checks_of(&checks.sub_checks[0].items),
        vec![Check::RdapConformanceInvalidParent, Check::IpAddressListIsString]
    );
    // without the structures within
    let shallow = r.get_checks(CheckParams {
        do_subchecks: false,
        root: &r,
        parent_type: RdapStructure::Response,
        allow_unreg_ext: false,
    });
    assert!(shallow.sub_checks.is_empty());
    // the same name server at the top of a response
    let top = RdapResponse::Nameserver(ns).check(false);
    assert_eq!(checks_of(&top.items), vec![Check::NoticesMissing, Check::IpAddressListIsString]);
    // search results
    let mut found = domain("a.example");
    found.common = good_common();
    found.common.rdap_conformance = None;
    let results = RdapResponse::DomainSearchResults(DomainSearchResults {
        common: good_common(),
        results: vec![found, domain("b_.example")],
    });
    let checks = results.check(false);
    assert!(checks.items.is_empty());
    assert_eq!(checks.sub_checks.len(), 2);
    assert!(checks.sub_checks[0].items.is_empty());
    assert_eq!(
        checks_of(&checks.sub_checks[1].items),
        vec![Check::EventsMissing, Check::StatusMissing, Check::SelfLinkMissing, Check::LdhNameInvalid]
    );
}

#[test]
fn findings_on_entities() {
    let mut e = Entity {
        common: good_common(),
        handle: None,
        roles: Some(VectorStringish::from_json(&text(" ")).unwrap()),
        public_ids: None,
        vcard_array: None,
        entities: None,
    };
    assert_eq!(
        checks_of(&RdapResponse::Entity(e.clone()).check(false).items),
        vec![Check::HandleMissing, Check::RolesIsString, Check::RolesIsEmpty]
    );
    e.handle = Some("  ".to_string());
    e.roles = Some(VectorStringish::from(Vec::<String>::new()));
    e.common.status = Some(VectorStringish::from(vec!["".to_string()]));
    assert_eq!(
        checks_of(&RdapResponse::Entity(e).check(false).items),
        vec![Check::StatusIsEmpty, Check::HandleIsEmpty, Check::RolesIsEmpty]
    );
}

#[test]
fn findings_on_autnums() {
    let number = |n: u32| Some(Numberish::<u32>::from(n));
    let mut a = Autnum {
        common: good_common(),
        start_autnum: number(800),
        end_autnum: number(700),
        entities: None,
    };
    assert_eq!(
        checks_of(&RdapResponse::Autnum(a.clone()).check(false).items),
        vec![Check::AutnumRangeInverted]
    );
    a.start_autnum = Some(Numberish::from_json(&text("700")).unwrap());
    a.end_autnum = Some(Numberish::from_json(&text("800")).unwrap());
    assert_eq!(
        checks_of(&RdapResponse::Autnum(a.clone()).check(false).items),
        vec![Check::StartAutnumIsString, Check::EndAutnumIsString]
    );
    a.start_autnum = number(700);
    a.end_autnum = number(700);
    assert!(RdapResponse::Autnum(a.clone()).check(false).items.is_empty());
    // an end that is no number below 2^32 is not compared
    a.end_autnum = Some(Numberish::from_json(&Json::Number(JsonNumber::PosInt(1 << 32))).unwrap());
    assert!(RdapResponse::Autnum(a).check(false).items.is_empty());
}

#[test]
fn findings_on_networks() {
    let length = |n: u8| Some(Numberish::<u8>::from(n));
    let mut n = Network {
        common: good_common(),
        start_address: Some("10.0.0.0".to_string()),
        end_address: Some("10.255.255.255".to_string()),
        ip_version: Some("v4".to_string()),
        cidr0_cidrs: Some(vec![Cidr0Cidr { v4prefix: Some("10.0.0.0".to_string()), v6prefix: None, length: length(8), unknown_keys: vec![] }]),
        entities: None,
    };
    assert!(RdapResponse::Network(n.clone()).check(false).items.is_empty());
    n.start_address = Some("10.255.255.255".to_string());
    n.end_address = Some("10.0.0.0".to_string());
    n.cidr0_cidrs = Some(vec![
        Cidr0Cidr { v4prefix: Some("10.0.0.0".to_string()), v6prefix: None, length: length(33), unknown_keys: vec![] },
        Cidr0Cidr { v4prefix: None, v6prefix: Some("2001:db8::".to_string()), length: Some(Numberish::from_json(&text("32")).unwrap()), unknown_keys: vec![] },
    ]);
    assert_eq!(
        checks_of(&RdapResponse::Network(n.clone()).check(false).items),
        vec![Check::Cidr0LengthIsString, Check::Cidr0Malformed, Check::NetworkRangeInverted]
    );
    for bad in [
        Cidr0Cidr { v4prefix: None, v6prefix: None, length: length(8), unknown_keys: vec![] },
        Cidr0Cidr { v4prefix: Some("10.0.0.0".to_string()), v6prefix: None, length: None, unknown_keys: vec![] },
        Cidr0Cidr { v4prefix: Some("2001:db8::".to_string()), v6prefix: None, length: length(8), unknown_keys: vec![] },
        Cidr0Cidr { v4prefix: None, v6prefix: Some("10.0.0.0".to_string()), length: length(8), unknown_keys: vec![] },
        Cidr0Cidr { v4prefix: None, v6prefix: Some("2001:db8::".to_string()), length: length(129), unknown_keys: vec![] },
        Cidr0Cidr { v4prefix: Some("10.0.0".to_string()), v6prefix: None, length: length(8), unknown_keys: vec![] },
    ] {
        n.start_address = None;
        n.cidr0_cidrs = Some(vec![bad]);
        assert_eq!(
            checks_of(&RdapResponse::Network(n.clone()).check(false).items),
            vec![Check::Cidr0Malformed]
        );
    }
    n.cidr0_cidrs = Some(vec![Cidr0Cidr { v4prefix: None, v6prefix: Some("2001:db8::".to_string()), length: length(128), unknown_keys: vec![] }]);
    // ends of two families are not compared
    n.start_address = Some("10.0.0.1".to_string());
    n.end_address = Some("::".to_string());
    assert!(RdapResponse::Network(n).check(false).items.is_empty());
}

#[test]
fn responses_that_are_no_objects() {
    let help = RdapResponse::Help(Help { common: Common::empty() });
    assert_eq!(
        checks_of(&help.check(false).items),
        vec![Check::RdapConformanceMissing, Check::NoticesMissing]
    );
    let error = RdapResponse::ErrorResponse(Rfc9083Error::redirect("https://x/".to_string()));
    assert!(error.is_redirect());
    assert!(!help.is_redirect());
    assert!(!RdapResponse::ErrorResponse(Rfc9083Error::error(404)).is_redirect());
    assert_eq!(checks_of(&error.check(false).items), vec![Check::RdapConformanceMissing]);
    assert_eq!(error.check(false).rdap_struct, RdapStructure::Error);
}
