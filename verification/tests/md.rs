use rdap_core::check::walk::GetChecks;
use rdap_core::check::{Check, CheckClass, CheckParams, RdapStructure, CHECK_CLASS_LEN};
use rdap_core::gtld::{GtldParams, ToGtldWhois};
use rdap_core::httpdata::HttpData;
use rdap_core::md::{
    checks_ul, to_em, to_header, to_right, to_right_em, FromMd, MdHeaderText, MdOptions, MdParams,
    MdUtil, RequestData, ToMd, HR,
};
use rdap_core::response::{Common, Domain, Entity, Help, Nameserver, RdapResponse, Rfc9083Error};

fn domain(ldh: &str) -> Domain {
    Domain {
        common: Common::empty(),
        ldh_name: Some(ldh.to_string()),
        unicode_name: None,
        nameservers: None,
        secure_dns: None,
        entities: None,
        network: None,
    }
}

fn nameserver(ldh: &str) -> Nameserver {
    Nameserver {
        common: Common::empty(),
        ldh_name: Some(ldh.to_string()),
        unicode_name: None,
        ip_addresses: None,
        entities: None,
    }
}

fn http_data() -> HttpData {
    HttpData {
        status_code: 200,
        headers: vec![],
        location: None,
        received_url: Some("https://example.net/domain/foo.example".to_string()),
        content_type: Some("application/rdap+json".to_string()),
    }
}

#[test]
fn options() {
    let d = MdOptions::default();
    assert!(!d.no_unicode_chars);
    assert_eq!(d.text_style_char, '*');
    assert!(d.hash_headers);
    assert!(!d.style_in_justify);
    let p = MdOptions::plain_text();
    assert!(p.no_unicode_chars);
    assert_eq!(p.text_style_char, '_');
    assert!(!p.hash_headers);
    assert!(p.style_in_justify);
}

#[test]
fn params_for_a_parent_and_for_the_next_level() {
    let response = RdapResponse::Domain(domain("foo.example"));
    let http = http_data();
    let options = MdOptions::default();
    let req = RequestData { req_number: 1, source_host: "example.net" };
    let classes = [CheckClass::Informational];
    let params = MdParams {
        heading_level: 1,
        root: &response,
        http_data: &http,
        parent_type: RdapStructure::Response,
        check_types: &classes,
        options: &options,
        req_data: &req,
    };
    let child = params.from_parent(RdapStructure::Domain);
    assert_eq!(child.parent_type, RdapStructure::Domain);
    assert_eq!(child.heading_level, 1);
    assert_eq!(child.check_types, &classes);
    let deeper = params.next_level();
    assert_eq!(deeper.heading_level, 2);
    assert_eq!(deeper.parent_type, RdapStructure::Response);
    assert_eq!(params.checked_next_level().map(|p| p.heading_level), Some(2));
    let deepest = MdParams { heading_level: usize::MAX, ..params };
    assert!(deepest.checked_next_level().is_none());
    let c = CheckParams::from_md(params, RdapStructure::Entity);
    assert_eq!(c.parent_type, RdapStructure::Entity);
    assert!(!c.do_subchecks);
    assert!(!c.allow_unreg_ext);
    let c = CheckParams::from_md_no_parent(child);
    assert_eq!(c.parent_type, RdapStructure::Domain);
    assert!(!c.do_subchecks);
    assert!(!c.allow_unreg_ext);
}

#[test]
fn styling_and_justifying() {
    let d = MdOptions::default();
    let p = MdOptions::plain_text();
    assert_eq!(to_em("x", &d), "*x*");
    assert_eq!(to_em("", &p), "__");
    assert_eq!(to_right("ab", 5), "   ab");
    assert_eq!(to_right("abcde", 5), "abcde");
    assert_eq!(to_right("abcdef", 5), "abcdef");
    assert_eq!(to_right("é", 3), "  é");
    assert_eq!(to_right_em("Info", 8, &d), "*    Info*");
    assert_eq!(to_right_em("Info", 8, &p), "  _Info_");
    assert_eq!(to_right_em("SpecNote", 8, &p), "_SpecNote_");
    assert_eq!(to_header("Title", 1, &d), "# Title\n\n");
    assert_eq!(to_header("Title", 3, &d), "### Title\n\n");
    assert_eq!(to_header("Title", 0, &d), " Title\n\n");
    assert_eq!(to_header("Title", 1, &p), "Title\n=====\n\n");
    assert_eq!(to_header("Title", 2, &p), "Title\n-----\n\n");
    assert_eq!(to_header("", 2, &p), "\n\n\n");
    assert_eq!(HR.len(), 41);
}

#[test]
fn header_texts() {
    let mut d = domain("foo.example");
    assert_eq!(d.get_header_text().to_string(), "Domain foo.example");
    d.unicode_name = Some("fóo.example".to_string());
    d.nameservers = Some(vec![nameserver("ns1.foo.example"), nameserver("ns2.foo.example")]);
    let h = d.get_header_text();
    assert_eq!(h.to_string(), "Domain fóo.example");
    assert_eq!(h.children().len(), 2);
    assert_eq!(h.children()[1].to_string(), "Nameserver ns2.foo.example");
    let e = Entity {
        common: Common::empty(),
        handle: None,
        roles: None,
        public_ids: None,
        vcard_array: None,
        entities: None,
    };
    assert_eq!(e.get_header_text().to_string(), "Entity");
    assert_eq!(RdapResponse::Entity(e).get_header_text().to_string(), "Entity");
    assert_eq!(
        RdapResponse::Help(Help { common: Common::empty() }).get_header_text().to_string(),
        "Server Help"
    );
    assert_eq!(
        RdapResponse::ErrorResponse(Rfc9083Error::error(404)).get_header_text().to_string(),
        "RDAP Error"
    );
    let h = MdHeaderText::new("a".to_string(), vec![MdHeaderText::new("b".to_string(), vec![])]);
    assert_eq!(h.to_string(), "a");
    assert_eq!(h.children()[0].to_string(), "b");
}

#[test]
fn list_of_findings() {
    let response = RdapResponse::Domain(domain("foo.example"));
    let http = http_data();
    let req = RequestData { req_number: 1, source_host: "example.net" };
    let options = MdOptions::default();
    let classes = [CheckClass::Informational, CheckClass::StdErrorWarning];
    let params = MdParams {
        heading_level: 1,
        root: &response,
        http_data: &http,
        parent_type: RdapStructure::Response,
        check_types: &classes,
        options: &options,
        req_data: &req,
    };
    let checks = response.get_checks(CheckParams::from_md_no_parent(params));
    let list = checks_ul(&checks, params);
    let expected = "* * StdWarn*: 'rdapConformance' is missing.\n\
* * StdWarn*: 'notices' is missing.\n\
* *    Info*: 'events' is recommended but missing.\n\
* *    Info*: 'status' is recommended but missing.\n\
* * StdWarn*: a link with the relation 'self' is missing.\n";
    assert_eq!(list, expected);
    // only the classes asked for
    let only = [CheckClass::Informational];
    let list = checks_ul(&checks, MdParams { check_types: &only, ..params });
    assert_eq!(
        list,
        "* *    Info*: 'events' is recommended but missing.\n\
* *    Info*: 'status' is recommended but missing.\n"
    );
    let none: [CheckClass; 0] = [];
    assert_eq!(checks_ul(&checks, MdParams { check_types: &none, ..params }), "");
    // plain text
    let plain = MdOptions::plain_text();
    let list = checks_ul(&checks, MdParams { check_types: &only, options: &plain, ..params });
    assert_eq!(
        list,
        "*   _Info_: 'events' is recommended but missing.\n\
*   _Info_: 'status' is recommended but missing.\n"
    );
    assert_eq!(CHECK_CLASS_LEN, 8);
    assert_eq!(Check::EventsMissing.get_message(), "'events' is recommended but missing.");
}

#[test]
fn a_response_as_markdown() {
    let response = RdapResponse::Domain(domain("foo.example"));
    let http = http_data();
    let req = RequestData { req_number: 1, source_host: "example.net" };
    let options = MdOptions::default();
    let classes = [CheckClass::Informational];
    let params = MdParams {
        heading_level: 2,
        root: &response,
        http_data: &http,
        parent_type: RdapStructure::Response,
        check_types: &classes,
        options: &options,
        req_data: &req,
    };
    let expected = "----------------------------------------\n\
* status: 200\n\
* url: https://example.net/domain/foo.example\n\
* content-type: application/rdap+json\n\
\n\
## Domain foo.example\n\
\n\
* *    Info*: 'events' is recommended but missing.\n\
* *    Info*: 'status' is recommended but missing.\n";
    assert_eq!(response.to_md(params), expected);
    let mut redirected = http_data();
    redirected.status_code = 302;
    redirected.received_url = None;
    redirected.content_type = None;
    redirected.location = Some("https://example.org/".to_string());
    assert_eq!(
        redirected.to_md(params),
        "----------------------------------------\n* status: 302\n* location: https://example.org/\n\n"
    );
}

#[test]
fn the_envelope_has_no_whois_lines() {
    let response = RdapResponse::Domain(domain("foo.example"));
    let mut params = GtldParams {
        root: &response,
        parent_type: RdapStructure::Response,
        label: "Registrant".to_string(),
    };
    assert_eq!(Common::empty().to_gtld_whois(&mut params), "");
    assert_eq!(params.label, "Registrant");
}
