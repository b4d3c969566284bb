use rdap_core::check::{Check, CheckClass};
use rdap_core::codec::Codec;
use rdap_core::decode::{DecodeError, SchemaErrorKind};
use rdap_core::json::{Json, JsonNumber};
use rdap_core::lenient::VectorStringish;
use rdap_core::response::{Link, RdapResponse};

fn from_value(v: &serde_json::Value) -> Json {
    match v {
        serde_json::Value::Null => Json::Null,
        serde_json::Value::Bool(b) => Json::Bool(*b),
        serde_json::Value::Number(n) => {
            if let Some(u) = n.as_u64() {
                Json::Number(JsonNumber::PosInt(u))
            } else if let Some(i) = n.as_i64() {
                Json::Number(JsonNumber::NegInt(i))
            } else {
                Json::Number(JsonNumber::Float(n.as_f64().unwrap().to_bits()))
            }
        }
        serde_json::Value::String(s) => Json::String(s.clone()),
        serde_json::Value::Array(a) => Json::Array(a.iter().map(from_value).collect()),
        serde_json::Value::Object(m) => {
            Json::Object(m.iter().map(|(k, v)| (k.clone(), from_value(v))).collect())
        }
    }
}

fn to_value(j: &Json) -> serde_json::Value {
    match j {
        Json::Null => serde_json::Value::Null,
        Json::Bool(b) => serde_json::Value::Bool(*b),
        Json::Number(JsonNumber::PosInt(u)) => serde_json::Value::from(*u),
        Json::Number(JsonNumber::NegInt(i)) => serde_json::Value::from(*i),
        Json::Number(JsonNumber::Float(bits)) => serde_json::Value::from(f64::from_bits(*bits)),
        Json::String(s) => serde_json::Value::String(s.clone()),
        Json::Array(a) => serde_json::Value::Array(a.iter().map(to_value).collect()),
        Json::Object(m) => serde_json::Value::Object(
            m.iter().map(|(k, v)| (k.clone(), to_value(v))).collect(),
        ),
    }
}

fn value(text: &str) -> serde_json::Value {
    serde_json::from_str(text).unwrap()
}

fn parse(text: &str) -> Json {
    from_value(&value(text))
}

fn bad_member(path: &[&str]) -> DecodeError {
    DecodeError::SchemaError {
        path: path.iter().map(|s| s.to_string()).collect(),
        kind: SchemaErrorKind::BadMember,
    }
}

const DOMAIN: &str = r#"
{
  "objectClassName" : "domain",
  "handle" : "XXX",
  "ldhName" : "xn--fo-5ja.example",
  "unicodeName" : "fóo.example",
  "variants" : [ { "relation" : [ "registered", "conjoined" ], "variantNames" : [ { "ldhName" : "xn--fo-cka.example" } ] } ],
  "status" : [ "locked", "transfer prohibited" ],
  "publicIds" : [ { "type" : "ENS_Auth ID", "identifier" : "1234567890" } ],
  "nameservers" : [
    {
      "objectClassName" : "nameserver",
      "handle" : "XXXX",
      "ldhName" : "ns1.example.com",
      "status" : [ "active" ],
      "ipAddresses" : { "v6" : [ "2001:db8::123", "2001:db8::124" ], "v4" : [ "192.0.2.1", "192.0.2.2" ] },
      "remarks" : [ { "description" : [ "She sells sea shells down by the sea shore." ] } ],
      "links" : [ { "value" : "https://example.net/nameserver/ns1.example.com", "rel" : "self", "href" : "https://example.net/nameserver/ns1.example.com", "type" : "application/rdap+json" } ],
      "events" : [ { "eventAction" : "registration", "eventDate" : "1990-12-31T23:59:59Z" } ]
    }
  ],
  "secureDNS" : {
    "zoneSigned" : true,
    "delegationSigned" : true,
    "maxSigLife" : 604800,
    "keyData" : [ { "flags" : 257, "protocol" : 3, "algorithm" : 8, "publicKey" : "AwEAAa6" } ]
  },
  "remarks" : [ { "description" : [ "She sells sea shells down by the sea shore." ] } ],
  "links" : [ { "value" : "https://example.net/domain/xn--fo-5ja.example", "rel" : "self", "href" : "https://example.net/domain/xn--fo-5ja.example", "type" : "application/rdap+json", "hreflang" : [ "en" ] } ],
  "port43" : "whois.example.net",
  "events" : [
    { "eventAction" : "registration", "eventDate" : "1990-12-31T23:59:59Z" },
    { "eventAction" : "last changed", "eventDate" : "1991-12-31T23:59:59Z", "eventActor" : "joe@example.com" }
  ],
  "entities" : [
    {
      "objectClassName" : "entity",
      "handle" : "XXXX",
      "vcardArray" : [ "vcard", [ ["version", {}, "text", "4.0"], ["fn", {}, "text", "Joe User"] ] ],
      "status" : [ "validated", "locked" ],
      "roles" : [ "registrant" ],
      "entities" : [ { "objectClassName" : "entity", "handle" : "YYYY", "roles" : [ "technical" ] } ]
    }
  ],
  "network" : { "objectClassName" : "ip network", "handle" : "XXXX-RIR", "startAddress" : "192.0.2.0", "endAddress" : "192.0.2.255" },
  "rdapConformance" : [ "rdap_level_0" ],
  "notices" : [ { "title" : "Terms of Use", "description" : [ "Service subject to Terms of Use." ], "links" : [ { "rel" : "terms-of-service", "href" : "https://example.net/tos" } ] } ],
  "lang" : "en"
}"#;

#[test]
fn a_domain_reads_and_is_written_as_it_was() {
    let response = RdapResponse::from_json(&parse(DOMAIN)).unwrap();
    let domain = match &response {
        RdapResponse::Domain(d) => d,
        _ => panic!("a domain"),
    };
    assert_eq!(domain.ldh_name.as_deref(), Some("xn--fo-5ja.example"));
    assert_eq!(domain.unicode_name.as_deref(), Some("fóo.example"));
    assert_eq!(domain.common.object_class_name.as_deref(), Some("domain"));
    assert_eq!(domain.common.port_43.as_deref(), Some("whois.example.net"));
    assert_eq!(domain.common.lang.as_deref(), Some("en"));
    assert_eq!(domain.common.rdap_conformance, Some(vec!["rdap_level_0".to_string()]));
    assert_eq!(
        domain.common.status.as_ref().unwrap().vec(),
        &vec!["locked".to_string(), "transfer prohibited".to_string()]
    );
    assert_eq!(domain.common.events.as_ref().unwrap().len(), 2);
    assert_eq!(domain.common.events.as_ref().unwrap()[1].event_actor.as_deref(), Some("joe@example.com"));
    assert_eq!(domain.common.links.as_ref().unwrap()[0].rel.as_deref(), Some("self"));
    assert_eq!(domain.common.links.as_ref().unwrap()[0].unknown_keys.len(), 1);
    assert_eq!(domain.common.notices.as_ref().unwrap()[0].title.as_deref(), Some("Terms of Use"));
    let ns = &domain.nameservers.as_ref().unwrap()[0];
    assert_eq!(ns.ldh_name.as_deref(), Some("ns1.example.com"));
    assert_eq!(ns.ip_addresses.as_ref().unwrap().v4.as_ref().unwrap().vec().len(), 2);
    let dns = domain.secure_dns.as_ref().unwrap();
    assert!(dns.zone_signed.as_ref().unwrap().into_bool());
    assert_eq!(dns.max_sig_life.as_ref().unwrap().as_u64(), Some(604800));
    assert_eq!(dns.unknown_keys.len(), 1);
    assert_eq!(domain.entities.as_ref().unwrap()[0].handle.as_deref(), Some("XXXX"));
    assert_eq!(domain.network.as_ref().unwrap().handle.as_deref(), Some("XXXX-RIR"));
    // members that are not known are kept: handle, variants, publicIds, remarks
    let kept: Vec<&str> = domain.common.unknown_keys.iter().map(|(k, _)| k.as_str()).collect();
    assert_eq!(kept, vec!["handle", "publicIds", "remarks", "variants"]);
    assert!(response.check(false).items.is_empty());
    // what is written is the document, but for the order of members
    assert_eq!(to_value(&response.to_json()), value(DOMAIN));
    // and it reads again as the same response
    assert_eq!(RdapResponse::from_json(&response.to_json()).unwrap(), response);
}

#[test]
fn each_kind_of_response_is_written_as_it_was() {
    for text in [
        r#"{"objectClassName": "entity", "handle": "XXXX", "roles": ["registrar"], "publicIds": [{"type": "IANA Registrar ID", "identifier": "1"}], "vcardArray": ["vcard", [["version", {}, "text", "4.0"]]], "entities": [{"handle": "YYYY"}], "asEventActor": []}"#,
        r#"{"objectClassName": "nameserver", "ldhName": "ns1.example.com", "unicodeName": "ns1.example.com", "ipAddresses": {"v4": ["192.0.2.1"]}}"#,
        r#"{"objectClassName": "autnum", "handle": "XXXX-RIR", "startAutnum": 65536, "endAutnum": 65541, "name": "AS-RTR-1", "type": "DIRECT ALLOCATION", "country": "AU"}"#,
        r#"{"objectClassName": "ip network", "handle": "XXXX-RIR", "startAddress": "2001:db8::", "endAddress": "2001:db8:0:ffff:ffff:ffff:ffff:ffff", "ipVersion": "v6", "cidr0_cidrs": [{"v6prefix": "2001:db8::", "length": 48}], "parentHandle": "YYYY-RIR"}"#,
        r#"{"rdapConformance": ["rdap_level_0"], "domainSearchResults": [{"objectClassName": "domain", "ldhName": "1.example.com"}, {"objectClassName": "domain", "ldhName": "2.example.com"}]}"#,
        r#"{"rdapConformance": ["rdap_level_0"], "nameserverSearchResults": [{"objectClassName": "nameserver", "ldhName": "ns1.example.com"}]}"#,
        r#"{"rdapConformance": ["rdap_level_0"], "entitySearchResults": []}"#,
        r#"{"rdapConformance": ["rdap_level_0"], "errorCode": 418, "title": "Your Beverage Choice is Not Available", "description": ["I know coffee has more ummppphhh.", "Sorry, dude!"], "lang": "en"}"#,
        r#"{"rdapConformance": ["rdap_level_0"], "notices": [{"title": "Authentication Policy", "description": ["Access to sensitive data for users with proper credentials."], "links": [{"value": "https://example.net/help", "rel": "alternate", "type": "text/html", "href": "https://www.example.com/auth_policy.html"}]}]}"#,
    ] {
        let response = RdapResponse::from_json(&parse(text)).expect(text);
        assert_eq!(to_value(&response.to_json()), value(text), "{text}");
    }
}

#[test]
fn tolerated_shapes_are_read_noted_and_written_in_canonical_shape() {
    let text = r#"{"objectClassName": "domain", "ldhName": "foo.example", "status": "active", "secureDNS": {"zoneSigned": "yes", "delegationSigned": "false", "maxSigLife": "3600"}, "notices": [{"description": "one line"}]}"#;
    let response = RdapResponse::from_json(&parse(text)).unwrap();
    let checks = response.check(false);
    let notes: Vec<Check> = checks
        .items
        .iter()
        .filter(|i| i.check_class == CheckClass::SpecificationNote)
        .map(|i| i.check)
        .collect();
    assert_eq!(
        notes,
        vec![
            Check::StatusIsString,
            Check::NoticeDescriptionIsString,
            Check::ZoneSignedIsString,
            Check::DelegationSignedIsString,
            Check::MaxSigLifeIsString
        ]
    );
    let written = response.to_json();
    assert_eq!(
        to_value(&written),
        value(r#"{"objectClassName": "domain", "ldhName": "foo.example", "status": ["active"], "secureDNS": {"zoneSigned": true, "delegationSigned": false, "maxSigLife": 3600}, "notices": [{"description": ["one line"]}]}"#)
    );
    // read again, nothing is left to note
    let again = RdapResponse::from_json(&written).unwrap();
    assert!(again
        .check(false)
        .items
        .iter()
        .all(|i| i.check_class != CheckClass::SpecificationNote));
    match (&response, &again) {
        (RdapResponse::Domain(a), RdapResponse::Domain(b)) => {
            assert_eq!(a.common.status.as_ref().unwrap().vec(), b.common.status.as_ref().unwrap().vec());
            assert_eq!(a.ldh_name, b.ldh_name);
        }
        _ => panic!("domains"),
    }
}

#[test]
fn what_does_not_read_says_where() {
    let cases: Vec<(&str, DecodeError)> = vec![
        (r#"{"objectClassName": "widget"}"#, DecodeError::UnknownObjectClass),
        (r#"{"objectClassName": 7}"#, DecodeError::UnknownObjectClass),
        (r#"[]"#, DecodeError::SchemaError { path: vec![], kind: SchemaErrorKind::NotAnObject }),
        (r#"{"handle": "x"}"#, DecodeError::SchemaError { path: vec![], kind: SchemaErrorKind::NoKnownShape }),
        (r#"{"objectClassName": "domain", "ldhName": 7}"#, bad_member(&["ldhName"])),
        (r#"{"objectClassName": "domain", "ldhName": "x", "status": [1]}"#, bad_member(&["status"])),
        (r#"{"objectClassName": "domain", "links": [{"rel": "self"}, {"rel": 5}]}"#, bad_member(&["links", "1", "rel"])),
        (r#"{"objectClassName": "domain", "links": {"rel": "self"}}"#, bad_member(&["links"])),
        (r#"{"objectClassName": "domain", "links": ["self"]}"#, bad_member(&["links", "0"])),
        (
            r#"{"objectClassName": "domain", "nameservers": [{}, {}, {"ipAddresses": {"v4": ["192.0.2.1"], "v6": 6}}]}"#,
            bad_member(&["nameservers", "2", "ipAddresses", "v6"]),
        ),
        (r#"{"objectClassName": "domain", "secureDNS": {"zoneSigned": 1}}"#, bad_member(&["secureDNS", "zoneSigned"])),
        (r#"{"objectClassName": "domain", "lang": null, "ldhName": 1}"#, bad_member(&["lang"])),
        (r#"{"objectClassName": "autnum", "startAutnum": true}"#, bad_member(&["startAutnum"])),
        (r#"{"objectClassName": "entity", "vcardArray": "vcard"}"#, bad_member(&["vcardArray"])),
        (r#"{"errorCode": "404"}"#, bad_member(&["errorCode"])),
        (r#"{"errorCode": 65536}"#, bad_member(&["errorCode"])),
        (r#"{"errorCode": null, "rdapConformance": "rdap_level_0"}"#, bad_member(&["rdapConformance"])),
        (r#"{"domainSearchResults": [{"ldhName": "a"}, {"ldhName": []}]}"#, bad_member(&["domainSearchResults", "1", "ldhName"])),
    ];
    for (text, error) in cases {
        assert_eq!(RdapResponse::from_json(&parse(text)), Err(error), "{text}");
    }
    assert!(RdapResponse::from_json(&parse(r#"{"errorCode": 65535}"#)).is_ok());
}

#[test]
fn values_alone() {
    let link = Link::decode(&Json::Object(vec![
        ("rel".to_string(), Json::String("self".to_string())),
        ("x".to_string(), Json::Bool(true)),
        ("href".to_string(), Json::String("https://x/".to_string())),
        ("x".to_string(), Json::Bool(false)),
    ]))
    .unwrap();
    assert_eq!(link.rel.as_deref(), Some("self"));
    assert_eq!(link.unknown_keys.len(), 2);
    assert_eq!(
        link.encode(),
        Json::Object(vec![
            ("rel".to_string(), Json::String("self".to_string())),
            ("href".to_string(), Json::String("https://x/".to_string())),
            ("x".to_string(), Json::Bool(true)),
            ("x".to_string(), Json::Bool(false)),
        ])
    );
    assert_eq!(Link::decode(&parse("[]")), Err(vec![]));
    assert_eq!(String::decode(&parse("1")), Err(vec![]));
    assert_eq!(String::decode(&parse(r#""a""#)), Ok("a".to_string()));
    assert_eq!(u16::decode(&parse("7")), Ok(7));
    assert_eq!(u16::decode(&parse("-7")), Err(vec![]));
    assert_eq!(u16::decode(&parse("7.5")), Err(vec![]));
    assert_eq!(Vec::<String>::decode(&parse(r#"["a", "b"]"#)), Ok(vec!["a".to_string(), "b".to_string()]));
    assert_eq!(Vec::<String>::decode(&parse(r#"["a", 1, 2]"#)), Err(vec!["1".to_string()]));
    assert_eq!(Vec::<Vec<String>>::decode(&parse(r#"[[], ["a", 1]]"#)), Err(vec!["1".to_string(), "1".to_string()]));
    assert_eq!(Vec::<String>::decode(&parse(r#""a""#)), Err(vec![]));
    assert!(VectorStringish::decode(&parse(r#""a""#)).unwrap().is_string());
    assert_eq!(to_value(&vec![7u16, 8].encode()), value("[7, 8]"));
    assert_eq!(Json::decode(&parse(r#"{"a": [1, -2, 1.5, null]}"#)).unwrap(), parse(r#"{"a": [1, -2, 1.5, null]}"#));
}
