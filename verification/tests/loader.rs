use rdap_core::bootstrap::{
    choose_url, insert, load, load_registry, read_registry, BootstrapError, BootstrapKey,
    BootstrapKind, BootstrapRecord,
};
use rdap_core::ip::{parse_cidr, parse_ip};
use rdap_core::json::{Json, JsonNumber};
use rdap_core::router::route;
use rdap_core::storage::data::{AutnumId, NetworkId, NetworkIdType};
use rdap_core::storage::mem::Mem;

fn from_value(v: &serde_json::Value) -> Json {
    match v {
        serde_json::Value::Null => Json::Null,
        serde_json::Value::Bool(b) => Json::Bool(*b),
        serde_json::Value::Number(n) => {
            if let Some(u) = n.as_u64() {
                Json::Number(JsonNumber::PosInt(u))
            } else if let Some(i) = n.as_i64() {
                Json::Number(JsonNumber::NegInt(i))
            } else {
                Json::Number(JsonNumber::Float(n.as_f64().unwrap().to_bits()))
            }
        }
        serde_json::Value::String(s) => Json::String(s.clone()),
        serde_json::Value::Array(a) => Json::Array(a.iter().map(from_value).collect()),
        serde_json::Value::Object(m) => {
            Json::Object(m.iter().map(|(k, v)| (k.clone(), from_value(v))).collect())
        }
    }
}

fn parse(text: &str) -> Json {
    from_value(&serde_json::from_str::<serde_json::Value>(text).unwrap())
}

fn strings(items: &[&str]) -> Vec<String> {
    items.iter().map(|s| s.to_string()).collect()
}

#[test]
fn the_first_https_url_is_chosen() {
    assert_eq!(choose_url(&strings(&["http://a/", "https://b/", "https://c/"])).unwrap(), "https://b/");
    assert_eq!(choose_url(&strings(&["http://a/", "ftp://b/"])).unwrap(), "http://a/");
    assert_eq!(choose_url(&strings(&["https://a/"])).unwrap(), "https://a/");
    assert_eq!(choose_url(&strings(&["HTTPS://a/", "https:/b"])).unwrap(), "HTTPS://a/");
    assert_eq!(choose_url(&strings(&[])), None);
}

#[test]
fn reads_a_dns_registry() {
    let doc = parse(
        r#"{
            "version": "1.0",
            "publication": "2024-01-01T00:00:00Z",
            "services": [
                [["com", "net"], ["http://rdap.example/", "https://rdap.example/"]],
                [["org"], ["http://rdap.example.org/"]],
                [["void"], []]
            ]
        }"#,
    );
    let records = read_registry(BootstrapKind::Dns, &doc).unwrap();
    assert_eq!(
        records,
        vec![
            BootstrapRecord { key: BootstrapKey::Domain("com".to_string()), url: "https://rdap.example/".to_string() },
            BootstrapRecord { key: BootstrapKey::Domain("net".to_string()), url: "https://rdap.example/".to_string() },
            BootstrapRecord { key: BootstrapKey::Domain("org".to_string()), url: "http://rdap.example.org/".to_string() },
        ]
    );
}

#[test]
fn reads_the_other_registries() {
    let doc = parse(r#"{"services": [[["700-800", "1877"], ["https://asn.example/"]]]}"#);
    assert_eq!(
        read_registry(BootstrapKind::Asn, &doc).unwrap(),
        vec![
            BootstrapRecord { key: BootstrapKey::Autnum(AutnumId { start_autnum: 700, end_autnum: 800 }), url: "https://asn.example/".to_string() },
            BootstrapRecord { key: BootstrapKey::Autnum(AutnumId { start_autnum: 1877, end_autnum: 1877 }), url: "https://asn.example/".to_string() },
        ]
    );
    let doc = parse(r#"{"services": [[["10.0.0.0/8", "2001:db8::/32", "192.0.2.0-192.0.2.255"], ["https://ip.example/"]]]}"#);
    let records = read_registry(BootstrapKind::Ip, &doc).unwrap();
    assert_eq!(records.len(), 3);
    assert_eq!(
        records[0].key,
        BootstrapKey::Network(NetworkId { network_id: NetworkIdType::Cidr(parse_cidr("10.0.0.0/8").unwrap()) })
    );
    assert_eq!(
        records[2].key,
        BootstrapKey::Network(NetworkId {
            network_id: NetworkIdType::Range {
                start_address: parse_ip("192.0.2.0").unwrap(),
                end_address: parse_ip("192.0.2.255").unwrap(),
            }
        })
    );
    let doc = parse(r#"{"services": [[["a@example.com"], ["ARIN"], ["https://tags.example/"]], [["RIPE"], ["https://ripe.example/"]]]}"#);
    assert_eq!(
        read_registry(BootstrapKind::ObjectTags, &doc).unwrap(),
        vec![
            BootstrapRecord { key: BootstrapKey::Tag("ARIN".to_string()), url: "https://tags.example/".to_string() },
            BootstrapRecord { key: BootstrapKey::Tag("RIPE".to_string()), url: "https://ripe.example/".to_string() },
        ]
    );
}

#[test]
fn what_is_no_registry_fails() {
    for text in ["[]", "{}", r#"{"services": {}}"#, r#"{"services": "x"}"#, "null"] {
        assert_eq!(read_registry(BootstrapKind::Dns, &parse(text)), Err(BootstrapError::NoServices), "{text}");
    }
    for text in [
        r#"{"services": [[["com"]]]}"#,
        r#"{"services": ["com"]}"#,
        r#"{"services": [[["com"], "https://x/"]]}"#,
        r#"{"services": [[["com", 1], ["https://x/"]]]}"#,
        r#"{"services": [[["a"], ["com"], ["https://x/"]]]}"#,
        r#"{"services": [[["com"], ["https://x/"]], [[], [], [], []]]}"#,
    ] {
        assert_eq!(read_registry(BootstrapKind::Dns, &parse(text)), Err(BootstrapError::BadEntry), "{text}");
    }
    for key in ["800-700", "x", "1-2-3", "4294967296", "-1", "07", ""] {
        let doc = parse(&format!(r#"{{"services": [[["1", "{key}"], ["https://x/"]]]}}"#));
        assert_eq!(read_registry(BootstrapKind::Asn, &doc), Err(BootstrapError::BadKey), "{key:?}");
    }
    for key in ["10.0.0.0", "10.0.0.0/33", "10.0.0.9-10.0.0.1", "10.0.0.1-::1", "x", ""] {
        let doc = parse(&format!(r#"{{"services": [[["{key}"], ["https://x/"]]]}}"#));
        assert_eq!(read_registry(BootstrapKind::Ip, &doc), Err(BootstrapError::BadKey), "{key:?}");
    }
    // a key is not looked at where there is no URL for it
    let doc = parse(r#"{"services": [[["x"], []]]}"#);
    assert_eq!(read_registry(BootstrapKind::Asn, &doc), Ok(vec![]));
}

#[test]
fn loaded_registries_redirect() {
    let mut mem = Mem::new();
    let mut tx = mem.new_tx();
    let dns = parse(r#"{"services": [[["example", "com"], ["https://example.net/"]]]}"#);
    assert_eq!(load_registry(&mut tx, BootstrapKind::Dns, &dns), Ok(2));
    let ip = parse(r#"{"services": [[["10.0.0.0/8"], ["https://a.net/"]], [["10.1.0.0/16", "192.0.2.0-192.0.2.255"], ["https://b.net/"]]]}"#);
    assert_eq!(load_registry(&mut tx, BootstrapKind::Ip, &ip), Ok(3));
    let asn = parse(r#"{"services": [[["700-800"], ["https://c.net/"]]]}"#);
    assert_eq!(load_registry(&mut tx, BootstrapKind::Asn, &asn), Ok(1));
    let tags = parse(r#"{"services": [[["a@example.com"], ["ARIN"], ["https://d.net/"]]]}"#);
    assert_eq!(load_registry(&mut tx, BootstrapKind::ObjectTags, &tags), Ok(1));
    let bad = parse(r#"{"services": [[["1"], ["https://e.net/"]], [["x"], ["https://e.net/"]]]}"#);
    assert_eq!(load_registry(&mut tx, BootstrapKind::Asn, &bad), Err(BootstrapError::BadKey));
    mem.commit(tx);
    let at = |path: &str| route(mem.data(), path).location;
    assert_eq!(at("/domain/foo.example").as_deref(), Some("https://example.net/domain/foo.example"));
    assert_eq!(at("/nameserver/ns.foo.com").as_deref(), Some("https://example.net/nameserver/ns.foo.com"));
    assert_eq!(at("/ip/10.1.2.3").as_deref(), Some("https://b.net/ip/10.1.2.3"));
    assert_eq!(at("/ip/10.2.2.3").as_deref(), Some("https://a.net/ip/10.2.2.3"));
    assert_eq!(at("/ip/192.0.2.77").as_deref(), Some("https://b.net/ip/192.0.2.77"));
    assert_eq!(at("/autnum/AS710").as_deref(), Some("https://c.net/autnum/710"));
    assert_eq!(at("/entity/foo-arin").as_deref(), Some("https://d.net/entity/foo-arin"));
    // nothing of the registry that failed was stored
    assert_eq!(route(mem.data(), "/autnum/1").status, 404);
    assert_eq!(route(mem.data(), "/domain/foo.org").status, 404);
}

#[test]
fn records_are_stored_one_by_one() {
    let mut mem = Mem::new();
    let mut tx = mem.new_tx();
    insert(&mut tx, &BootstrapRecord { key: BootstrapKey::Tag("RIPE".to_string()), url: "https://ripe.example/".to_string() });
    load(
        &mut tx,
        &vec![
            BootstrapRecord { key: BootstrapKey::Domain("org".to_string()), url: "https://one.example/".to_string() },
            BootstrapRecord { key: BootstrapKey::Domain("org".to_string()), url: "https://two.example/".to_string() },
        ],
    );
    mem.commit(tx);
    assert_eq!(
        route(mem.data(), "/entity/X-ripe").location.as_deref(),
        Some("https://ripe.example/entity/X-ripe")
    );
    assert_eq!(
        route(mem.data(), "/domain/example.org").location.as_deref(),
        Some("https://two.example/domain/example.org")
    );
}
