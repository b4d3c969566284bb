use rdap_core::client::{start, step, Action, ClientConfig, ClientError, Event};
use rdap_core::decode::{discriminate, DecodeError, SchemaErrorKind};
use rdap_core::check::RdapStructure;
use rdap_core::ip::IpAddr;
use rdap_core::json::{get_member, json_eq, Json, JsonNumber};
use rdap_core::query::{QueryError, QueryType};
use rdap_core::router::{location, parse_path, RouteError};

fn text(s: &str) -> Json {
    Json::String(s.to_string())
}

fn whole(kind: SchemaErrorKind) -> DecodeError {
    DecodeError::SchemaError { path: vec![], kind }
}

fn object(members: Vec<(&str, Json)>) -> Json {
    Json::Object(members.into_iter().map(|(k, v)| (k.to_string(), v)).collect())
}

#[test]
fn domain_queries() {
    assert_eq!(QueryType::domain("Foo.Example"), Ok(QueryType::Domain("foo.example".to_string())));
    assert_eq!(QueryType::domain("example."), Ok(QueryType::Domain("example.".to_string())));
    assert_eq!(QueryType::ns("NS1.example"), Ok(QueryType::ANameserver("ns1.example".to_string())));
    let label63 = "a".repeat(63);
    let label64 = "a".repeat(64);
    assert!(QueryType::domain(&format!("{label63}.example")).is_ok());
    assert_eq!(
        QueryType::domain(&format!("{label64}.example")),
        Err(QueryError::InvalidDomainName)
    );
    let long = format!("{}.{}.{}.{}", label63, label63, label63, "a".repeat(61));
    assert_eq!(long.len(), 253);
    assert!(QueryType::domain(&long).is_ok());
    let longer = format!("{}.{}.{}.{}", label63, label63, label63, "a".repeat(62));
    assert_eq!(QueryType::domain(&longer), Err(QueryError::InvalidDomainName));
    for bad in ["", "foo_bar.example", "foo..example", ".example", "fóo.example", "foo example"] {
        assert_eq!(QueryType::domain(bad), Err(QueryError::InvalidDomainName), "{bad:?}");
        assert_eq!(QueryType::ns(bad), Err(QueryError::InvalidDomainName), "{bad:?}");
    }
}

#[test]
fn autnum_queries() {
    for (input, n) in [("AS710", 710u32), ("as710", 710), ("As0", 0), ("aS007", 7), ("710", 710),
        ("4294967295", u32::MAX), ("AS4294967295", u32::MAX)]
    {
        assert_eq!(QueryType::autnum(input), Ok(QueryType::AutNum(n)), "{input:?}");
    }
    for bad in ["", "AS", "A710", "AS-1", "AS 1", "4294967296", "ASAS1", "AS1x", "+1"] {
        assert_eq!(QueryType::autnum(bad), Err(QueryError::InvalidAutnum), "{bad:?}");
    }
}

#[test]
fn ip_queries_must_be_of_their_family() {
    assert!(matches!(QueryType::ipv4("10.1.2.3"), Ok(QueryType::IpV4Addr(q)) if q.addr == IpAddr::V4(0x0a010203) && q.text == "10.1.2.3"));
    assert_eq!(QueryType::ipv4("::1"), Err(QueryError::InvalidIpAddress));
    assert_eq!(QueryType::ipv4("10.1.2"), Err(QueryError::InvalidIpAddress));
    assert!(matches!(QueryType::ipv6("2001:DB8::1"), Ok(QueryType::IpV6Addr(q)) if q.text == "2001:DB8::1"));
    assert_eq!(QueryType::ipv6("10.1.2.3"), Err(QueryError::InvalidIpAddress));
    assert!(matches!(QueryType::ipv4cidr("10.0.0.0/8"), Ok(QueryType::IpV4Cidr(q)) if q.cidr.prefix_len == 8));
    assert_eq!(QueryType::ipv4cidr("2001:db8::/32"), Err(QueryError::InvalidCidr));
    assert_eq!(QueryType::ipv4cidr("10.0.0.0/33"), Err(QueryError::InvalidCidr));
    assert_eq!(QueryType::ipv4cidr("10.0.0.0"), Err(QueryError::InvalidCidr));
    assert!(matches!(QueryType::ipv6cidr("2001:db8::/32"), Ok(QueryType::IpV6Cidr(q)) if q.cidr.prefix_len == 32));
    assert_eq!(QueryType::ipv6cidr("10.0.0.0/8"), Err(QueryError::InvalidCidr));
}

#[test]
fn paths_and_urls() {
    let cases: Vec<(QueryType, &str)> = vec![
        (QueryType::domain("Foo.Example").unwrap(), "domain/foo.example"),
        (QueryType::ns("ns.foo.example").unwrap(), "nameserver/ns.foo.example"),
        (QueryType::Entity("foo-ARIN".to_string()), "entity/foo-ARIN"),
        (QueryType::autnum("AS710").unwrap(), "autnum/710"),
        (QueryType::ipv4("10.1.2.3").unwrap(), "ip/10.1.2.3"),
        (QueryType::ipv6("2001:db8::1").unwrap(), "ip/2001:db8::1"),
        (QueryType::ipv4cidr("10.0.0.0/8").unwrap(), "ip/10.0.0.0/8"),
        (QueryType::ipv6cidr("2001:db8::/32").unwrap(), "ip/2001:db8::/32"),
        (QueryType::Help, "help"),
        (QueryType::DomainNameSearch("foo*.example".to_string()), "domains?name=foo*.example"),
        (QueryType::NameserverNameSearch("ns*".to_string()), "nameservers?name=ns*"),
        (QueryType::Nameservers("192.0.2.1".to_string()), "nameservers?ip=192.0.2.1"),
        (QueryType::EntityNameSearch("Bob".to_string()), "entities?fn=Bob"),
        (QueryType::EntityHandleSearch("B*".to_string()), "entities?handle=B*"),
    ];
    for (query, path) in &cases {
        assert_eq!(&query.path(), path);
        assert_eq!(query.query_url("https://example.net"), format!("https://example.net/{path}"));
        assert_eq!(query.query_url("https://example.net/"), format!("https://example.net/{path}"));
        assert_eq!(
            query.query_url("https://example.net/rdap//"),
            format!("https://example.net/rdap/{path}")
        );
    }
    let url = QueryType::Url("https://example.org/x".to_string());
    assert_eq!(url.query_url("https://example.net"), "https://example.org/x");
    assert_eq!(url.path(), "https://example.org/x");
    assert_eq!(QueryType::Help.query_url(""), "/help");
}

#[test]
fn request_paths() {
    assert_eq!(parse_path("/domain/Foo.Example"), Ok(QueryType::Domain("foo.example".to_string())));
    assert_eq!(parse_path("/entity/a/b"), Ok(QueryType::Entity("a/b".to_string())));
    assert_eq!(parse_path("/autnum/as12"), Ok(QueryType::AutNum(12)));
    assert!(matches!(parse_path("/ip/10.0.0.0/8"), Ok(QueryType::IpV4Cidr(_))));
    assert!(matches!(parse_path("/ip/2001:db8::/32"), Ok(QueryType::IpV6Cidr(_))));
    assert!(matches!(parse_path("/ip/::"), Ok(QueryType::IpV6Addr(_))));
    assert_eq!(parse_path("domain/foo"), Err(RouteError::BadRequest));
    assert_eq!(parse_path(""), Err(RouteError::BadRequest));
    assert_eq!(parse_path("/domain"), Err(RouteError::BadRequest));
    assert_eq!(parse_path("/Domain/foo"), Err(RouteError::NotImplemented));
    assert_eq!(parse_path("/help"), Err(RouteError::NotImplemented));
    assert_eq!(parse_path("//domain/foo"), Err(RouteError::NotImplemented));
}

#[test]
fn redirect_locations() {
    assert_eq!(
        location("https://example.net/", "/domain/foo.example"),
        "https://example.net/domain/foo.example"
    );
    assert_eq!(
        location("https://example.net", "/domain/foo.example"),
        "https://example.net/domain/foo.example"
    );
    assert_eq!(
        location("https://example.net/rdap//", "/ip/10.0.0.0/8"),
        "https://example.net/rdap/ip/10.0.0.0/8"
    );
    // a URL that holds the path already stands as it is
    assert_eq!(
        location("https://example.net//x/domain/foo.example", "/domain/foo.example"),
        "https://example.net//x/domain/foo.example"
    );
    // nothing in the authority is touched
    assert_eq!(location("https://", "//a//b"), "https:///a/b");
    assert_eq!(location("example.net//", "/x"), "example.net/x");
    assert_eq!(location("a://b://c//", "/x"), "a://b:/c/x");
    assert_eq!(location("", ""), "");
}

#[test]
fn the_client_follows_redirects_within_bounds() {
    let config = ClientConfig { https_only: false, max_redirects: 2, ..ClientConfig::default() };
    let query = QueryType::domain("foo.example").unwrap();
    let (mut state, url) = start(&config, "http://a.example/", &query).unwrap();
    assert_eq!(url, "http://a.example/domain/foo.example");
    let redirect = |to: &str| Event::Response { status: 302, location: Some(to.to_string()) };
    assert_eq!(step(&config, &mut state, &redirect("http://b.example/x")), Action::Send("http://b.example/x".to_string()));
    // back to where it began: a loop
    assert_eq!(
        step(&config, &mut state, &redirect("http://a.example/domain/foo.example")),
        Action::Fail(ClientError::RedirectLoop)
    );
    assert_eq!(step(&config, &mut state, &redirect("http://b.example/x")), Action::Fail(ClientError::RedirectLoop));
    assert_eq!(step(&config, &mut state, &redirect("http://c.example/x")), Action::Send("http://c.example/x".to_string()));
    // the third redirect is one too many
    assert_eq!(step(&config, &mut state, &redirect("http://d.example/x")), Action::Fail(ClientError::TooManyRedirects));
    // what is no redirect is delivered
    assert_eq!(step(&config, &mut state, &Event::Response { status: 200, location: None }), Action::Deliver);
    assert_eq!(step(&config, &mut state, &Event::Response { status: 404, location: Some("http://e.example/".to_string()) }), Action::Deliver);
    assert_eq!(step(&config, &mut state, &Event::Response { status: 302, location: None }), Action::Deliver);
    assert_eq!(step(&config, &mut state, &Event::TransportFailure), Action::Fail(ClientError::Transport));
    assert_eq!(step(&config, &mut state, &Event::TimedOut), Action::Fail(ClientError::Timeout));
}

#[test]
fn the_client_config() {
    let config = ClientConfig::default();
    assert!(config.https_only && config.follow_redirects);
    assert_eq!(config.max_redirects, 5);
    let query = QueryType::Help;
    assert_eq!(start(&config, "http://a.example", &query), Err(ClientError::HttpsRequired));
    assert_eq!(start(&config, "HTTPS://a.example", &query), Err(ClientError::HttpsRequired));
    let (mut state, url) = start(&config, "https://a.example", &query).unwrap();
    assert_eq!(url, "https://a.example/help");
    let to_http = Event::Response { status: 301, location: Some("http://a.example/help".to_string()) };
    assert_eq!(step(&config, &mut state, &to_http), Action::Fail(ClientError::HttpsRequired));
    // redirects that are not followed are delivered
    let config = ClientConfig { follow_redirects: false, ..ClientConfig::default() };
    let to_https = Event::Response { status: 301, location: Some("https://b.example/help".to_string()) };
    assert_eq!(step(&config, &mut state, &to_https), Action::Deliver);
    // five redirects are followed, the sixth is not
    let config = ClientConfig::default();
    let (mut state, _) = start(&config, "https://a.example", &query).unwrap();
    for i in 0..5 {
        let to = format!("https://a.example/{i}");
        let e = Event::Response { status: 307, location: Some(to.clone()) };
        assert_eq!(step(&config, &mut state, &e), Action::Send(to));
    }
    let e = Event::Response { status: 307, location: Some("https://a.example/5".to_string()) };
    assert_eq!(step(&config, &mut state, &e), Action::Fail(ClientError::TooManyRedirects));
}

#[test]
fn kinds_of_responses() {
    let class = |name: &str| object(vec![("handle", text("x")), ("objectClassName", text(name))]);
    assert_eq!(discriminate(&class("domain")), Ok(RdapStructure::Domain));
    assert_eq!(discriminate(&class("nameserver")), Ok(RdapStructure::Nameserver));
    assert_eq!(discriminate(&class("entity")), Ok(RdapStructure::Entity));
    assert_eq!(discriminate(&class("autnum")), Ok(RdapStructure::Autnum));
    assert_eq!(discriminate(&class("ip network")), Ok(RdapStructure::Network));
    assert_eq!(discriminate(&class("Domain")), Err(DecodeError::UnknownObjectClass));
    assert_eq!(discriminate(&class("network")), Err(DecodeError::UnknownObjectClass));
    assert_eq!(
        discriminate(&object(vec![("objectClassName", Json::Null), ("errorCode", Json::Null)])),
        Err(DecodeError::UnknownObjectClass)
    );
    let n = Json::Number(JsonNumber::PosInt(404));
    assert_eq!(discriminate(&object(vec![("errorCode", n.clone())])), Ok(RdapStructure::Error));
    assert_eq!(
        discriminate(&object(vec![("notices", Json::Array(vec![])), ("errorCode", n)])),
        Ok(RdapStructure::Error)
    );
    assert_eq!(
        discriminate(&object(vec![("rdapConformance", Json::Array(vec![])), ("notices", Json::Array(vec![]))])),
        Ok(RdapStructure::Help)
    );
    assert_eq!(
        discriminate(&object(vec![("notices", Json::Array(vec![])), ("domainSearchResults", Json::Array(vec![]))])),
        Ok(RdapStructure::DomainSearchResults)
    );
    assert_eq!(
        discriminate(&object(vec![("nameserverSearchResults", Json::Array(vec![]))])),
        Ok(RdapStructure::NameserverSearchResults)
    );
    assert_eq!(
        discriminate(&object(vec![("entitySearchResults", Json::Array(vec![]))])),
        Ok(RdapStructure::EntitySearchResults)
    );
    assert_eq!(
        discriminate(&object(vec![("entitySearchResults", text("x"))])),
        Err(whole(SchemaErrorKind::NoKnownShape))
    );
    assert_eq!(
        discriminate(&object(vec![("notices", Json::Array(vec![])), ("handle", text("x"))])),
        Err(whole(SchemaErrorKind::NoKnownShape))
    );
    assert_eq!(discriminate(&object(vec![])), Err(whole(SchemaErrorKind::NoKnownShape)));
    assert_eq!(discriminate(&Json::Array(vec![])), Err(whole(SchemaErrorKind::NotAnObject)));
    assert_eq!(discriminate(&Json::Null), Err(whole(SchemaErrorKind::NotAnObject)));
}

#[test]
fn documents() {
    let a = object(vec![("a", Json::Array(vec![text("x"), Json::Null])), ("b", Json::Bool(true))]);
    let b = a.clone();
    assert!(json_eq(&a, &b));
    assert_eq!(a, b);
    let c = object(vec![("b", Json::Bool(true)), ("a", Json::Array(vec![text("x"), Json::Null]))]);
    assert_ne!(a, c);
    assert_ne!(a, object(vec![("a", Json::Array(vec![text("x")])), ("b", Json::Bool(true))]));
    assert_ne!(Json::Number(JsonNumber::PosInt(1)), Json::Number(JsonNumber::NegInt(-1)));
    if let Json::Object(members) = &a {
        assert_eq!(get_member(members, "b"), Some(&Json::Bool(true)));
        assert_eq!(get_member(members, "c"), None);
    }
    let twice = vec![("k".to_string(), text("first")), ("k".to_string(), text("second"))];
    assert_eq!(get_member(&twice, "k"), Some(&text("first")));
}
