#![allow(non_snake_case)]

use rdap_core::ip::{parse_cidr, parse_ip, Cidr, IpAddr};
use rdap_core::query::QueryType;
use rdap_core::response::{Autnum, Common, Domain, Entity, Network, Rfc9083Error};
use rdap_core::router::{route, route_query, Body, Response, RDAP_MEDIA_TYPE};
use rdap_core::storage::data::{
    AutnumId, DomainId, EntityId, NameserverId, NetworkId, NetworkIdType,
};
use rdap_core::storage::keys::fall_through;
use rdap_core::storage::mem::{Lookup, Mem};

fn domain_id(ldh: &str) -> DomainId {
    DomainId { ldh_name: ldh.to_string(), unicode_name: None }
}

fn cidr_id(text: &str) -> NetworkId {
    NetworkId { network_id: NetworkIdType::Cidr(parse_cidr(text).expect("parsing ipnet")) }
}

fn redirect(url: &str) -> Rfc9083Error {
    Rfc9083Error::redirect(url.to_string())
}

fn domain(ldh: &str) -> Domain {
    Domain {
        common: Common::empty(),
        ldh_name: Some(ldh.to_string()),
        unicode_name: None,
        nameservers: None,
        secure_dns: None,
        entities: None,
        network: None,
    }
}

fn autnum() -> Autnum {
    Autnum { common: Common::empty(), start_autnum: None, end_autnum: None, entities: None }
}

fn network(start: &str) -> Network {
    Network {
        common: Common::empty(),
        start_address: Some(start.to_string()),
        end_address: None,
        ip_version: None,
        cidr0_cidrs: None,
        entities: None,
    }
}

fn entity(handle: &str) -> Entity {
    Entity {
        common: Common::empty(),
        handle: Some(handle.to_string()),
        roles: None,
        public_ids: None,
        vcard_array: None,
        entities: None,
    }
}

fn is_redirect(response: &Response) -> bool {
    match &response.body {
        Body::Error(e) => e.is_redirect(),
        _ => false,
    }
}

fn not_404<'a>(response: Response<'a>) -> Result<Response<'a>, u16> {
    if response.status == 404 {
        Err(404)
    } else {
        Ok(response)
    }
}

#[test]
fn GIVEN_bootstrap_with_less_specific_domain_WHEN_query_domain_THEN_status_code_is_redirect() {
    // GIVEN
    let mut mem = Mem::new();
    let mut tx = mem.new_tx();
    tx.add_domain_err(&domain_id("example"), redirect("https://example.net/"));
    mem.commit(tx);

    // WHEN
    let query = QueryType::domain("foo.example").expect("invalid domain name");
    let response = route_query(mem.data(), &query);

    // THEN
    assert!(is_redirect(&response));
    assert_eq!(response.status, 302);
    assert_eq!(
        response.location.as_ref().expect("no location header information"),
        "https://example.net/domain/foo.example"
    );
}

#[test]
#[should_panic]
fn GIVEN_bootstrap_with_no_less_specific_domain_WHEN_query_domain_THEN_should_panic() {
    // GIVEN
    let mut mem = Mem::new();
    let mut tx = mem.new_tx();
    tx.add_domain_err(&domain_id("no_example"), redirect("https://example.net"));
    mem.commit(tx);

    // WHEN
    let query = QueryType::domain("foo.example").expect("invalid domain name");
    let response = not_404(route_query(mem.data(), &query));

    // THEN
    response.expect("this should be a 404"); // SHOULD PANIC
}

#[test]
fn GIVEN_bootstrap_with_less_specific_ns_WHEN_query_ns_THEN_status_code_is_redirect() {
    // GIVEN
    let mut mem = Mem::new();
    let mut tx = mem.new_tx();
    tx.add_domain_err(&domain_id("example"), redirect("https://example.net/"));
    mem.commit(tx);

    // WHEN
    let query = QueryType::ns("ns.foo.example").expect("invalid nameserver");
    let response = route_query(mem.data(), &query);

    // THEN
    assert!(is_redirect(&response));
    assert_eq!(
        response.location.as_ref().expect("no location header information"),
        "https://example.net/nameserver/ns.foo.example"
    );
}

#[test]
#[should_panic]
fn GIVEN_bootstrap_with_no_less_specific_ns_WHEN_query_ns_THEN_should_panic() {
    // GIVEN
    let mut mem = Mem::new();
    let mut tx = mem.new_tx();
    tx.add_domain_err(&domain_id("no_example"), redirect("https://example.net"));
    mem.commit(tx);

    // WHEN
    let query = QueryType::ns("ns.foo.example").expect("invalid nameserver");
    let response = not_404(route_query(mem.data(), &query));

    // THEN
    response.expect("this should be a 404"); // SHOULD PANIC
}

#[test]
fn GIVEN_bootstrap_with_less_specific_ip_WHEN_query_ip_THEN_status_code_is_redirect() {
    // GIVEN
    let mut mem = Mem::new();
    let mut tx = mem.new_tx();
    assert!(tx.add_network_err(&cidr_id("10.0.0.0/8"), redirect("https://example.net/")));
    mem.commit(tx);

    // WHEN
    let query = QueryType::ipv4cidr("10.0.0.0/24").expect("invalid CIDR");
    let response = route_query(mem.data(), &query);

    // THEN
    assert!(is_redirect(&response));
    assert_eq!(
        response.location.as_ref().expect("no location header information"),
        "https://example.net/ip/10.0.0.0/24"
    );
}

#[test]
#[should_panic]
fn GIVEN_bootstrap_with_no_less_specific_ip_WHEN_query_ip_THEN_should_panic() {
    // GIVEN
    let mut mem = Mem::new();
    let mut tx = mem.new_tx();
    assert!(tx.add_network_err(&cidr_id("10.0.0.0/8"), redirect("https://example.net")));
    mem.commit(tx);

    // WHEN
    let query = QueryType::ipv4cidr("11.0.0.0/24").expect("invalid CIDR");
    let response = not_404(route_query(mem.data(), &query));

    // THEN
    response.expect("this should be 404"); // SHOULD PANIC
}

#[test]
fn GIVEN_bootstrap_with_less_specific_autnum_WHEN_query_autnum_THEN_status_code_is_redirect() {
    // GIVEN
    let mut mem = Mem::new();
    let mut tx = mem.new_tx();
    tx.add_autnum_err(
        &AutnumId { start_autnum: 700, end_autnum: 800 },
        redirect("https://example.net/"),
    );
    mem.commit(tx);

    // WHEN
    let query = QueryType::autnum("AS710").expect("invalid autnum");
    let response = route_query(mem.data(), &query);

    // THEN
    assert!(is_redirect(&response));
    assert_eq!(
        response.location.as_ref().expect("no location header information"),
        "https://example.net/autnum/710"
    );
}

#[test]
#[should_panic]
fn GIVEN_bootstrap_with_no_less_specific_autnum_WHEN_query_autnum_THEN_should_panic() {
    // GIVEN
    let mut mem = Mem::new();
    let mut tx = mem.new_tx();
    tx.add_autnum_err(
        &AutnumId { start_autnum: 700, end_autnum: 800 },
        redirect("https://example.net"),
    );
    mem.commit(tx);

    // WHEN
    let query = QueryType::autnum("AS1000").expect("invalid autnum");
    let response = not_404(route_query(mem.data(), &query));

    // THEN
    response.expect("this should be 404"); // SHOULD PANIC
}

#[test]
fn GIVEN_bootstrap_with_specific_tag_WHEN_query_entity_THEN_status_code_is_redirect() {
    // GIVEN
    let mut mem = Mem::new();
    let mut tx = mem.new_tx();
    tx.add_entity_err(&EntityId { handle: "-ARIN".to_string() }, redirect("https://example.net/"));
    mem.commit(tx);

    // WHEN
    let query = QueryType::Entity("foo-ARIN".to_string());
    let response = route_query(mem.data(), &query);

    // THEN
    assert!(is_redirect(&response));
    assert_eq!(
        response.location.as_ref().expect("no location header information"),
        "https://example.net/entity/foo-ARIN"
    );
}

#[test]
fn GIVEN_bootstrap_with_specific_tag_lowercase_WHEN_query_entity_THEN_status_code_is_redirect() {
    // GIVEN
    let mut mem = Mem::new();
    let mut tx = mem.new_tx();
    tx.add_entity_err(&EntityId { handle: "-ARIN".to_string() }, redirect("https://example.net/"));
    mem.commit(tx);

    // WHEN
    let query = QueryType::Entity("foo-arin".to_string());
    let response = route_query(mem.data(), &query);

    // THEN
    assert!(is_redirect(&response));
    assert_eq!(
        response.location.as_ref().expect("no location header information"),
        "https://example.net/entity/foo-arin"
    );
}

#[test]
#[should_panic]
fn GIVEN_bootstrap_with_no_specific_tag_WHEN_query_entity_THEN_should_panic() {
    // GIVEN
    let mut mem = Mem::new();
    let mut tx = mem.new_tx();
    tx.add_entity_err(&EntityId { handle: "-CLAUCA".to_string() }, redirect("https://example.net"));
    mem.commit(tx);

    // WHEN
    let query = QueryType::Entity("foo-arin".to_string());
    let response = not_404(route_query(mem.data(), &query));

    // THEN
    response.expect("this should be 404"); // SHOULD PANIC
}

#[test]
fn domain_redirect_by_request_path() {
    let mut mem = Mem::new();
    let mut tx = mem.new_tx();
    tx.add_domain_err(&domain_id("example"), redirect("https://example.net/"));
    mem.commit(tx);
    let response = route(mem.data(), "/domain/foo.example");
    assert_eq!(response.status, 302);
    assert_eq!(response.location.as_deref(), Some("https://example.net/domain/foo.example"));
    match &response.body {
        Body::Error(e) => {
            assert_eq!(e.error_code, 302);
            assert_eq!(
                e.redirect_url().map(|u| u.as_str()),
                Some("https://example.net/domain/foo.example")
            );
        }
        _ => panic!("a redirect carries an error body"),
    }
    assert_eq!(RDAP_MEDIA_TYPE, "application/rdap+json");
}

#[test]
fn no_less_specific_domain_is_404() {
    let mut mem = Mem::new();
    let mut tx = mem.new_tx();
    tx.add_domain_err(&domain_id("no_example"), redirect("https://example.net/"));
    mem.commit(tx);
    let response = route(mem.data(), "/domain/foo.example");
    assert_eq!(response.status, 404);
    assert!(response.location.is_none());
    match &response.body {
        Body::Error(e) => assert_eq!(e.error_code, 404),
        _ => panic!("a miss carries an error body"),
    }
}

#[test]
fn cidr_most_specific() {
    let mut mem = Mem::new();
    let mut tx = mem.new_tx();
    assert!(tx.add_network_err(&cidr_id("10.1.0.0/16"), redirect("https://b.net/")));
    assert!(tx.add_network_err(&cidr_id("10.0.0.0/8"), redirect("https://a.net/")));
    mem.commit(tx);
    let response = route(mem.data(), "/ip/10.1.2.3");
    assert_eq!(response.status, 302);
    assert_eq!(response.location.as_deref(), Some("https://b.net/ip/10.1.2.3"));
    let response = route(mem.data(), "/ip/10.2.2.3");
    assert_eq!(response.location.as_deref(), Some("https://a.net/ip/10.2.2.3"));
    let response = route(mem.data(), "/ip/11.2.2.3");
    assert_eq!(response.status, 404);
    // a block asked for is answered by the longest prefix that holds all of it
    let response = route(mem.data(), "/ip/10.1.0.0/12");
    assert_eq!(response.location.as_deref(), Some("https://a.net/ip/10.1.0.0/12"));
    let response = route(mem.data(), "/ip/10.1.128.0/17");
    assert_eq!(response.location.as_deref(), Some("https://b.net/ip/10.1.128.0/17"));
}

#[test]
fn autnum_range() {
    let mut mem = Mem::new();
    let mut tx = mem.new_tx();
    tx.add_autnum_err(&AutnumId { start_autnum: 700, end_autnum: 800 }, redirect("https://c.net/"));
    mem.commit(tx);
    let response = route(mem.data(), "/autnum/AS710");
    assert_eq!(response.status, 302);
    assert_eq!(response.location.as_deref(), Some("https://c.net/autnum/710"));
    assert_eq!(route(mem.data(), "/autnum/AS1000").status, 404);
    assert_eq!(route(mem.data(), "/autnum/700").status, 302);
    assert_eq!(route(mem.data(), "/autnum/800").status, 302);
    assert_eq!(route(mem.data(), "/autnum/801").status, 404);
    assert_eq!(route(mem.data(), "/autnum/699").status, 404);
}

#[test]
fn autnum_narrowest_range_wins_and_ties_go_to_the_latest() {
    let mut mem = Mem::new();
    let mut tx = mem.new_tx();
    tx.add_autnum_err(&AutnumId { start_autnum: 5, end_autnum: 14 }, redirect("https://five/"));
    tx.add_autnum_err(&AutnumId { start_autnum: 0, end_autnum: 100 }, redirect("https://wide/"));
    tx.add_autnum_err(&AutnumId { start_autnum: 1, end_autnum: 10 }, redirect("https://one/"));
    mem.commit(tx);
    assert_eq!(route(mem.data(), "/autnum/50").location.as_deref(), Some("https://wide/autnum/50"));
    assert_eq!(route(mem.data(), "/autnum/3").location.as_deref(), Some("https://one/autnum/3"));
    assert_eq!(route(mem.data(), "/autnum/12").location.as_deref(), Some("https://five/autnum/12"));
    // both ranges of width nine hold 7: the one added last answers
    assert_eq!(route(mem.data(), "/autnum/7").location.as_deref(), Some("https://one/autnum/7"));
}

#[test]
fn entity_tag_case_insensitive() {
    let mut mem = Mem::new();
    let mut tx = mem.new_tx();
    tx.add_entity_err(&EntityId { handle: "-ARIN".to_string() }, redirect("https://d.net/"));
    mem.commit(tx);
    assert_eq!(
        route(mem.data(), "/entity/foo-ARIN").location.as_deref(),
        Some("https://d.net/entity/foo-ARIN")
    );
    assert_eq!(
        route(mem.data(), "/entity/foo-arin").location.as_deref(),
        Some("https://d.net/entity/foo-arin")
    );
    assert_eq!(
        route(mem.data(), "/entity/a-b-Arin").location.as_deref(),
        Some("https://d.net/entity/a-b-Arin")
    );
    // no tag, or another tag: nothing answers
    assert_eq!(route(mem.data(), "/entity/fooARIN").status, 404);
    assert_eq!(route(mem.data(), "/entity/foo-ARIN2").status, 404);
    assert_eq!(route(mem.data(), "/entity/ARIN").status, 404);
}

#[test]
fn exact_handle_beats_tag() {
    let mut mem = Mem::new();
    let mut tx = mem.new_tx();
    tx.add_entity(&EntityId { handle: "foo-ARIN".to_string() }, entity("foo-ARIN"));
    tx.add_entity_err(&EntityId { handle: "-ARIN".to_string() }, redirect("https://d.net/"));
    mem.commit(tx);
    let response = route(mem.data(), "/entity/foo-ARIN");
    assert_eq!(response.status, 200);
    match response.body {
        Body::Entity(e) => assert_eq!(e.handle.as_deref(), Some("foo-ARIN")),
        _ => panic!("the entity itself answers"),
    }
    // handles are compared as they are, tags without regard to case
    assert_eq!(route(mem.data(), "/entity/foo-arin").status, 302);
}

#[test]
fn result_precedence() {
    let mut mem = Mem::new();
    let mut tx = mem.new_tx();
    // at one key the record answers, whichever came first
    tx.add_domain(&domain_id("example"), domain("example"));
    tx.add_domain_err(&domain_id("example"), redirect("https://less/"));
    // a more specific error answers before a less specific record
    tx.add_domain_err(&domain_id("bar.example"), redirect("https://more/"));
    mem.commit(tx);
    assert_eq!(route(mem.data(), "/domain/foo.example").status, 200);
    assert_eq!(route(mem.data(), "/domain/example").status, 200);
    let response = route(mem.data(), "/domain/www.bar.example");
    assert_eq!(response.location.as_deref(), Some("https://more/domain/www.bar.example"));
    // a suffix must end at a label
    assert_eq!(route(mem.data(), "/domain/foobar.example").status, 200);
    assert_eq!(route(mem.data(), "/domain/notexample").status, 404);
}

#[test]
fn root_entry_covers_every_name() {
    let mut mem = Mem::new();
    let mut tx = mem.new_tx();
    tx.add_domain_err(&domain_id(""), redirect("https://root/"));
    tx.add_domain_err(&domain_id("com"), redirect("https://com/"));
    mem.commit(tx);
    assert_eq!(
        route(mem.data(), "/domain/example.org").location.as_deref(),
        Some("https://root/domain/example.org")
    );
    assert_eq!(
        route(mem.data(), "/domain/example.com").location.as_deref(),
        Some("https://com/domain/example.com")
    );
}

#[test]
fn stored_error_that_is_no_redirect_answers_as_not_found() {
    let mut mem = Mem::new();
    let mut tx = mem.new_tx();
    tx.add_domain_err(&domain_id("example"), Rfc9083Error::error(404));
    mem.commit(tx);
    assert_eq!(route(mem.data(), "/domain/foo.example").status, 404);
}

#[test]
fn bad_requests_and_unsupported_paths() {
    let mem = Mem::new();
    for path in [
        "", "domain/foo", "/domain", "/domain/", "/domain/foo_bar", "/domain/a..b", "/entity/",
        "/autnum/ASX", "/autnum/4294967296", "/autnum/", "/ip/10.0.0.256", "/ip/10.0.0.0/33",
        "/ip/::1/129", "/ip/", "/nameserver/x y", "/ip/1.2.3",
    ] {
        assert_eq!(route(mem.data(), path).status, 400, "{path:?}");
    }
    for path in ["/", "/help", "/domains?name=foo", "/foo/bar", "/entities?fn=x", "/ips/1.2.3.4"] {
        assert_eq!(route(mem.data(), path).status, 501, "{path:?}");
    }
    assert_eq!(route(mem.data(), "/autnum/4294967295").status, 404);
    assert_eq!(route(mem.data(), "/domain/Foo.Example").status, 404);
    assert_eq!(route_query(mem.data(), &QueryType::Help).status, 501);
    assert_eq!(route_query(mem.data(), &QueryType::Url("https://x/".to_string())).status, 501);
}

#[test]
fn transaction_is_isolated_until_commit_and_rollback_leaves_no_trace() {
    let mut mem = Mem::new();
    let before = mem.snapshot();
    let mut tx = mem.new_tx();
    tx.add_autnum(&AutnumId { start_autnum: 1, end_autnum: 2 }, autnum());
    // the transaction reads its own writes
    assert!(matches!(tx.data().get_autnum(1), Lookup::Found(_)));
    // the store does not see them yet
    assert!(matches!(mem.data().get_autnum(1), Lookup::NotFound));
    mem.commit(tx);
    assert!(matches!(mem.data().get_autnum(1), Lookup::Found(_)));
    // a snapshot taken earlier stays as it was
    assert!(matches!(before.get_autnum(1), Lookup::NotFound));
    let after = mem.snapshot();

    let mut tx = mem.new_tx();
    tx.remove_autnum(&AutnumId { start_autnum: 1, end_autnum: 2 });
    assert!(matches!(tx.data().get_autnum(1), Lookup::NotFound));
    tx.rollback();
    assert!(matches!(mem.data().get_autnum(1), Lookup::Found(_)));
    assert!(matches!(after.get_autnum(2), Lookup::Found(_)));
}

#[test]
fn add_replaces_and_remove_clears_both_kinds() {
    let mut mem = Mem::new();
    let mut tx = mem.new_tx();
    let id = domain_id("example");
    tx.add_domain_err(&id, redirect("https://first/"));
    tx.add_domain_err(&id, redirect("https://second/"));
    mem.commit(tx);
    assert_eq!(
        route(mem.data(), "/domain/example").location.as_deref(),
        Some("https://second/domain/example")
    );
    let mut tx = mem.new_tx();
    tx.add_domain(&id, domain("example"));
    tx.remove_domain(&id);
    mem.commit(tx);
    assert_eq!(route(mem.data(), "/domain/example").status, 404);
}

#[test]
fn network_ranges_are_stored_under_their_smallest_block() {
    let mut mem = Mem::new();
    let mut tx = mem.new_tx();
    let v4 = |s: &str| parse_ip(s).unwrap();
    let range = NetworkId {
        network_id: NetworkIdType::Range {
            start_address: v4("10.0.0.0"),
            end_address: v4("10.0.3.255"),
        },
    };
    assert!(tx.add_network(&range, network("10.0.0.0")));
    // ends in the wrong order, or of two families: nothing is stored
    let inverted = NetworkId {
        network_id: NetworkIdType::Range {
            start_address: v4("10.0.3.255"),
            end_address: v4("10.0.0.0"),
        },
    };
    assert!(!tx.add_network(&inverted, network("x")));
    let mixed = NetworkId {
        network_id: NetworkIdType::Range {
            start_address: v4("10.0.0.0"),
            end_address: parse_ip("::1").unwrap(),
        },
    };
    assert!(!tx.add_network_err(&mixed, redirect("https://x/")));
    let too_long = NetworkId {
        network_id: NetworkIdType::Cidr(Cidr { addr: IpAddr::V4(0), prefix_len: 33 }),
    };
    assert!(!tx.add_network(&too_long, network("x")));
    mem.commit(tx);
    assert!(matches!(mem.data().get_network(&v4("10.0.2.7")), Lookup::Found(_)));
    assert!(matches!(mem.get_network(&v4("10.0.2.7")), Lookup::Found(_)));
    assert!(matches!(mem.get_network_by_cidr(&parse_cidr("10.0.0.0/30").unwrap()), Lookup::Found(_)));
    assert!(matches!(mem.get_domain("example"), Lookup::NotFound));
    assert!(matches!(mem.get_nameserver("ns.example"), Lookup::NotFound));
    assert!(matches!(mem.get_entity("x"), Lookup::NotFound));
    assert!(matches!(mem.get_autnum(1), Lookup::NotFound));
    assert!(matches!(mem.data().get_network(&v4("10.0.4.0")), Lookup::NotFound));
    assert!(matches!(
        mem.data().get_network_by_cidr(&parse_cidr("10.0.0.0/22").unwrap()),
        Lookup::Found(_)
    ));
    assert!(matches!(
        mem.data().get_network_by_cidr(&parse_cidr("10.0.0.0/21").unwrap()),
        Lookup::NotFound
    ));
    let mut tx = mem.new_tx();
    tx.remove_network(&cidr_id("10.0.1.0/22"));
    mem.commit(tx);
    assert!(matches!(mem.data().get_network(&v4("10.0.2.7")), Lookup::NotFound));
}

#[test]
fn v6_networks_have_their_own_family() {
    let mut mem = Mem::new();
    let mut tx = mem.new_tx();
    assert!(tx.add_network_err(&cidr_id("2001:db8::/32"), redirect("https://six/")));
    assert!(tx.add_network_err(&cidr_id("0.0.0.0/0"), redirect("https://four/")));
    mem.commit(tx);
    assert_eq!(
        route(mem.data(), "/ip/2001:db8::1").location.as_deref(),
        Some("https://six/ip/2001:db8::1")
    );
    assert_eq!(route(mem.data(), "/ip/2001:db9::1").status, 404);
    assert_eq!(
        route(mem.data(), "/ip/192.0.2.1").location.as_deref(),
        Some("https://four/ip/192.0.2.1")
    );
}

#[test]
fn nameservers_have_their_own_entries_before_those_of_domains() {
    let mut mem = Mem::new();
    let mut tx = mem.new_tx();
    tx.add_domain_err(&domain_id("example"), redirect("https://domains/"));
    tx.add_domain(&domain_id("zone.example"), domain("zone.example"));
    tx.add_nameserver_err(
        &NameserverId { ldh_name: "ns.example".to_string(), unicode_name: None },
        redirect("https://servers/"),
    );
    mem.commit(tx);
    assert_eq!(
        route(mem.data(), "/nameserver/a.ns.example").location.as_deref(),
        Some("https://servers/nameserver/a.ns.example")
    );
    assert_eq!(
        route(mem.data(), "/nameserver/ns1.example").location.as_deref(),
        Some("https://domains/nameserver/ns1.example")
    );
    // a domain itself is no answer to the lookup of a name server
    assert_eq!(route(mem.data(), "/nameserver/ns.zone.example").status, 404);
    let mut tx = mem.new_tx();
    tx.remove_nameserver(&NameserverId { ldh_name: "ns.example".to_string(), unicode_name: None });
    mem.commit(tx);
    assert_eq!(
        route(mem.data(), "/nameserver/a.ns.example").location.as_deref(),
        Some("https://domains/nameserver/a.ns.example")
    );
}

#[test]
fn names_are_looked_for_from_the_longest_suffix_down() {
    assert_eq!(fall_through("a.b.c.example"), vec!["a.b.c.example", "b.c.example", "c.example", "example", ""]);
    assert_eq!(fall_through("example"), vec!["example", ""]);
    assert_eq!(fall_through(""), vec![""]);
    assert_eq!(fall_through("example."), vec!["example.", ""]);
    assert_eq!(fall_through(".a"), vec![".a", "a", ""]);
    assert_eq!(fall_through("a..b"), vec!["a..b", ".b", "b", ""]);
}
