use rdap_core::contact::{Contact, Email, Lang, NameParts, Phone, PostalAddress};

fn strings(items: &[&str]) -> Vec<String> {
    items.iter().map(|s| s.to_string()).collect()
}

#[test]
fn builds_a_contact() {
    let contact = Contact::builder().kind("individual").full_name("Bob Smurd").build();
    assert_eq!(contact.kind.as_deref(), Some("individual"));
    assert_eq!(contact.full_name.as_deref(), Some("Bob Smurd"));
    assert_eq!(contact.emails, None);
    assert!(contact.is_non_empty());
    assert!(!Contact::builder().build().is_non_empty());
    let contact = Contact::builder()
        .email(Email::builder().email("a@example.com").build())
        .email(Email::builder().contexts(strings(&["work"])).preference(1).email("b@example.com").build())
        .phone(Phone::builder().phone("tel:+1").features(strings(&["voice"])).build())
        .lang(Lang::builder().tag("en").preference(2).build())
        .postal_address(
            PostalAddress::builder()
                .full_address("1 Main St")
                .street_parts(strings(&["1 Main St"]))
                .locality("Town")
                .region_name("Region")
                .region_code("RG")
                .country_name("Country")
                .country_code("CY")
                .postal_code("12345")
                .contexts(strings(&["home"]))
                .preference(3)
                .build(),
        )
        .name_parts(NameParts::builder().surnames(strings(&["Smurd"])).given_names(strings(&["Bob"])).build())
        .nick_names(strings(&["bobby"]))
        .titles(strings(&["Chief"]))
        .roles(strings(&["Boss"]))
        .organization_names(strings(&["Acme"]))
        .contact_uris(strings(&["https://example.com/contact"]))
        .urls(strings(&["https://example.com"]))
        .build();
    assert_eq!(
        contact,
        Contact::new(
            vec![Lang { preference: Some(2), tag: "en".to_string() }],
            None,
            None,
            Some(NameParts::new(vec![], strings(&["Smurd"]), vec![], strings(&["Bob"]), vec![])),
            strings(&["bobby"]),
            strings(&["Chief"]),
            strings(&["Boss"]),
            strings(&["Acme"]),
            vec![PostalAddress::new(
                Some(3),
                strings(&["home"]),
                Some("1 Main St".to_string()),
                strings(&["1 Main St"]),
                Some("Town".to_string()),
                Some("Region".to_string()),
                Some("RG".to_string()),
                Some("Country".to_string()),
                Some("CY".to_string()),
                Some("12345".to_string()),
            )],
            vec![
                Email::new(None, vec![], "a@example.com".to_string()),
                Email::new(Some(1), strings(&["work"]), "b@example.com".to_string()),
            ],
            vec![Phone::new(None, vec![], "tel:+1".to_string(), strings(&["voice"]))],
            strings(&["https://example.com/contact"]),
            strings(&["https://example.com"]),
        )
    );
    // a list that is given takes the place of what was collected
    let replaced = Contact::builder()
        .email(Email::builder().email("a@example.com").build())
        .emails(vec![])
        .langs(vec![])
        .phones(vec![])
        .postal_addresses(vec![])
        .build();
    assert_eq!(replaced.emails, None);
    let parts = NameParts::builder()
        .prefixes(strings(&["Dr."]))
        .middle_names(strings(&["X"]))
        .suffixes(strings(&["Jr."]))
        .build();
    assert_eq!(parts.prefixes, Some(strings(&["Dr."])));
    assert_eq!(parts.surnames, None);
    assert_eq!(parts.suffixes, Some(strings(&["Jr."])));
    let phone = Phone::builder().preference(1).contexts(strings(&["work"])).phone("tel:+2").build();
    assert_eq!(phone, Phone::new(Some(1), strings(&["work"]), "tel:+2".to_string(), vec![]));
}
