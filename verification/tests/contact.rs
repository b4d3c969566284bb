use rdap_core::contact::{to_opt_vec, Contact, Email, Lang, NameParts, Phone, PostalAddress};

fn strings(items: &[&str]) -> Vec<String> {
    items.iter().map(|s| s.to_string()).collect()
}

fn empty() -> Contact {
    Contact::new(
        vec![], None, None, None, vec![], vec![], vec![], vec![], vec![], vec![], vec![], vec![],
        vec![],
    )
}

#[test]
fn empty_lists_are_left_absent() {
    let c = empty();
    assert!(!c.is_non_empty());
    assert_eq!(c.langs, None);
    assert_eq!(c.emails, None);
    assert_eq!(to_opt_vec::<u8>(vec![]), None);
    assert_eq!(to_opt_vec(vec![1u8]), Some(vec![1u8]));
    let n = NameParts::new(vec![], strings(&["Smurd"]), vec![], vec![], vec![]);
    assert_eq!(n.prefixes, None);
    assert_eq!(n.surnames, Some(strings(&["Smurd"])));
    let p = Phone::new(Some(1), vec![], "tel:+1".to_string(), strings(&["fax"]));
    assert_eq!(p.contexts, None);
    assert_eq!(p.features, Some(strings(&["fax"])));
    let e = Email::new(None, strings(&["work"]), "a@b.c".to_string());
    assert_eq!(e.contexts, Some(strings(&["work"])));
    let a = PostalAddress::new(
        None, vec![], None, strings(&["1 Main St"]), None, None, None, None, None, None,
    );
    assert_eq!(a.contexts, None);
    assert_eq!(a.street_parts, Some(strings(&["1 Main St"])));
}

#[test]
fn any_field_makes_a_contact_non_empty() {
    let with_kind = Contact::new(
        vec![], Some("individual".to_string()), None, None, vec![], vec![], vec![], vec![], vec![],
        vec![], vec![], vec![], vec![],
    );
    assert!(with_kind.is_non_empty());
    let with_url = Contact::new(
        vec![], None, None, None, vec![], vec![], vec![], vec![], vec![], vec![], vec![], vec![],
        strings(&["https://example.com"]),
    );
    assert!(with_url.is_non_empty());
    assert!(empty().set_emails(&["a@b.c"]).is_non_empty());
}

#[test]
fn set_emails_replaces_the_addresses() {
    let c = empty().set_emails(&["a@example.com", "b@example.com"]);
    assert_eq!(
        c.emails,
        Some(vec![
            Email { preference: None, contexts: None, email: "a@example.com".to_string() },
            Email { preference: None, contexts: None, email: "b@example.com".to_string() },
        ])
    );
    let c = c.set_emails(&["c@example.com"]);
    assert_eq!(c.emails.as_ref().unwrap().len(), 1);
    assert_eq!(c.emails.as_ref().unwrap()[0].email, "c@example.com");
    let none: [&str; 0] = [];
    assert_eq!(c.set_emails(&none).emails, None);
}

#[test]
fn phones_are_given_to_a_contact_without_phones_only() {
    let c = empty().add_voice_phones(&["tel:+1", "tel:+2"]);
    assert_eq!(
        c.phones,
        Some(vec![
            Phone { preference: None, contexts: Some(strings(&["voice"])), phone: "tel:+1".to_string(), features: None },
            Phone { preference: None, contexts: Some(strings(&["voice"])), phone: "tel:+2".to_string(), features: None },
        ])
    );
    let kept = c.clone().add_fax_phones(&["tel:+3"]);
    assert_eq!(kept, c);
    let kept = c.clone().add_voice_phones(&["tel:+4"]);
    assert_eq!(kept, c);
    let f = empty().add_fax_phones(&["tel:+3"]);
    assert_eq!(
        f.phones,
        Some(vec![Phone { preference: None, contexts: Some(strings(&["fax"])), phone: "tel:+3".to_string(), features: None }])
    );
    let none: [&str; 0] = [];
    assert_eq!(empty().add_voice_phones(&none).phones, None);
    assert_eq!(empty().add_fax_phones(&none).phones, None);
}

#[test]
fn set_postal_address_leaves_one_address() {
    let a = PostalAddress::new(
        None, vec![], Some("1 Main St".to_string()), vec![], None, None, None, None, None, None,
    );
    let b = PostalAddress::new(
        None, vec![], Some("2 Main St".to_string()), vec![], None, None, None, None, None, None,
    );
    let c = empty().set_postal_address(a).set_postal_address(b.clone());
    assert_eq!(c.postal_addresses, Some(vec![b]));
}

#[test]
fn lines_of_text() {
    assert_eq!(Lang { preference: None, tag: "en".to_string() }.to_string(), "en");
    assert_eq!(Lang { preference: Some(0), tag: "en".to_string() }.to_string(), "en (pref: 0)");
    assert_eq!(Lang { preference: Some(12), tag: "fr-CA".to_string() }.to_string(), "fr-CA (pref: 12)");
    let e = Email::new(None, vec![], "a@b.c".to_string());
    assert_eq!(e.to_string(), "a@b.c");
    let e = Email::new(Some(1), vec![], "a@b.c".to_string());
    assert_eq!(e.to_string(), "a@b.c (pref: 1)");
    let e = Email::new(None, strings(&["work", "home"]), "a@b.c".to_string());
    assert_eq!(e.to_string(), "a@b.c (work,home)");
    let e = Email::new(Some(10), strings(&["work"]), "a@b.c".to_string());
    assert_eq!(e.to_string(), "a@b.c (pref: 10) (work)");
    let p = Phone::new(None, vec![], "tel:+1".to_string(), vec![]);
    assert_eq!(p.to_string(), "tel:+1");
    let p = Phone::new(Some(18446744073709551615), strings(&["work"]), "tel:+1".to_string(), strings(&["voice", "fax"]));
    assert_eq!(p.to_string(), "tel:+1 (pref: 18446744073709551615) (work) (voice,fax)");
    let p = Phone::new(None, vec![], "tel:+1".to_string(), strings(&["fax"]));
    assert_eq!(p.to_string(), "tel:+1 (fax)");
    let p = Phone::new(None, strings(&["home"]), "tel:+1".to_string(), vec![]);
    assert_eq!(p.to_string(), "tel:+1 (home)");
}
