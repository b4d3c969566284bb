use rdap_core::contact::{Contact, Email, Lang, NameParts, Phone, PostalAddress};
use rdap_core::json::{Json, JsonNumber};
use rdap_core::response::{Common, Entity};

fn from_value(v: &serde_json::Value) -> Json {
    match v {
        serde_json::Value::Null => Json::Null,
        serde_json::Value::Bool(b) => Json::Bool(*b),
        serde_json::Value::Number(n) => {
            if let Some(u) = n.as_u64() {
                Json::Number(JsonNumber::PosInt(u))
            } else if let Some(i) = n.as_i64() {
                Json::Number(JsonNumber::NegInt(i))
            } else {
                Json::Number(JsonNumber::Float(n.as_f64().unwrap().to_bits()))
            }
        }
        serde_json::Value::String(s) => Json::String(s.clone()),
        serde_json::Value::Array(a) => Json::Array(a.iter().map(from_value).collect()),
        serde_json::Value::Object(m) => {
            Json::Object(m.iter().map(|(k, v)| (k.clone(), from_value(v))).collect())
        }
    }
}

fn to_value(j: &Json) -> serde_json::Value {
    match j {
        Json::Null => serde_json::Value::Null,
        Json::Bool(b) => serde_json::Value::Bool(*b),
        Json::Number(JsonNumber::PosInt(u)) => serde_json::Value::from(*u),
        Json::Number(JsonNumber::NegInt(i)) => serde_json::Value::from(*i),
        Json::Number(JsonNumber::Float(bits)) => serde_json::Value::from(f64::from_bits(*bits)),
        Json::String(s) => serde_json::Value::String(s.clone()),
        Json::Array(a) => serde_json::Value::Array(a.iter().map(to_value).collect()),
        Json::Object(m) => serde_json::Value::Object(
            m.iter().map(|(k, v)| (k.clone(), to_value(v))).collect(),
        ),
    }
}

fn parse_array(text: &str) -> Vec<Json> {
    match from_value(&serde_json::from_str::<serde_json::Value>(text).unwrap()) {
        Json::Array(a) => a,
        _ => panic!("not an array"),
    }
}

fn print(v: &[Json]) -> String {
    serde_json::to_string(&serde_json::Value::Array(v.iter().map(to_value).collect())).unwrap()
}

fn strings(items: &[&str]) -> Vec<String> {
    items.iter().map(|s| s.to_string()).collect()
}

fn empty() -> Contact {
    Contact::new(
        vec![], None, None, None, vec![], vec![], vec![], vec![], vec![], vec![], vec![], vec![],
        vec![],
    )
}

const JOE: &str = r#"
[
  "vcard",
  [
    ["version", {}, "text", "4.0"],
    ["fn", {}, "text", "Joe User"],
    ["kind", {}, "text", "individual"],
    ["org", {
      "type":"work"
    }, "text", "Example"],
    ["title", {}, "text", "Research Scientist"],
    ["role", {}, "text", "Project Lead"],
    ["adr",
      { "type":"work" },
      "text",
      [
        "",
        "Suite 1234",
        "4321 Rue Somewhere",
        "Quebec",
        "QC",
        "G1V 2M2",
        "Canada"
      ]
    ],
    ["tel",
      { "type":["work", "voice"], "pref":"1" },
      "uri", "tel:+1-555-555-1234;ext=102"
    ],
    ["email",
      { "type":"work" },
      "text", "joe.user@example.com"
    ],
    ["x-unknown", {}, "text", "ignored"],
    ["lang", { "pref": 2 }, "language-tag", "fr"],
    "not a property",
    ["fn", {}, "text", "Second Name"]
  ]
]"#;

#[test]
fn reads_a_jcard() {
    let contact = Contact::from_vcard(&parse_array(JOE)).expect("a jCard");
    assert_eq!(contact.full_name.as_deref(), Some("Joe User"));
    assert_eq!(contact.kind.as_deref(), Some("individual"));
    assert_eq!(contact.organization_names, Some(strings(&["Example"])));
    assert_eq!(contact.titles, Some(strings(&["Research Scientist"])));
    assert_eq!(contact.roles, Some(strings(&["Project Lead"])));
    assert_eq!(contact.nick_names, None);
    assert_eq!(contact.name_parts, None);
    assert_eq!(
        contact.postal_addresses,
        Some(vec![PostalAddress {
            preference: None,
            contexts: Some(strings(&["work"])),
            full_address: None,
            street_parts: Some(strings(&["4321 Rue Somewhere"])),
            locality: Some("Quebec".to_string()),
            region_name: Some("QC".to_string()),
            region_code: None,
            country_name: Some("Canada".to_string()),
            country_code: None,
            postal_code: Some("G1V 2M2".to_string()),
        }])
    );
    assert_eq!(
        contact.phones,
        Some(vec![Phone {
            preference: Some(1),
            contexts: Some(strings(&["work"])),
            phone: "tel:+1-555-555-1234;ext=102".to_string(),
            features: Some(strings(&["voice"])),
        }])
    );
    assert_eq!(
        contact.emails,
        Some(vec![Email {
            preference: None,
            contexts: Some(strings(&["work"])),
            email: "joe.user@example.com".to_string(),
        }])
    );
    assert_eq!(contact.langs, Some(vec![Lang { preference: Some(2), tag: "fr".to_string() }]));
    assert!(contact.is_non_empty());
}

#[test]
fn what_is_no_jcard_reads_as_none() {
    for text in [
        r#"[]"#,
        r#"["vcard"]"#,
        r#"["vcard", {}]"#,
        r#"["vcard", "x"]"#,
        r#"["card", []]"#,
        r#"[1, []]"#,
        r#"["vcard", [], []]"#,
    ] {
        assert!(Contact::from_vcard(&parse_array(text)).is_none(), "{text}");
    }
    let nothing = Contact::from_vcard(&parse_array(r#"["vcard", []]"#)).unwrap();
    assert!(!nothing.is_non_empty());
    assert_eq!(nothing, empty());
}

#[test]
fn writes_only_what_the_contact_has() {
    assert_eq!(print(&empty().to_vcard()), r#"["vcard",[["version",{},"text","4.0"]]]"#);
    let contact = Contact::new(
        vec![],
        Some("individual".to_string()),
        Some("Bob Smurd".to_string()),
        None,
        vec![], vec![], vec![], vec![], vec![], vec![], vec![], vec![], vec![],
    );
    assert_eq!(
        print(&contact.to_vcard()),
        r#"["vcard",[["version",{},"text","4.0"],["fn",{},"text","Bob Smurd"],["kind",{},"text","individual"]]]"#
    );
}

#[test]
fn writes_each_property() {
    let contact = Contact::new(
        vec![Lang { preference: Some(1), tag: "en".to_string() }],
        None,
        None,
        Some(NameParts::new(
            strings(&["Dr."]),
            strings(&["Smurd"]),
            vec![],
            strings(&["Bob", "Robert"]),
            vec![],
        )),
        strings(&["bobby"]),
        strings(&["Chief"]),
        strings(&["Boss"]),
        strings(&["Acme"]),
        vec![PostalAddress::new(
            Some(2),
            strings(&["home"]),
            Some("1 Main St, Town".to_string()),
            strings(&["1 Main St", "Apt 2"]),
            Some("Town".to_string()),
            Some("State".to_string()),
            None,
            None,
            Some("US".to_string()),
            Some("12345".to_string()),
        )],
        vec![Email::new(Some(1), strings(&["work", "home"]), "bob@example.com".to_string())],
        vec![Phone::new(None, strings(&["work"]), "tel:+1".to_string(), strings(&["voice", "fax"]))],
        strings(&["https://example.com/contact"]),
        strings(&["https://example.com"]),
    );
    assert_eq!(
        print(&contact.to_vcard()),
        concat_all(&[
            r#"["vcard",[["version",{},"text","4.0"],"#,
            r#"["n",{},"text",["Smurd",["Bob","Robert"],"","Dr.",""]],"#,
            r#"["lang",{"pref":"1"},"language-tag","en"],"#,
            r#"["org",{},"text","Acme"],"#,
            r#"["title",{},"text","Chief"],"#,
            r#"["role",{},"text","Boss"],"#,
            r#"["nickname",{},"text","bobby"],"#,
            r#"["email",{"pref":"1","type":["work","home"]},"text","bob@example.com"],"#,
            r#"["tel",{"type":["work","voice","fax"]},"uri","tel:+1"],"#,
            r#"["adr",{"label":"1 Main St, Town","pref":"2","type":"home"},"text",["","",["1 Main St","Apt 2"],"Town","State","12345","US"]],"#,
            r#"["contact-uri",{},"uri","https://example.com/contact"],"#,
            r#"["url",{},"uri","https://example.com"]]]"#,
        ])
    );
}

fn concat_all(parts: &[&str]) -> String {
    parts.iter().map(|s| s.to_string()).collect::<Vec<String>>().join("")
}

#[test]
fn a_contact_reads_back_from_its_jcard() {
    let contact = Contact::new(
        vec![
            Lang { preference: Some(1), tag: "en".to_string() },
            Lang { preference: None, tag: "fr".to_string() },
        ],
        Some("individual".to_string()),
        Some("Bob Smurd".to_string()),
        Some(NameParts::new(
            strings(&["Dr."]),
            strings(&["Smurd"]),
            strings(&["X", "Y"]),
            strings(&["Bob"]),
            vec![],
        )),
        strings(&["bobby", "rob"]),
        strings(&["Chief"]),
        strings(&["Boss"]),
        strings(&["Acme", "Acme Holding"]),
        vec![
            PostalAddress::new(
                Some(2),
                strings(&["home"]),
                Some("1 Main St, Town".to_string()),
                strings(&["1 Main St", "Apt 2"]),
                Some("Town".to_string()),
                Some("State".to_string()),
                None,
                Some("Country".to_string()),
                None,
                Some("12345".to_string()),
            ),
            PostalAddress::new(None, vec![], None, vec![], None, None, None, None, None, None),
        ],
        vec![
            Email::new(Some(1), strings(&["work", "home"]), "bob@example.com".to_string()),
            Email::new(None, vec![], "rob@example.com".to_string()),
        ],
        vec![
            Phone::new(Some(18446744073709551615), strings(&["work"]), "tel:+1".to_string(), strings(&["voice", "fax"])),
            Phone::new(None, vec![], "tel:+2".to_string(), vec![]),
            Phone::new(None, vec![], "tel:+3".to_string(), strings(&["cell"])),
        ],
        strings(&["https://example.com/contact"]),
        strings(&["https://example.com", "https://example.org"]),
    );
    let back = Contact::from_vcard(&contact.to_vcard()).expect("a jCard");
    assert_eq!(back, contact);
    // and through text
    let again = Contact::from_vcard(&parse_array(&print(&contact.to_vcard()))).expect("a jCard");
    assert_eq!(again, contact);
    assert_eq!(Contact::from_vcard(&empty().to_vcard()), Some(empty()));
}

#[test]
fn what_does_not_read_back() {
    // a code of a region has no place of its own: it reads back as a name
    let coded = empty().set_postal_address(PostalAddress::new(
        None, vec![], None, vec![], None, None, Some("QC".to_string()), None, Some("CA".to_string()), None,
    ));
    let back = Contact::from_vcard(&coded.to_vcard()).unwrap();
    let address = &back.postal_addresses.as_ref().unwrap()[0];
    assert_eq!(address.region_name.as_deref(), Some("QC"));
    assert_eq!(address.region_code, None);
    assert_eq!(address.country_name.as_deref(), Some("CA"));
    assert_ne!(back, coded);
    // a context that is the name of a feature reads back as a feature
    let voice = empty().add_voice_phones(&["tel:+1"]);
    let back = Contact::from_vcard(&voice.to_vcard()).unwrap();
    let phone = &back.phones.as_ref().unwrap()[0];
    assert_eq!(phone.contexts, None);
    assert_eq!(phone.features, Some(strings(&["voice"])));
}

#[test]
fn the_whole_address_as_one_text() {
    let card = parse_array(
        r#"["vcard", [["adr", {"type": ["work", "home"], "pref": "3"}, "text", "1 Main St\nTown"]]]"#,
    );
    let contact = Contact::from_vcard(&card).unwrap();
    assert_eq!(
        contact.postal_addresses,
        Some(vec![PostalAddress {
            preference: Some(3),
            contexts: Some(strings(&["work", "home"])),
            full_address: Some("1 Main St\nTown".to_string()),
            street_parts: None,
            locality: None,
            region_name: None,
            region_code: None,
            country_name: None,
            country_code: None,
            postal_code: None,
        }])
    );
}

#[test]
fn phone_labels_are_split_into_contexts_and_features() {
    let card = parse_array(
        r#"["vcard", [
            ["tel", {"type": ["home", "voice", "work", "cell", "text", "video", "textphone", "pager", "fax", "Voice"]}, "uri", "tel:+1"],
            ["tel", {"type": "fax"}, "uri", "tel:+2"],
            ["tel", {"type": 7, "pref": "x"}, "uri", "tel:+3"],
            ["tel", {}, "uri", 5]
        ]]"#,
    );
    let contact = Contact::from_vcard(&card).unwrap();
    let phones = contact.phones.unwrap();
    assert_eq!(phones.len(), 3);
    assert_eq!(phones[0].contexts, Some(strings(&["home", "work", "Voice"])));
    assert_eq!(
        phones[0].features,
        Some(strings(&["voice", "cell", "text", "video", "textphone", "pager", "fax"]))
    );
    assert_eq!(phones[1].contexts, None);
    assert_eq!(phones[1].features, Some(strings(&["fax"])));
    assert_eq!(phones[2].contexts, None);
    assert_eq!(phones[2].features, None);
    assert_eq!(phones[2].preference, None);
}

#[test]
fn the_contact_of_an_entity() {
    let mut entity = Entity {
        common: Common::empty(),
        handle: None,
        roles: None,
        public_ids: None,
        vcard_array: None,
        entities: None,
    };
    assert_eq!(entity.contact(), None);
    entity.vcard_array = Some(parse_array(JOE));
    assert_eq!(entity.contact().unwrap().full_name.as_deref(), Some("Joe User"));
    entity.vcard_array = Some(vec![]);
    assert_eq!(entity.contact(), None);
}
