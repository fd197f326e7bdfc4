use doc_validation::decode::{decode, decode_tree, DecodeError, DecodeErrorKind};
use doc_validation::model::{Basics, Location, Profile};
use doc_validation::path::path_of;
use doc_validation::tree::{find, Node};

const FULL_DOCUMENT: &str = "\
schemaId: https://example.com/profile.schema.json
basics:
  name: Jane Doe
  label: Engineer
  imageUrl: https://example.com/jane.png
  email: user@example.com
  phone: 555-0100
  contactUrl: https://example.com/jane
  summary: Builds things.
  location:
    address: 1 Main Street
    postalCode: CA 94115
    city: San Francisco
    region: California
    countryCode: US
";

fn full_profile() -> Profile {
    Profile {
        schema_id: "https://example.com/profile.schema.json".to_string(),
        basics: Basics {
            name: "Jane Doe".to_string(),
            label: "Engineer".to_string(),
            image_url: "https://example.com/jane.png".to_string(),
            email: "user@example.com".to_string(),
            phone: "555-0100".to_string(),
            contact_url: "https://example.com/jane".to_string(),
            summary: "Builds things.".to_string(),
            location: Location {
                address: Some("1 Main Street".to_string()),
                postal_code: Some("CA 94115".to_string()),
                city: Some("San Francisco".to_string()),
                region: Some("California".to_string()),
                country_code: "US".to_string(),
            },
        },
    }
}

fn text(s: &str) -> Node {
    Node::Text(s.to_string())
}

fn entry(key: &str, value: Node) -> (Node, Node) {
    (text(key), value)
}

fn location_entries() -> Vec<(Node, Node)> {
    vec![
        entry("address", text("1 Main Street")),
        entry("postalCode", text("CA 94115")),
        entry("city", text("San Francisco")),
        entry("region", text("California")),
        entry("countryCode", text("US")),
    ]
}

fn basics_entries(location: Node) -> Vec<(Node, Node)> {
    vec![
        entry("name", text("Jane Doe")),
        entry("label", text("Engineer")),
        entry("imageUrl", text("https://example.com/jane.png")),
        entry("email", text("user@example.com")),
        entry("phone", text("555-0100")),
        entry("contactUrl", text("https://example.com/jane")),
        entry("summary", text("Builds things.")),
        entry("location", location),
    ]
}

fn document(basics: Node) -> Node {
    Node::Table(vec![
        entry("schemaId", text("https://example.com/profile.schema.json")),
        entry("basics", basics),
    ])
}

fn without(entries: Vec<(Node, Node)>, key: &str) -> Vec<(Node, Node)> {
    entries.into_iter().filter(|(k, _)| *k != text(key)).collect()
}

fn with(entries: Vec<(Node, Node)>, key: &str, value: Node) -> Vec<(Node, Node)> {
    let mut kept = without(entries, key);
    kept.push(entry(key, value));
    kept
}

fn failure(path: &str, kind: DecodeErrorKind) -> DecodeError {
    DecodeError { path: path.to_string(), kind }
}

#[test]
fn decode_reads_a_full_document() {
    assert_eq!(decode(FULL_DOCUMENT.as_bytes()), Ok(full_profile()));
}

#[test]
fn decode_reads_a_json_shaped_document() {
    let source = r#"{
        "schemaId": "https://example.com/profile.schema.json",
        "basics": {
            "name": "Jane Doe",
            "label": "Engineer",
            "imageUrl": "https://example.com/jane.png",
            "email": "user@example.com",
            "phone": "555-0100",
            "contactUrl": "https://example.com/jane",
            "summary": "Builds things.",
            "location": {
                "address": "1 Main Street",
                "postalCode": "CA 94115",
                "city": "San Francisco",
                "region": "California",
                "countryCode": "US"
            }
        }
    }"#;
    assert_eq!(decode(source.as_bytes()), Ok(full_profile()));
}

#[test]
fn decode_tree_reads_a_hand_built_document() {
    let root = document(Node::Table(basics_entries(Node::Table(location_entries()))));
    assert_eq!(decode_tree(&root), Ok(full_profile()));
}

#[test]
fn decode_and_decode_tree_agree() {
    let root = document(Node::Table(basics_entries(Node::Table(location_entries()))));
    assert_eq!(decode(FULL_DOCUMENT.as_bytes()), decode_tree(&root));
}

#[test]
fn decode_ignores_unknown_fields() {
    let source = FULL_DOCUMENT.to_string() + "    planet: Earth\nwork:\n  - company: Acme\n";
    assert_eq!(decode(source.as_bytes()), Ok(full_profile()));
}

#[test]
fn decode_rejects_a_document_without_basics() {
    let err = decode(b"schemaId: v1\n").unwrap_err();
    assert_eq!(err, failure("basics", DecodeErrorKind::MissingField));
}

#[test]
fn decode_rejects_a_document_without_schema_id() {
    let source = FULL_DOCUMENT.replace("schemaId: https://example.com/profile.schema.json\n", "");
    assert_eq!(decode(source.as_bytes()), Err(failure("schemaId", DecodeErrorKind::MissingField)));
}

#[test]
fn decode_rejects_a_document_without_email() {
    let source = FULL_DOCUMENT.replace("  email: user@example.com\n", "");
    assert_eq!(
        decode(source.as_bytes()),
        Err(failure("basics.email", DecodeErrorKind::MissingField))
    );
}

#[test]
fn decode_rejects_a_mapping_for_country_code() {
    let source = FULL_DOCUMENT.replace("countryCode: US", "countryCode: {code: US}");
    assert_eq!(
        decode(source.as_bytes()),
        Err(failure("basics.location.countryCode", DecodeErrorKind::WrongType))
    );
}

#[test]
fn decode_rejects_a_number_for_country_code() {
    let source = FULL_DOCUMENT.replace("countryCode: US", "countryCode: 840");
    assert_eq!(
        decode(source.as_bytes()),
        Err(failure("basics.location.countryCode", DecodeErrorKind::WrongType))
    );
}

#[test]
fn decode_rejects_a_list_for_country_code() {
    let source = FULL_DOCUMENT.replace("countryCode: US", "countryCode: [US]");
    assert_eq!(
        decode(source.as_bytes()),
        Err(failure("basics.location.countryCode", DecodeErrorKind::WrongType))
    );
}

#[test]
fn decode_rejects_a_missing_country_code() {
    let source = FULL_DOCUMENT.replace("    countryCode: US\n", "");
    assert_eq!(
        decode(source.as_bytes()),
        Err(failure("basics.location.countryCode", DecodeErrorKind::MissingField))
    );
}

#[test]
fn decode_rejects_a_null_for_a_required_field() {
    let source = FULL_DOCUMENT.replace("name: Jane Doe", "name: ~");
    assert_eq!(decode(source.as_bytes()), Err(failure("basics.name", DecodeErrorKind::WrongType)));
}

#[test]
fn decode_rejects_a_text_for_basics() {
    assert_eq!(
        decode(b"schemaId: v1\nbasics: none\n"),
        Err(failure("basics", DecodeErrorKind::WrongType))
    );
}

#[test]
fn decode_rejects_a_missing_location() {
    let root = document(Node::Table(without(basics_entries(Node::Null), "location")));
    assert_eq!(
        decode_tree(&root),
        Err(failure("basics.location", DecodeErrorKind::MissingField))
    );
}

#[test]
fn decode_reports_the_first_defect_in_declaration_order() {
    let source = FULL_DOCUMENT
        .replace("  label: Engineer\n", "")
        .replace("  summary: Builds things.\n", "")
        .replace("    countryCode: US\n", "");
    assert_eq!(
        decode(source.as_bytes()),
        Err(failure("basics.label", DecodeErrorKind::MissingField))
    );
}

#[test]
fn decode_reports_a_defect_of_basics_before_one_of_location() {
    let source = FULL_DOCUMENT
        .replace("  summary: Builds things.\n", "  summary: [a, b]\n")
        .replace("    city: San Francisco\n", "    city: 12\n");
    assert_eq!(
        decode(source.as_bytes()),
        Err(failure("basics.summary", DecodeErrorKind::WrongType))
    );
}

#[test]
fn decode_rejects_text_that_is_no_document() {
    assert_eq!(decode(b"basics: [unclosed"), Err(failure("", DecodeErrorKind::Syntax)));
    assert_eq!(decode(b"a: 1\n  b: 2\n c: 3"), Err(failure("", DecodeErrorKind::Syntax)));
}

#[test]
fn decode_rejects_bytes_that_are_no_text() {
    assert_eq!(decode(&[0xff, 0xfe, 0x00, 0x01]), Err(failure("", DecodeErrorKind::Syntax)));
}

#[test]
fn decode_rejects_a_repeated_key() {
    assert_eq!(
        decode(b"schemaId: v1\nschemaId: v2\n"),
        Err(failure("", DecodeErrorKind::Syntax))
    );
}

#[test]
fn decode_rejects_a_root_that_is_no_mapping() {
    assert_eq!(decode(b"just a sentence"), Err(failure("", DecodeErrorKind::WrongType)));
    assert_eq!(decode(b"- a\n- b\n"), Err(failure("", DecodeErrorKind::WrongType)));
    assert_eq!(decode(b""), Err(failure("", DecodeErrorKind::WrongType)));
    assert_eq!(decode_tree(&Node::Null), Err(failure("", DecodeErrorKind::WrongType)));
    assert_eq!(decode_tree(&Node::Bool(true)), Err(failure("", DecodeErrorKind::WrongType)));
    assert_eq!(decode_tree(&Node::List(vec![])), Err(failure("", DecodeErrorKind::WrongType)));
}

#[test]
fn decode_rejects_an_empty_mapping() {
    assert_eq!(decode(b"{}"), Err(failure("schemaId", DecodeErrorKind::MissingField)));
    assert_eq!(
        decode_tree(&Node::Table(vec![])),
        Err(failure("schemaId", DecodeErrorKind::MissingField))
    );
}

#[test]
fn decode_keeps_an_absent_city_absent() {
    let source = FULL_DOCUMENT.replace("    city: San Francisco\n", "");
    let profile = decode(source.as_bytes()).unwrap();
    assert_eq!(profile.basics.location.city, None);
}

#[test]
fn decode_keeps_an_empty_city_present() {
    let source = FULL_DOCUMENT.replace("city: San Francisco", "city: \"\"");
    let profile = decode(source.as_bytes()).unwrap();
    assert_eq!(profile.basics.location.city, Some(String::new()));
}

#[test]
fn decode_tells_an_absent_city_from_an_empty_one() {
    let absent = FULL_DOCUMENT.replace("    city: San Francisco\n", "");
    let empty = FULL_DOCUMENT.replace("city: San Francisco", "city: ''");
    let absent = decode(absent.as_bytes()).unwrap();
    let empty = decode(empty.as_bytes()).unwrap();
    assert_ne!(absent.basics.location.city, empty.basics.location.city);
    assert_ne!(absent, empty);
}

#[test]
fn decode_reads_a_null_city_as_absent() {
    let source = FULL_DOCUMENT.replace("city: San Francisco", "city: ~");
    let profile = decode(source.as_bytes()).unwrap();
    assert_eq!(profile.basics.location.city, None);
    let source = FULL_DOCUMENT.replace("city: San Francisco", "city:");
    let profile = decode(source.as_bytes()).unwrap();
    assert_eq!(profile.basics.location.city, None);
}

#[test]
fn decode_reads_a_location_with_the_country_code_alone() {
    let root = document(Node::Table(basics_entries(Node::Table(vec![entry(
        "countryCode",
        text("DE"),
    )]))));
    let profile = decode_tree(&root).unwrap();
    assert_eq!(
        profile.basics.location,
        Location {
            address: None,
            postal_code: None,
            city: None,
            region: None,
            country_code: "DE".to_string(),
        }
    );
}

#[test]
fn decode_rejects_a_wrong_kind_in_an_optional_field() {
    let location = with(location_entries(), "region", Node::Bool(true));
    let root = document(Node::Table(basics_entries(Node::Table(location))));
    assert_eq!(
        decode_tree(&root),
        Err(failure("basics.location.region", DecodeErrorKind::WrongType))
    );
    let location = with(location_entries(), "address", Node::Number("12".to_string()));
    let root = document(Node::Table(basics_entries(Node::Table(location))));
    assert_eq!(
        decode_tree(&root),
        Err(failure("basics.location.address", DecodeErrorKind::WrongType))
    );
}

#[test]
fn decode_rejects_a_tagged_text() {
    let tagged = Node::Tagged("!secret".to_string(), Box::new(text("Jane Doe")));
    let basics = with(basics_entries(Node::Table(location_entries())), "name", tagged);
    let root = document(Node::Table(basics));
    assert_eq!(decode_tree(&root), Err(failure("basics.name", DecodeErrorKind::WrongType)));
    let source = FULL_DOCUMENT.replace("name: Jane Doe", "name: !secret Jane Doe");
    assert_eq!(decode(source.as_bytes()), Err(failure("basics.name", DecodeErrorKind::WrongType)));
}

#[test]
fn decode_accepts_an_empty_required_text() {
    let source = FULL_DOCUMENT.replace("label: Engineer", "label: ''");
    let profile = decode(source.as_bytes()).unwrap();
    assert_eq!(profile.basics.label, "");
}

#[test]
fn decode_keeps_quoted_numbers_as_text() {
    let source = FULL_DOCUMENT.replace("postalCode: CA 94115", "postalCode: \"94115\"");
    let profile = decode(source.as_bytes()).unwrap();
    assert_eq!(profile.basics.location.postal_code, Some("94115".to_string()));
}

#[test]
fn find_takes_the_first_entry_with_the_key() {
    let entries = vec![
        entry("a", text("1")),
        (Node::Number("7".to_string()), text("seven")),
        entry("b", text("2")),
        entry("a", text("3")),
    ];
    assert_eq!(find(&entries, "a"), Some(&text("1")));
    assert_eq!(find(&entries, "b"), Some(&text("2")));
    assert_eq!(find(&entries, "7"), None);
    assert_eq!(find(&entries, "c"), None);
    assert_eq!(find(&Vec::new(), "a"), None);
}

#[test]
fn path_of_joins_with_a_dot() {
    assert_eq!(path_of("", "basics"), "basics");
    assert_eq!(path_of("basics", "email"), "basics.email");
    assert_eq!(path_of("basics.location", "city"), "basics.location.city");
}
