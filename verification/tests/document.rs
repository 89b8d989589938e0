use storyfetch::document::{Document, Meta, MetadataMap};
use storyfetch::error::Error;

fn doc_with(entries: &[(Meta, &str)], text: &str) -> Document {
    let mut meta = MetadataMap::new();
    for (k, v) in entries {
        meta.insert(k.clone(), v.to_string());
    }
    Document {
        meta,
        text: text.to_string(),
    }
}

#[test]
fn metadata_inheritance_keeps_both_fields() {
    let mut meta = MetadataMap::new();
    meta.insert(Meta::Author, "X".to_string());
    meta.insert(Meta::Title, "Y".to_string());
    let doc = Document {
        meta,
        text: "body".to_string(),
    };
    assert_eq!(doc.author(), Some("X"));
    assert_eq!(doc.title(), Some("Y"));
}

#[test]
fn metadata_inheritance_fetched_value_wins() {
    let mut meta = MetadataMap::new();
    meta.insert(Meta::Author, "X".to_string());
    meta.insert(Meta::Title, "Y".to_string());
    meta.insert(Meta::Author, "Z".to_string());
    let doc = Document {
        meta,
        text: "body".to_string(),
    };
    assert_eq!(doc.author(), Some("Z"));
    assert_eq!(doc.title(), Some("Y"));
}

#[test]
fn default_extension_is_html() {
    let doc = doc_with(&[], "body");
    assert_eq!(doc.extension(), "html");
}

#[test]
fn explicit_extension_wins() {
    let doc = doc_with(&[(Meta::Extension, "txt")], "body");
    assert_eq!(doc.extension(), "txt");
}

#[test]
fn absent_fields_read_as_none() {
    let doc = doc_with(&[], "body");
    assert_eq!(doc.author(), None);
    assert_eq!(doc.title(), None);
    assert_eq!(doc.publication_date(), None);
}

#[test]
fn content_is_the_body() {
    let doc = doc_with(&[], "the text");
    assert_eq!(doc.content(), "the text");
}

#[test]
fn publication_date_round_trips() {
    let doc = doc_with(&[(Meta::PublicationDate, "2003-05-01")], "body");
    assert_eq!(doc.publication_date(), Some("2003-05-01"));
}

#[test]
fn other_keys_are_distinct_fields() {
    let mut meta = MetadataMap::new();
    meta.insert(Meta::Other("series".to_string()), "one".to_string());
    meta.insert(Meta::Other("warning".to_string()), "two".to_string());
    assert_eq!(
        meta.get(&Meta::Other("series".to_string())).map(String::as_str),
        Some("one")
    );
    assert_eq!(
        meta.get(&Meta::Other("warning".to_string())).map(String::as_str),
        Some("two")
    );
    assert_eq!(meta.get(&Meta::Author), None);
}

#[test]
fn metadata_copies_are_independent() {
    let mut original = MetadataMap::new();
    original.insert(Meta::Author, "X".to_string());
    let mut copy = original.clone();
    copy.insert(Meta::Title, "Y".to_string());
    assert!(original.get(&Meta::Title).is_none());
    assert_eq!(copy.get(&Meta::Author).map(String::as_str), Some("X"));
}

#[test]
fn errors_describe_themselves() {
    assert_eq!(
        Error::MissingDomain("x://".to_string()).describe(),
        "missing domain: x://"
    );
    assert_eq!(
        Error::UnknownDomain("example.org".to_string()).describe(),
        "unknown domain: example.org"
    );
    assert_eq!(
        Error::Transport("connection reset".to_string()).describe(),
        "transport: connection reset"
    );
    assert_eq!(Error::MissingTitle.describe(), "missing title");
    assert_eq!(Error::BadUrl("empty".to_string()).describe(), "bad url: empty");
    assert_eq!(
        Error::BadAddress("nope".to_string()).describe(),
        "bad address: nope"
    );
    assert_eq!(Error::BadId("12x".to_string()).describe(), "bad story id: 12x");
}
