use storyfetch::error::Error;
use storyfetch::registry::{domain, lookup, register_adapters, SourceKind};
use storyfetch::text::{concat_str, sanitize_title, str_eq, trim_spaces, usize_dec};

#[test]
fn lookup_finds_every_registered_domain() {
    assert_eq!(lookup("www.asstr.org").unwrap(), SourceKind::Asstr);
    assert_eq!(lookup("www.bdsmlibrary.com").unwrap(), SourceKind::BdsmLibrary);
    assert_eq!(lookup("www.sexstories.com").unwrap(), SourceKind::SexStories);
    assert_eq!(lookup("www.thefetlibrary.com").unwrap(), SourceKind::FetLibrary);
    assert_eq!(lookup("www.utopiastories.com").unwrap(), SourceKind::GaggedUtopia);
}

#[test]
fn lookup_rejects_unknown_domain() {
    match lookup("example.org") {
        Err(Error::UnknownDomain(d)) => assert_eq!(d, "example.org"),
        other => panic!("expected UnknownDomain, got {:?}", other),
    }
}

#[test]
fn registry_table_lists_all_sources() {
    let table = register_adapters();
    assert_eq!(table.len(), 5);
    assert_eq!(table[0].0, "www.asstr.org");
    assert_eq!(table[0].1, SourceKind::Asstr);
    for (name, kind) in &table {
        assert_eq!(lookup(name).unwrap(), *kind);
    }
}

#[test]
fn domain_of_seed_url() {
    assert_eq!(
        domain("https://www.asstr.org/files/x").unwrap(),
        "www.asstr.org"
    );
}

#[test]
fn domain_of_unparsable_url() {
    match domain("not a url") {
        Err(Error::BadUrl(_)) => {}
        other => panic!("expected BadUrl, got {:?}", other),
    }
}

#[test]
fn domain_of_address_without_name() {
    match domain("http://127.0.0.1/x") {
        Err(Error::MissingDomain(u)) => assert_eq!(u, "http://127.0.0.1/x"),
        other => panic!("expected MissingDomain, got {:?}", other),
    }
}

#[test]
fn sanitize_title_removes_path_hazards() {
    assert_eq!(sanitize_title("a/b:c?d\"e\\f"), "a_b_cdef");
    assert_eq!(sanitize_title("clean title"), "clean title");
    assert_eq!(sanitize_title(""), "");
}

#[test]
fn str_eq_compares_contents() {
    assert!(str_eq("abc", "abc"));
    assert!(!str_eq("abc", "abd"));
    assert!(!str_eq("abc", "ab"));
}

#[test]
fn concat_str_appends() {
    assert_eq!(concat_str("https://host", "/path"), "https://host/path");
    assert_eq!(concat_str("", "x"), "x");
}

#[test]
fn trim_spaces_strips_both_ends() {
    assert_eq!(trim_spaces(" \t my title \n"), "my title");
    assert_eq!(trim_spaces("solid"), "solid");
    assert_eq!(trim_spaces("  \n "), "");
}

#[test]
fn trim_spaces_strips_unicode_whitespace() {
    assert_eq!(trim_spaces("\u{00A0}x\u{3000}"), "x");
    assert_eq!(trim_spaces("\u{2028}\u{202F}"), "");
    assert_eq!(trim_spaces(" a\u{00A0}b "), "a\u{00A0}b");
}

#[test]
fn usize_dec_renders_decimal() {
    assert_eq!(usize_dec(0), "0");
    assert_eq!(usize_dec(7), "7");
    assert_eq!(usize_dec(120), "120");
    assert_eq!(usize_dec(100003), "100003");
}
