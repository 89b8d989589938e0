use storyfetch::download::{sanitize_title, Url, UrlFactory};
use storyfetch::error::Error;
use storyfetch::text::{i32_dec, parse_i32};

#[test]
fn from_id_accepts_numbers() {
    assert_eq!(Url::from_id("123"), Ok(Url::Story(123)));
    assert_eq!(Url::from_id("-5"), Ok(Url::Story(-5)));
}

#[test]
fn from_id_rejects_junk() {
    assert_eq!(Url::from_id("12x"), Err(Error::BadId("12x".to_string())));
    assert_eq!(Url::from_id(""), Err(Error::BadId("".to_string())));
    assert_eq!(
        Url::from_id("2147483648"),
        Err(Error::BadId("2147483648".to_string()))
    );
}

#[test]
fn url_string_renders_addresses() {
    assert_eq!(
        Url::Story(77).url_string(),
        "https://www.bdsmlibrary.com/stories/wholestory.php?storyid=77"
    );
    assert_eq!(
        Url::Author(3).url_string(),
        "https://www.bdsmlibrary.com/stories/author.php?authorid=3"
    );
    assert_eq!(
        Url::Story(-5).url_string(),
        "https://www.bdsmlibrary.com/stories/wholestory.php?storyid=-5"
    );
}

#[test]
fn create_url_recognizes_author_and_story() {
    let factory = UrlFactory::new();
    assert_eq!(
        factory.create_url("https://www.bdsmlibrary.com/stories/author.php?authorid=42"),
        Ok(Url::Author(42))
    );
    assert_eq!(
        factory.create_url("https://www.bdsmlibrary.com/stories/wholestory.php?storyid=7"),
        Ok(Url::Story(7))
    );
}

#[test]
fn create_url_rejects_foreign_addresses() {
    let factory = UrlFactory::new();
    assert_eq!(
        factory.create_url("https://example.org/stories?storyid=7"),
        Err(Error::BadAddress(
            "https://example.org/stories?storyid=7".to_string()
        ))
    );
}

#[test]
fn sanitize_title_keeps_colons_readable() {
    assert_eq!(sanitize_title("part one: the start?"), "part one - the start");
    assert_eq!(sanitize_title("a\\b\"c"), "abc");
    assert_eq!(sanitize_title("plain"), "plain");
}

#[test]
fn parse_i32_handles_signs_and_bounds() {
    assert_eq!(parse_i32("0"), Some(0));
    assert_eq!(parse_i32("0012"), Some(12));
    assert_eq!(parse_i32("+5"), Some(5));
    assert_eq!(parse_i32("-5"), Some(-5));
    assert_eq!(parse_i32("2147483647"), Some(2147483647));
    assert_eq!(parse_i32("2147483648"), None);
    assert_eq!(parse_i32("-2147483648"), Some(-2147483648));
    assert_eq!(parse_i32("-2147483649"), None);
    assert_eq!(parse_i32(""), None);
    assert_eq!(parse_i32("-"), None);
    assert_eq!(parse_i32("+"), None);
    assert_eq!(parse_i32("12 "), None);
}

#[test]
fn i32_dec_renders_signed_numbers() {
    assert_eq!(i32_dec(0), "0");
    assert_eq!(i32_dec(120), "120");
    assert_eq!(i32_dec(-2147483648), "-2147483648");
}
