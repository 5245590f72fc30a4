use url_shortener::validate::{
    reserved, url_verdict, validate_name, validate_url, NameFault, ValidationError, LIST_SEGMENT,
    URL_PATTERN, USER_SEGMENT,
};

#[test]
fn empty_name_is_refused() {
    assert_eq!(validate_name(""), Err(ValidationError::InvalidName(NameFault::Empty)));
}

#[test]
fn reserved_names_are_refused() {
    assert_eq!(validate_name("slugs"), Err(ValidationError::InvalidName(NameFault::Reserved)));
    assert_eq!(validate_name("user"), Err(ValidationError::InvalidName(NameFault::Reserved)));
    assert_eq!(validate_name(LIST_SEGMENT), Err(ValidationError::InvalidName(NameFault::Reserved)));
    assert_eq!(validate_name(USER_SEGMENT), Err(ValidationError::InvalidName(NameFault::Reserved)));
}

#[test]
fn other_names_are_accepted() {
    for name in ["abc", "blog", "a", "Slugs", "users", "slug", "user ", "slugs/", "ü", "with space"] {
        assert_eq!(validate_name(name), Ok(()));
    }
}

#[test]
fn reserved_is_exact() {
    assert!(reserved("slugs"));
    assert!(reserved("user"));
    assert!(!reserved(""));
    assert!(!reserved("USER"));
    assert!(!reserved("slugsuser"));
}

#[test]
fn urls_with_scheme_and_dotted_host_are_accepted() {
    for url in [
        "https://example.com/path",
        "http://example.com",
        "https://alice.dev",
        "https://www.example.com",
        "https://sub.domain.example.org/a/b/c?x=1&y=2#frag",
        "http://example.com:8080/x",
        "https://example.co/~user/file.html",
    ] {
        assert_eq!(validate_url(url), Ok(()), "{}", url);
    }
}

#[test]
fn other_texts_are_refused() {
    for url in [
        "not-a-url",
        "ftp://x.com",
        "",
        "example.com",
        "//example.com",
        "https://",
        "https://abc",
        "https://localhost",
        "https:/example.com",
        "mailto:a@example.com",
        " https://example.com",
        "https://example.com/a b",
        "https://example.com\n",
        "javascript:alert(1)",
    ] {
        assert_eq!(validate_url(url), Err(ValidationError::InvalidUrl), "{:?}", url);
    }
}

#[test]
fn only_a_match_is_accepted() {
    assert_eq!(url_verdict(Some(true)), Ok(()));
    assert_eq!(url_verdict(Some(false)), Err(ValidationError::InvalidUrl));
    assert_eq!(url_verdict(None), Err(ValidationError::InvalidUrl));
}

#[test]
fn pattern_is_anchored() {
    assert!(URL_PATTERN.starts_with('^'));
    assert!(URL_PATTERN.ends_with('$'));
    assert_eq!(validate_url("see https://example.com"), Err(ValidationError::InvalidUrl));
    assert_eq!(validate_url("https://example.com and more"), Err(ValidationError::InvalidUrl));
}
