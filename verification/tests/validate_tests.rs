use linkie::validate::{url_is_acceptable, validate_link};

#[test]
fn accepts_plain_https_url() {
    let r = validate_link(String::from("https://example.com/ok"));
    match r {
        Ok(u) => assert_eq!(u, "https://example.com/ok"),
        Err(_) => panic!("a plain https URL must be accepted"),
    }
}

#[test]
fn accepts_http_and_ftp_schemes() {
    assert!(url_is_acceptable("http://example.com/path"));
    assert!(url_is_acceptable("ftp://files.example.com/pub"));
}

#[test]
fn accepts_minimal_host() {
    assert!(url_is_acceptable("https://ab"));
}

#[test]
fn rejects_non_url() {
    assert!(validate_link(String::from("not a url")).is_err());
}

#[test]
fn rejects_javascript_url() {
    assert!(validate_link(String::from("javascript:alert(1)")).is_err());
}

#[test]
fn rejects_data_url() {
    assert!(validate_link(String::from("data:text/html;base64xyz")).is_err());
}

#[test]
fn rejects_each_banned_character() {
    assert!(!url_is_acceptable("https://example.com/a b"));
    assert!(!url_is_acceptable("https://example.com/a?b=1"));
    assert!(!url_is_acceptable("https://example.com/a\"b"));
    assert!(!url_is_acceptable("https://example.com/a&b"));
    assert!(!url_is_acceptable("https://example.com/a%20b"));
}

#[test]
fn rejects_missing_or_foreign_scheme() {
    assert!(!url_is_acceptable("example.com"));
    assert!(!url_is_acceptable("ssh://example.com/x"));
    assert!(!url_is_acceptable(""));
}

#[test]
fn rejects_bad_first_host_character() {
    assert!(!url_is_acceptable("https:///rooted/path"));
    assert!(!url_is_acceptable("https://.com"));
    assert!(!url_is_acceptable("https://$host"));
    assert!(!url_is_acceptable("https://#frag"));
}

#[test]
fn rejects_too_short_host() {
    assert!(!url_is_acceptable("https://"));
    assert!(!url_is_acceptable("https://a"));
}

#[test]
fn rejects_embedded_whitespace() {
    assert!(!url_is_acceptable("https://example.com/a\tb"));
    assert!(!url_is_acceptable("https://example.com/a\nb"));
}

#[test]
fn validator_and_filter_agree() {
    let cases = [
        "https://example.com/ok",
        "not a url",
        "javascript:alert(1)",
        "ftp://files.example.com/pub",
        "https://a",
    ];
    for c in cases {
        assert_eq!(url_is_acceptable(c), validate_link(String::from(c)).is_ok());
    }
}
