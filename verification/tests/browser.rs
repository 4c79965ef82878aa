use yuha::browser::{check_url_scheme, open_url, open_urls, validate_url};
use yuha::error::{BrowserError, YuhaError};

#[test]
fn test_open_valid_url() {
    let result = open_url("https://example.com");
    assert!(result.is_ok());
}

#[test]
fn test_invalid_url() {
    let result = open_url("not-a-url");
    assert!(result.is_err());

    let error = result.unwrap_err();
    assert!(matches!(error, YuhaError::Browser(BrowserError::InvalidUrl { .. })));
}

#[test]
fn test_unsupported_scheme() {
    let result = open_url("javascript:alert('test')");
    assert!(result.is_err());
}

#[test]
fn test_validate_url() {
    assert!(validate_url("https://example.com").is_ok());
    assert!(validate_url("http://localhost:8080").is_ok());
    assert!(validate_url("file:///home/user/test.html").is_ok());

    assert!(validate_url("not-a-url").is_err());
    assert!(validate_url("javascript:alert('test')").is_err());
}

#[test]
fn test_open_multiple_urls() {
    let urls = vec!["https://example.com", "https://github.com", "http://localhost:8080"];

    let results = open_urls(&urls).unwrap();
    assert_eq!(results.len(), 3);

    for result in results {
        assert!(result.is_ok());
    }
}

#[test]
fn schemes_are_checked_after_parsing() {
    assert!(check_url_scheme("ftp://x", Some("ftp")).is_ok());
    assert!(check_url_scheme("mailto:x", Some("mailto")).is_err());
    match check_url_scheme("%%", None) {
        Err(YuhaError::Browser(BrowserError::InvalidUrl { url })) => assert_eq!(url, "%%"),
        other => panic!("unexpected {:?}", other),
    }
    let results = open_urls(&["ftp://files", "data:text/plain,hi"]).unwrap();
    assert!(results[0].is_ok());
    assert!(results[1].is_err());
}
