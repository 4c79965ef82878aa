//! Opening URLs in the browser, after checking that they parse and use an allowed scheme.
use vstd::prelude::*;

use crate::error::{BrowserError, YuhaError};
use crate::text::str_eq;

verus! {

/// What `Url::parse` gives for a text, taken as the URL's scheme, or none when the text does
/// not parse.
pub uninterp spec fn parsed_scheme(text: Seq<char>) -> Option<Seq<char>>;

/// Calls `Url::parse` and hands back the scheme of the URL, or none when parsing fails; the
/// outcome is named `parsed_scheme`.
#[verifier::external_body]
fn url_scheme(text: &str) -> (r: Option<String>)
    ensures
        match parsed_scheme(text@) {
            Some(s) => r matches Some(t) && t@ == s,
            None => r is None,
        },
{
    match url::Url::parse(text) {
        Ok(u) => Some(u.scheme().to_string()),
        Err(_) => None,
    }
}

/// Whether a scheme may be opened: `http`, `https`, `file` or `ftp`.
pub open spec fn allowed_scheme(s: Seq<char>) -> bool {
    s == "http"@ || s == "https"@ || s == "file"@ || s == "ftp"@
}

/// Whether a result is the invalid-URL error of a URL.
pub open spec fn is_invalid_url(r: Result<(), YuhaError>, url: Seq<char>) -> bool {
    r matches Err(YuhaError::Browser(BrowserError::InvalidUrl { url: u })) && u@ == url
}

/// Accepts a URL given its parsed scheme: it must have parsed, with an allowed scheme; else the
/// URL is invalid.
pub fn check_url_scheme(url: &str, scheme: Option<&str>) -> (r: Result<(), YuhaError>)
    ensures
        match scheme {
            Some(s) => if allowed_scheme(s@) {
                r is Ok
            } else {
                is_invalid_url(r, url@)
            },
            None => is_invalid_url(r, url@),
        },
{
    match scheme {
        Some(s) => {
            if str_eq(s, "http") || str_eq(s, "https") || str_eq(s, "file") || str_eq(s, "ftp") {
                Ok(())
            } else {
                Err(YuhaError::Browser(BrowserError::InvalidUrl { url: String::from_str(url) }))
            }
        },
        None => Err(YuhaError::Browser(BrowserError::InvalidUrl { url: String::from_str(url) })),
    }
}

/// Checks that a URL parses and uses an allowed scheme.
pub fn validate_url(url: &str) -> (r: Result<(), YuhaError>)
    ensures
        match parsed_scheme(url@) {
            Some(s) => if allowed_scheme(s) {
                r is Ok
            } else {
                is_invalid_url(r, url@)
            },
            None => is_invalid_url(r, url@),
        },
{
    match url_scheme(url) {
        Some(s) => check_url_scheme(url, Some(s.as_str())),
        None => check_url_scheme(url, None),
    }
}

/// Opens a URL in the browser after validating it; opening itself is not carried out here.
pub fn open_url(url: &str) -> (r: Result<(), YuhaError>)
    ensures
        match parsed_scheme(url@) {
            Some(s) => if allowed_scheme(s) {
                r is Ok
            } else {
                is_invalid_url(r, url@)
            },
            None => is_invalid_url(r, url@),
        },
{
    validate_url(url)
}

/// Opens URLs one after the other; the outcome of each, in order.
pub fn open_urls(urls: &[&str]) -> (r: Result<Vec<Result<(), YuhaError>>, YuhaError>)
    ensures
        r matches Ok(results) && results@.len() == urls@.len() && forall|i: int|
            0 <= i < urls@.len() ==> match parsed_scheme(#[trigger] urls@[i]@) {
                Some(s) => if allowed_scheme(s) {
                    results@[i] is Ok
                } else {
                    is_invalid_url(results@[i], urls@[i]@)
                },
                None => is_invalid_url(results@[i], urls@[i]@),
            },
{
    let mut results: Vec<Result<(), YuhaError>> = Vec::new();
    let mut i: usize = 0;
    while i < urls.len()
        invariant
            i <= urls@.len(),
            results@.len() == i,
            forall|j: int|
                0 <= j < i ==> match parsed_scheme(#[trigger] urls@[j]@) {
                    Some(s) => if allowed_scheme(s) {
                        results@[j] is Ok
                    } else {
                        is_invalid_url(results@[j], urls@[j]@)
                    },
                    None => is_invalid_url(results@[j], urls@[j]@),
                },
        decreases urls@.len() - i,
    {
        results.push(open_url(urls[i]));
        i = i + 1;
    }
    Ok(results)
}

} // verus!
