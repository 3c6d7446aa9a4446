use request_engine::cookies::cookie_pair;
use request_engine::jar::{stored_cookie_header, sync_cookies};
use request_engine::types::{Cookie, RequestError};

fn cookie(name: &str, value: &str) -> Cookie {
    Cookie {
        name: name.to_string(),
        value: value.to_string(),
        domain: None,
        path: None,
        expires: None,
        secure: None,
        http_only: None,
    }
}

#[test]
fn cookie_pair_composes_name_and_value_only() {
    let mut c = cookie("a", "1");
    c.domain = Some("ignored.example".to_string());
    c.secure = Some(true);
    assert_eq!(cookie_pair(&c), "a=1");
}

#[test]
fn injected_cookie_is_carried_for_later_requests_to_the_origin() {
    let jar = reqwest::cookie::Jar::default();
    let r = sync_cookies(&jar, "http://example.com/", &vec![cookie("a", "1")]);
    assert!(r.is_ok());
    assert_eq!(stored_cookie_header(&jar, "http://example.com/").as_deref(), Some("a=1"));
    // The jar keeps the cookie without the caller resupplying it.
    assert_eq!(stored_cookie_header(&jar, "http://example.com/other").as_deref(), Some("a=1"));
}

#[test]
fn injected_cookies_are_scoped_to_the_origin() {
    let jar = reqwest::cookie::Jar::default();
    sync_cookies(&jar, "http://example.com/", &vec![cookie("a", "1")]).unwrap();
    assert_eq!(stored_cookie_header(&jar, "http://elsewhere.example/"), None);
}

#[test]
fn several_cookies_are_all_stored() {
    let jar = reqwest::cookie::Jar::default();
    sync_cookies(&jar, "http://example.com/", &vec![cookie("a", "1"), cookie("b", "2")]).unwrap();
    let header = stored_cookie_header(&jar, "http://example.com/").unwrap();
    assert!(header.contains("a=1"));
    assert!(header.contains("b=2"));
}

#[test]
fn unparsable_request_url_stores_nothing() {
    let jar = reqwest::cookie::Jar::default();
    let r = sync_cookies(&jar, "not a url", &vec![cookie("a", "1")]);
    assert_eq!(r.unwrap_err(), RequestError::InvalidUrl);
}

#[test]
fn fresh_jar_contributes_no_cookie_header() {
    let jar = reqwest::cookie::Jar::default();
    assert_eq!(stored_cookie_header(&jar, "http://example.com/"), None);
    assert_eq!(stored_cookie_header(&jar, "not a url"), None);
}
