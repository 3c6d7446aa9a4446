use request_engine::body::finish;
use request_engine::exchange::{Exchange, HopDecision};
use request_engine::timing::OverallMeasure;
use request_engine::types::{BodyPayload, HopMeasure, HopResponse, RequestError};

fn pair(k: &str, v: &str) -> (String, String) {
    (k.to_string(), v.to_string())
}

fn redirect_to(location: &str) -> HopResponse {
    HopResponse {
        status: 302,
        status_text: "302 Found".to_string(),
        headers: vec![pair("location", location)],
        set_cookies: vec![],
    }
}

fn terminal(headers: Vec<(String, String)>) -> HopResponse {
    HopResponse {
        status: 200,
        status_text: "200 OK".to_string(),
        headers,
        set_cookies: vec![],
    }
}

fn measure(start: u128) -> HopMeasure {
    HopMeasure { start, first_byte: start + 5, end: start + 10 }
}

#[test]
fn chain_matches_hops_traversed_in_order() {
    let mut ex = Exchange::new("http://a.example/start".to_string());
    let d1 = ex.on_response(redirect_to("/next"), &measure(0));
    assert!(matches!(d1, HopDecision::Follow));
    assert_eq!(ex.current_url(), "http://a.example/next");
    let d2 = ex.on_response(redirect_to("http://b.example/x"), &measure(100));
    assert!(matches!(d2, HopDecision::Follow));
    assert_eq!(ex.current_url(), "http://b.example/x");
    let d3 = ex.on_response(terminal(vec![]), &measure(200));
    let resp = match d3 {
        HopDecision::Terminal(r) => r,
        _ => panic!("expected a terminal response"),
    };
    assert_eq!(resp.status, 200);
    let chain = ex.into_chain();
    assert_eq!(chain.len(), 2);
    assert_eq!(chain[0].url, "http://a.example/start");
    assert_eq!(chain[1].url, "http://a.example/next");
    assert_eq!(chain[0].status, 302);
    assert_eq!(chain[0].status_text, "302 Found");
}

#[test]
fn ten_redirects_exceed_the_limit_with_all_hops_recorded() {
    let mut ex = Exchange::new("http://a.example/0".to_string());
    for i in 0..9 {
        let d = ex.on_response(redirect_to(&format!("/{}", i + 1)), &measure(i as u128));
        assert!(matches!(d, HopDecision::Follow));
    }
    let d = ex.on_response(redirect_to("/10"), &measure(9));
    assert!(matches!(d, HopDecision::Fail(RequestError::RedirectLoopExceeded)));
    let chain = ex.into_chain();
    assert_eq!(chain.len(), 10);
    for (i, hop) in chain.iter().enumerate() {
        assert_eq!(hop.url, format!("http://a.example/{}", i));
    }
}

#[test]
fn location_resolution_follows_reference_resolution() {
    let mut ex = Exchange::new("http://a.example/dir/page?q=1".to_string());
    ex.on_response(redirect_to("b"), &measure(0));
    assert_eq!(ex.current_url(), "http://a.example/dir/b");
    ex.on_response(redirect_to("../other"), &measure(10));
    assert_eq!(ex.current_url(), "http://a.example/other");
    ex.on_response(redirect_to("//b.example/x"), &measure(20));
    assert_eq!(ex.current_url(), "http://b.example/x");
    ex.on_response(redirect_to("/rooted"), &measure(30));
    assert_eq!(ex.current_url(), "http://b.example/rooted");
}

#[test]
fn location_header_is_found_in_any_case() {
    let mut ex = Exchange::new("http://a.example/".to_string());
    let resp = HopResponse {
        status: 302,
        status_text: "302 Found".to_string(),
        headers: vec![pair("Location", "/next")],
        set_cookies: vec![],
    };
    let d = ex.on_response(resp, &measure(0));
    assert!(matches!(d, HopDecision::Follow));
    assert_eq!(ex.current_url(), "http://a.example/next");
}

#[test]
fn redirect_without_location_is_terminal() {
    let mut ex = Exchange::new("http://a.example/".to_string());
    let resp = HopResponse {
        status: 301,
        status_text: "301 Moved Permanently".to_string(),
        headers: vec![pair("x-test", "1")],
        set_cookies: vec![],
    };
    let d = ex.on_response(resp, &measure(0));
    let resp = match d {
        HopDecision::Terminal(r) => r,
        _ => panic!("expected a terminal response"),
    };
    assert_eq!(resp.status, 301);
    assert_eq!(ex.current_url(), "http://a.example/");
    assert_eq!(ex.into_chain().len(), 0);
}

#[test]
fn unresolvable_location_fails_with_invalid_url() {
    let mut ex = Exchange::new("http://a.example/".to_string());
    let d = ex.on_response(redirect_to("http://["), &measure(0));
    assert!(matches!(d, HopDecision::Fail(RequestError::InvalidUrl)));
    assert_eq!(ex.into_chain().len(), 0);
}

#[test]
fn hop_timing_is_computed_from_the_measure() {
    let mut ex = Exchange::new("http://a.example/".to_string());
    let m = HopMeasure { start: 100, first_byte: 150, end: 200 };
    ex.on_response(redirect_to("/n"), &m);
    let chain = ex.into_chain();
    let t = &chain[0].timing;
    assert_eq!(t.start, 100);
    assert_eq!(t.end, 200);
    assert_eq!(t.duration, 100);
    assert_eq!(t.dns, Some(50));
    assert_eq!(t.tcp, None);
    assert_eq!(t.tls, None);
    assert_eq!(t.request, None);
    assert_eq!(t.first_byte, Some(50));
    assert_eq!(t.download, Some(50));
    assert_eq!(t.total, 100);
}

#[test]
fn hop_size_counts_header_bytes_only() {
    let mut ex = Exchange::new("http://a.example/".to_string());
    let resp = HopResponse {
        status: 302,
        status_text: "302 Found".to_string(),
        headers: vec![pair("location", "/n"), pair("set-cookie", "a=1")],
        set_cookies: vec!["a=1".to_string()],
    };
    ex.on_response(resp, &measure(0));
    let chain = ex.into_chain();
    assert_eq!(chain[0].size.headers, 31);
    assert_eq!(chain[0].size.body, 0);
    assert_eq!(chain[0].size.total, 31);
}

fn overall() -> OverallMeasure {
    OverallMeasure { start: 10, hop_start: 20, first_byte: 30, end: 50 }
}

#[test]
fn cookies_accumulate_in_discovery_order_with_duplicates() {
    let mut ex = Exchange::new("http://a.example/".to_string());
    let mut hop1 = redirect_to("/b");
    hop1.set_cookies = vec!["a=1".to_string(), "b=2".to_string()];
    ex.on_response(hop1, &measure(0));
    let mut hop2 = redirect_to("/c");
    hop2.set_cookies = vec!["c=3".to_string()];
    ex.on_response(hop2, &measure(10));
    let mut fin = terminal(vec![pair("content-type", "text/plain")]);
    fin.set_cookies = vec!["d=4".to_string(), "a=1".to_string()];
    let data = finish(ex, fin, BodyPayload::Text("hi".to_string()), &overall());
    assert_eq!(data.cookies, vec!["a=1", "b=2", "c=3", "d=4", "a=1"]);
}

#[test]
fn binary_body_is_base64_of_the_exact_bytes() {
    let ex = Exchange::new("http://a.example/".to_string());
    let resp = terminal(vec![pair("content-type", "image/png")]);
    let bytes = vec![137u8, 80, 78, 71, 13, 10, 26, 10];
    let data = finish(ex, resp, BodyPayload::Binary(bytes.clone()), &overall());
    assert!(data.is_base64);
    assert_eq!(data.body, base64::encode(&bytes));
    assert_eq!(data.size.body, bytes.len());
    assert_eq!(data.size.headers, "content-type".len() + "image/png".len() + 4);
    assert_eq!(data.size.total, data.size.headers + data.size.body);
}

#[test]
fn svg_body_stays_text() {
    let ex = Exchange::new("http://a.example/".to_string());
    let resp = terminal(vec![pair("content-type", "image/svg+xml")]);
    let data = finish(ex, resp, BodyPayload::Text("<svg/>".to_string()), &overall());
    assert!(!data.is_base64);
    assert_eq!(data.body, "<svg/>");
    assert_eq!(data.size.body, 6);
}

#[test]
fn json_body_stays_text() {
    let ex = Exchange::new("http://a.example/".to_string());
    let resp = terminal(vec![pair("content-type", "application/json")]);
    let data = finish(ex, resp, BodyPayload::Text("{}".to_string()), &overall());
    assert!(!data.is_base64);
    assert_eq!(data.body, "{}");
}

#[test]
fn overall_timing_spans_the_whole_exchange() {
    let ex = Exchange::new("http://a.example/".to_string());
    let resp = terminal(vec![]);
    let data = finish(ex, resp, BodyPayload::Text(String::new()), &overall());
    let t = &data.timing;
    assert_eq!(t.start, 10);
    assert_eq!(t.end, 50);
    assert_eq!(t.duration, 40);
    assert_eq!(t.dns, Some(10));
    assert_eq!(t.first_byte, Some(10));
    assert_eq!(t.download, Some(20));
    assert_eq!(t.total, 40);
    assert_eq!(data.size.total, data.size.headers + data.size.body);
    assert_eq!(data.status, 200);
    assert_eq!(data.redirect_chain.len(), 0);
}

#[test]
fn text_body_size_is_its_utf8_byte_length() {
    let ex = Exchange::new("http://a.example/".to_string());
    let resp = terminal(vec![]);
    let data = finish(ex, resp, BodyPayload::Text("héllo".to_string()), &overall());
    assert_eq!(data.size.body, 6);
}
