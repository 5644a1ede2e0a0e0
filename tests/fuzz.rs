use rustbuster::fuzzbuster::{CsrfError, FuzzBuster, FuzzRequest};

fn s(x: &str) -> String {
    x.to_owned()
}

fn buster(url: &str, headers: Vec<(String, String)>, body: &str) -> FuzzBuster {
    FuzzBuster {
        n_threads: 1,
        ignore_certificate: true,
        http_method: s("GET"),
        http_body: s(body),
        user_agent: s("ua"),
        http_headers: headers,
        wordlist_paths: vec![],
        url: s(url),
        include_status_codes: vec![],
        ignore_status_codes: vec![s("404")],
        include_body: vec![],
        ignore_body: vec![],
        no_progress_bar: true,
        exit_on_connection_errors: false,
        output: s(""),
        csrf_url: None,
        csrf_regex: None,
        csrf_headers: None,
    }
}

fn short_list() -> Vec<String> {
    vec![s("1"), s("2")]
}

fn request(url: &str, headers: Vec<(String, String)>, body: &str, payload: Vec<&str>) -> FuzzRequest {
    FuzzRequest {
        url: s(url),
        http_method: s("GET"),
        http_headers: headers,
        http_body: s(body),
        user_agent: s("ua"),
        payload: payload.into_iter().map(s).collect(),
        csrf_url: None,
        csrf_regex: None,
        csrf_headers: None,
    }
}

fn hv(name: &str, value: &str) -> Vec<(String, String)> {
    vec![(s(name), s(value))]
}

#[test]
fn build_requests_fuzz_url_single() {
    let b = buster("http://localhost/FUZZ", hv("Header", "Value"), "body");
    let requests = b.build_requests(&vec![short_list()]);
    let expected = vec![
        request("http://localhost/1", hv("Header", "Value"), "body", vec!["1"]),
        request("http://localhost/2", hv("Header", "Value"), "body", vec!["2"]),
    ];
    assert_eq!(expected, requests);
}

#[test]
fn build_requests_fuzz_url_multiple() {
    let b = buster("http://localhost/FUZZ/FUZZ", hv("Header", "Value"), "body");
    let requests = b.build_requests(&vec![short_list(), short_list()]);
    let expected = vec![
        request("http://localhost/1/1", hv("Header", "Value"), "body", vec!["1", "1"]),
        request("http://localhost/1/2", hv("Header", "Value"), "body", vec!["1", "2"]),
        request("http://localhost/2/1", hv("Header", "Value"), "body", vec!["2", "1"]),
        request("http://localhost/2/2", hv("Header", "Value"), "body", vec!["2", "2"]),
    ];
    assert_eq!(expected, requests);
}

#[test]
fn build_requests_fuzz_header_single() {
    let b = buster("http://localhost/", hv("Header", "FUZZ"), "body");
    let requests = b.build_requests(&vec![short_list()]);
    let expected = vec![
        request("http://localhost/", hv("Header", "1"), "body", vec!["1"]),
        request("http://localhost/", hv("Header", "2"), "body", vec!["2"]),
    ];
    assert_eq!(expected, requests);
}

#[test]
fn build_requests_fuzz_header_multiple() {
    let b = buster("http://localhost/", hv("FUZZ", "FUZZ"), "body");
    let requests = b.build_requests(&vec![short_list(), short_list()]);
    let expected = vec![
        request("http://localhost/", hv("1", "1"), "body", vec!["1", "1"]),
        request("http://localhost/", hv("1", "2"), "body", vec!["1", "2"]),
        request("http://localhost/", hv("2", "1"), "body", vec!["2", "1"]),
        request("http://localhost/", hv("2", "2"), "body", vec!["2", "2"]),
    ];
    assert_eq!(expected, requests);
}

#[test]
fn build_requests_fuzz_body_single() {
    let b = buster("http://localhost/", hv("Header", "Value"), "FUZZ");
    let requests = b.build_requests(&vec![short_list()]);
    let expected = vec![
        request("http://localhost/", hv("Header", "Value"), "1", vec!["1"]),
        request("http://localhost/", hv("Header", "Value"), "2", vec!["2"]),
    ];
    assert_eq!(expected, requests);
}

#[test]
fn build_requests_fuzz_body_multiple() {
    let b = buster("http://localhost/", hv("Header", "Value"), "FUZZ:FUZZ");
    let requests = b.build_requests(&vec![short_list(), short_list()]);
    let expected = vec![
        request("http://localhost/", hv("Header", "Value"), "1:1", vec!["1", "1"]),
        request("http://localhost/", hv("Header", "Value"), "1:2", vec!["1", "2"]),
        request("http://localhost/", hv("Header", "Value"), "2:1", vec!["2", "1"]),
        request("http://localhost/", hv("Header", "Value"), "2:2", vec!["2", "2"]),
    ];
    assert_eq!(expected, requests);
}

#[test]
fn build_requests_cartesian_sizes_and_order() {
    let b = buster("http://localhost/FUZZ/FUZZ", vec![], "");
    let first = vec![s("a"), s("b")];
    let second = vec![s("x"), s("y"), s("z")];
    let requests = b.build_requests(&vec![first.clone(), second.clone()]);
    assert_eq!(6, requests.len());
    for i in 0..2 {
        for j in 0..3 {
            let r = &requests[i * 3 + j];
            assert_eq!(vec![first[i].clone(), second[j].clone()], r.payload);
            assert_eq!(format!("http://localhost/{}/{}", first[i], second[j]), r.url);
        }
    }
}

#[test]
fn build_requests_no_wordlist_gives_nothing() {
    let b = buster("http://localhost/FUZZ", vec![], "");
    assert!(b.build_requests(&vec![]).is_empty());
    assert!(b.build_requests(&vec![vec![]]).is_empty());
    assert!(b.build_requests(&vec![short_list(), vec![]]).is_empty());
}

#[test]
fn build_requests_is_repeatable() {
    let b = buster("http://localhost/FUZZ", hv("X", "FUZZ"), "FUZZ");
    let lists = vec![short_list(), vec![s("a"), s("b"), s("c")]];
    assert_eq!(b.build_requests(&lists), b.build_requests(&lists));
}

#[test]
fn build_requests_url_token_takes_precedence() {
    let b = buster("http://localhost/FUZZ", hv("H", "FUZZ"), "FUZZ");
    let requests = b.build_requests(&vec![vec![s("w")]]);
    assert_eq!(1, requests.len());
    assert_eq!("http://localhost/w", requests[0].url);
    assert_eq!(hv("H", "FUZZ"), requests[0].http_headers);
    assert_eq!("FUZZ", requests[0].http_body);
}

#[test]
fn build_requests_tokens_taken_left_to_right() {
    let b = buster("http://localhost/FUZZ", hv("H", "FUZZ"), "FUZZ");
    let requests = b.build_requests(&vec![vec![s("a")], vec![s("b")], vec![s("c")]]);
    assert_eq!(1, requests.len());
    assert_eq!("http://localhost/a", requests[0].url);
    assert_eq!(hv("H", "b"), requests[0].http_headers);
    assert_eq!("c", requests[0].http_body);
}

#[test]
fn build_requests_drops_unparsable_urls() {
    let b = buster("http://localhost/FUZZ", vec![], "");
    let requests = b.build_requests(&vec![vec![s("ok"), s("bad word"), s("fine")]]);
    let urls: Vec<String> = requests.iter().map(|r| r.url.clone()).collect();
    assert_eq!(vec![s("http://localhost/ok"), s("http://localhost/fine")], urls);
}

#[test]
fn build_requests_carries_csrf_parameters() {
    let mut b = buster("http://localhost/FUZZ", vec![], "t=CSRFCSRF");
    b.csrf_url = Some(s("http://localhost/csrf"));
    b.csrf_regex = Some(s("(\\w+)"));
    b.csrf_headers = Some(hv("Cookie", "a=b"));
    let requests = b.build_requests(&vec![vec![s("1")]]);
    assert_eq!(1, requests.len());
    assert_eq!(Some(s("http://localhost/csrf")), requests[0].csrf_url);
    assert_eq!(Some(s("(\\w+)")), requests[0].csrf_regex);
    assert_eq!(Some(hv("Cookie", "a=b")), requests[0].csrf_headers);
}

#[test]
fn split_http_headers() {
    let header = "Header: Value";
    let expected = (s("Header"), s("Value"));
    assert_eq!(expected, rustbuster::fuzzbuster::split_http_headers(header));
}

#[test]
fn split_http_headers_without_colon() {
    assert_eq!((s(""), s("c")), rustbuster::fuzzbuster::split_http_headers("abc"));
    assert_eq!((s(""), s("")), rustbuster::fuzzbuster::split_http_headers("a"));
}

fn csrf_request(url: &str, headers: Vec<(String, String)>, body: &str) -> FuzzRequest {
    FuzzRequest {
        url: s(url),
        http_method: s("GET"),
        http_headers: headers,
        http_body: s(body),
        user_agent: s("ua"),
        payload: vec![s("1")],
        csrf_url: Some(s("http://localhost/")),
        csrf_regex: Some(s("(\\w+)")),
        csrf_headers: None,
    }
}

#[test]
fn replace_csrf_body() {
    let r = csrf_request("http://localhost/", vec![], "CSRFCSRF");
    let actual = FuzzBuster::replace_csrf(r, s("VALUE"));
    assert_eq!("VALUE", actual.http_body);
}

#[test]
fn replace_csrf_header() {
    let r = csrf_request("http://localhost/", hv("X-CSRF-Token", "CSRFCSRF"), "body");
    let actual = FuzzBuster::replace_csrf(r, s("VALUE"));
    assert_eq!(hv("X-CSRF-Token", "VALUE"), actual.http_headers);
}

#[test]
fn replace_csrf_url() {
    let r = csrf_request("http://localhost/CSRFCSRF", vec![], "body");
    let actual = FuzzBuster::replace_csrf(r, s("VALUE"));
    assert_eq!("http://localhost/VALUE", actual.url);
}

#[test]
fn resolve_csrf_replaces_every_placeholder() {
    let mut r = csrf_request(
        "http://localhost/CSRFCSRF?t=CSRFCSRF",
        hv("X-CSRFCSRF", "CSRFCSRF"),
        "{\"csrf\":\"CSRFCSRF\"}",
    );
    r.csrf_regex = Some(s("\\{\"csrf\":\"(\\w+)\"\\}"));
    let page = "{\"csrf\":\"XYZ123\"}";
    let out = FuzzBuster::resolve_csrf(r, page).unwrap();
    assert_eq!("http://localhost/XYZ123?t=XYZ123", out.url);
    assert_eq!(hv("X-XYZ123", "XYZ123"), out.http_headers);
    assert_eq!("{\"csrf\":\"XYZ123\"}", out.http_body);
}

#[test]
fn resolve_csrf_without_match_keeps_request() {
    let mut r = csrf_request("http://localhost/CSRFCSRF", vec![], "CSRFCSRF");
    r.csrf_regex = Some(s("\\{\"csrf\":\"(\\w+)\"\\}"));
    let out = FuzzBuster::resolve_csrf(r.clone(), "no token here").unwrap();
    assert_eq!(r, out);
}

#[test]
fn resolve_csrf_errors() {
    let mut r = csrf_request("http://localhost/", vec![], "CSRFCSRF");
    r.csrf_regex = Some(s("(unclosed"));
    assert_eq!(Err(CsrfError::InvalidPattern), FuzzBuster::resolve_csrf(r.clone(), "x").map(|_| ()));
    r.csrf_regex = None;
    assert_eq!(Err(CsrfError::MissingPattern), FuzzBuster::resolve_csrf(r, "x").map(|_| ()));
}

#[test]
fn csrf_pattern_validity() {
    assert!(FuzzBuster::csrf_pattern_is_valid("\\{\"csrf\":\"(\\w+)\"\\}"));
    assert!(!FuzzBuster::csrf_pattern_is_valid("(unclosed"));
}

#[test]
fn apply_csrf_with_and_without_token() {
    let r = csrf_request("http://localhost/CSRFCSRF", vec![], "b");
    assert_eq!(r.clone(), FuzzBuster::apply_csrf(r.clone(), None));
    assert_eq!("http://localhost/T", FuzzBuster::apply_csrf(r, Some(s("T"))).url);
}
