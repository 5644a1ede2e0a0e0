use rustbuster::args::{extension_list, status_code_list, url_is_valid};
use rustbuster::dispatch::tab_count;
use rustbuster::dnsbuster::display_domain;
use rustbuster::fuzzbuster::{is_body_case, is_header_case, is_url_case, FuzzConfig};
use rustbuster::dirbuster::{build_urls, split_http_headers};
use rustbuster::dnsbuster::build_domains;
use rustbuster::text::{contains_str, replace_all_str, replace_first_str, starts_with_str};
use rustbuster::vhostbuster::build_vhosts;
use rustbuster::wordlist::wordlist_words;

fn s(x: &str) -> String {
    x.to_owned()
}

fn list(v: &[&str]) -> Vec<String> {
    v.iter().map(|x| s(x)).collect()
}

#[test]
fn wordlist_skips_comments_and_indented_lines() {
    let lines = list(&["admin", "# comment", " spaced", "login", "", "a#b"]);
    assert_eq!(list(&["admin", "login", "", "a#b"]), wordlist_words(&lines));
}

#[test]
fn dir_urls_plain() {
    let urls = build_urls(&list(&["admin", "login"]), "http://t", &vec![], false);
    assert_eq!(list(&["http://t/admin", "http://t/login"]), urls);
    let urls = build_urls(&list(&["admin"]), "http://t/", &vec![], false);
    assert_eq!(list(&["http://t/admin"]), urls);
}

#[test]
fn dir_urls_with_extensions_and_slash() {
    let urls = build_urls(&list(&["admin"]), "http://t/", &list(&["php", "txt"]), true);
    assert_eq!(
        list(&[
            "http://t/admin/",
            "http://t/admin",
            "http://t/admin.php/",
            "http://t/admin.php",
            "http://t/admin.txt/",
            "http://t/admin.txt",
        ]),
        urls
    );
}

#[test]
fn dir_urls_drop_unparsable() {
    let urls = build_urls(&list(&["ok", "not ok"]), "http://t/", &vec![], false);
    assert_eq!(list(&["http://t/ok"]), urls);
}

#[test]
fn dir_split_http_headers() {
    assert_eq!((s("Header"), s(" Value")), split_http_headers("Header: Value"));
    assert_eq!((s("A"), s("b:c")), split_http_headers("A:b:c"));
}

#[test]
fn vhosts_and_domains() {
    assert_eq!(list(&["www.test.local", "api.test.local"]), build_vhosts(&list(&["www", "api"]), "test.local"));
    assert_eq!(list(&["www.example.com:80"]), build_domains(&list(&["www"]), "example.com"));
}

#[test]
fn url_validity() {
    assert!(url_is_valid("http://localhost:3000/"));
    assert!(url_is_valid("https://example.com"));
    assert!(!url_is_valid("ftp://example.com/"));
    assert!(!url_is_valid("localhost/path"));
    assert!(!url_is_valid("http://exa mple.com/"));
}

#[test]
fn status_codes_and_extensions() {
    assert_eq!(list(&["200", "404", "599"]), status_code_list(&list(&["200", "", "404", "abc", "600", "099", "599", "2000"])));
    assert_eq!(list(&["php", "txt"]), extension_list(&list(&["php", "", "txt"])));
}

#[test]
fn string_operations() {
    assert!(contains_str("hello FUZZ", "FUZZ"));
    assert!(!contains_str("hello", "FUZZ"));
    assert!(starts_with_str("404 Not Found", "404"));
    assert!(!starts_with_str("40", "404"));
    assert_eq!("a1bFUZZ", replace_first_str("aFUZZbFUZZ", "FUZZ", "1"));
    assert_eq!("a1b1", replace_all_str("aFUZZbFUZZ", "FUZZ", "1"));
    assert_eq!("none", replace_all_str("none", "FUZZ", "1"));
    assert_eq!("xx", replace_all_str("CSRFCSRFCSRFCSRF", "CSRFCSRF", "x"));
}

#[test]
fn reporting_helpers() {
    assert_eq!(4, tab_count(3));
    assert_eq!(3, tab_count(9));
    assert_eq!(2, tab_count(16));
    assert_eq!(1, tab_count(31));
    assert_eq!(0, tab_count(40));
    assert_eq!("www.example.com", display_domain("www.example.com:80"));
    assert_eq!("", display_domain("ab"));
}

#[test]
fn fuzz_injection_points() {
    let mut c = FuzzConfig {
        n_threads: 1,
        ignore_certificate: false,
        http_method: s("GET"),
        http_body: s("a=FUZZ"),
        user_agent: s("ua"),
        http_headers: vec![(s("X"), s("y"))],
        wordlist_paths: vec![],
        url: s("http://t/"),
    };
    assert!(!is_url_case(&c));
    assert!(!is_header_case(&c));
    assert!(is_body_case(&c));
    c.http_headers.push((s("FUZZ"), s("v")));
    c.url = s("http://t/FUZZ");
    assert!(is_url_case(&c));
    assert!(is_header_case(&c));
}
