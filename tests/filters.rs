use rustbuster::dirbuster::{ResultProcessorConfig, ScanResult, SingleScanResult};
use rustbuster::dnsbuster::{DnsScanResult, SingleDnsScanResult};
use rustbuster::fuzz_results::{FuzzScanProcessor, FuzzScanProcessorConfig, SingleFuzzScanResult};
use rustbuster::vhostbuster::{SingleVhostScanResult, VhostBuster, VhostScanResult};

fn s(x: &str) -> String {
    x.to_owned()
}

fn dir_outcome(status: &str) -> SingleScanResult {
    SingleScanResult { url: s("http://t/a"), method: s("GET"), status: s(status), error: None, extra: None }
}

fn list(v: &[&str]) -> Vec<String> {
    v.iter().map(|x| s(x)).collect()
}

#[test]
fn dir_filter_ignore_wins_with_empty_include() {
    let mut r = ScanResult::new(ResultProcessorConfig { include_codes: vec![], ignore: list(&["404"]) });
    assert!(!r.maybe_add_result(dir_outcome("404 Not Found")));
    assert!(!r.maybe_add_result(dir_outcome("404")));
    assert!(r.maybe_add_result(dir_outcome("200 OK")));
    assert_eq!(1, r.count());
}

#[test]
fn dir_filter_include_requires_prefix_match() {
    let mut r = ScanResult::new(ResultProcessorConfig { include_codes: list(&["200", "30"]), ignore: vec![] });
    assert!(r.maybe_add_result(dir_outcome("200 OK")));
    assert!(r.maybe_add_result(dir_outcome("301 Moved Permanently")));
    assert!(!r.maybe_add_result(dir_outcome("403 Forbidden")));
    assert_eq!(2, r.count());
}

#[test]
fn dir_filter_ignore_beats_include() {
    let mut r = ScanResult::new(ResultProcessorConfig { include_codes: list(&["2"]), ignore: list(&["204"]) });
    assert!(!r.maybe_add_result(dir_outcome("204 No Content")));
    assert!(r.maybe_add_result(dir_outcome("200 OK")));
}

fn fuzz_outcome(status: &str, body: &str) -> SingleFuzzScanResult {
    SingleFuzzScanResult {
        url: s("http://t/"),
        method: s("GET"),
        status: s(status),
        error: None,
        extra: None,
        payload: list(&["1"]),
        body: s(body),
    }
}

fn fuzz_config(codes: &[&str], ignore: &[&str], include_body: &[&str], ignore_body: &[&str]) -> FuzzScanProcessorConfig {
    FuzzScanProcessorConfig {
        include_codes: list(codes),
        ignore: list(ignore),
        include_body: list(include_body),
        ignore_body: list(ignore_body),
    }
}

#[test]
fn fuzz_filter_status_lists() {
    let mut p = FuzzScanProcessor::new(fuzz_config(&[], &["404"], &[], &[]));
    assert!(!p.maybe_add_result(fuzz_outcome("404 Not Found", "")));
    assert!(p.maybe_add_result(fuzz_outcome("200 OK", "")));
    let mut p = FuzzScanProcessor::new(fuzz_config(&["200"], &[], &[], &[]));
    assert!(p.maybe_add_result(fuzz_outcome("200 OK", "")));
    assert!(!p.maybe_add_result(fuzz_outcome("500 Internal Server Error", "")));
    assert_eq!(1, p.results.len());
}

#[test]
fn fuzz_filter_body_lists_come_first() {
    let mut p = FuzzScanProcessor::new(fuzz_config(&["200"], &["404"], &["welcome"], &["denied"]));
    assert!(!p.maybe_add_result(fuzz_outcome("200 OK", "access denied")));
    assert!(p.maybe_add_result(fuzz_outcome("404 Not Found", "welcome back")));
    assert!(!p.maybe_add_result(fuzz_outcome("404 Not Found", "nothing")));
    assert!(p.maybe_add_result(fuzz_outcome("200 OK", "nothing")));
    assert!(!p.maybe_add_result(fuzz_outcome("302 Found", "nothing")));
    let mut p = FuzzScanProcessor::new(fuzz_config(&[], &[], &["welcome"], &[]));
    assert!(!p.maybe_add_result(fuzz_outcome("200 OK", "nothing")));
}

#[test]
fn vhost_ignore_strings_and_processor() {
    let v = VhostBuster {
        n_threads: 1,
        ignore_certificate: false,
        ignore_strings: list(&["Default page"]),
        user_agent: s("ua"),
        http_method: s("GET"),
        original_url: s("http://t/"),
        wordlist_path: s("w"),
        domain: s("test.local"),
        no_progress_bar: true,
        exit_on_connection_errors: false,
        output: s(""),
    };
    assert!(v.body_is_ignored("<h1>Default page</h1>"));
    assert!(!v.body_is_ignored("<h1>Admin</h1>"));
    let mut r = VhostScanResult::new();
    assert!(r.maybe_add_result(SingleVhostScanResult {
        vhost: s("a.test.local"),
        status: s("200 OK"),
        method: s("GET"),
        error: None,
        ignored: false,
    }));
    assert_eq!(1, r.results.len());
}

#[test]
fn dns_processor_keeps_all() {
    let mut r = DnsScanResult::new();
    assert!(r.maybe_add_result(SingleDnsScanResult { domain: s("a.b:80"), status: false, extra: None }));
    assert!(r.maybe_add_result(SingleDnsScanResult {
        domain: s("c.b:80"),
        status: true,
        extra: Some(list(&["1.2.3.4"])),
    }));
    assert_eq!(2, r.results.len());
}
