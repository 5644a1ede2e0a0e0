use rustbuster::tildebuster::{
    finding_line, follow_up_probes, FSObject, IISVersion, Probe, ProbeKind, SingleTildeScanResult, TildeBuster,
    TildeRequest, TildeRun, TildeScanProcessor,
};

fn s(x: &str) -> String {
    x.to_owned()
}

fn buster(url: &str, extension: Option<&str>) -> TildeBuster {
    TildeBuster {
        n_threads: 4,
        ignore_certificate: false,
        http_method: s("OPTIONS"),
        http_body: s(""),
        user_agent: s("ua"),
        http_headers: vec![],
        url: s(url),
        no_progress_bar: true,
        exit_on_connection_errors: false,
        output: s(""),
        extension: extension.map(s),
    }
}

fn req(filename: &str, extension: &str, redirect: Option<&str>) -> TildeRequest {
    TildeRequest {
        url: s("http://t/"),
        http_method: s("GET"),
        http_headers: vec![],
        http_body: s(""),
        user_agent: s("ua"),
        filename: s(filename),
        redirect_extension: redirect.map(s),
        extension: s(extension),
        duplicate_index: s("1"),
    }
}

#[test]
fn base_request_adds_trailing_slash() {
    let r = buster("http://t", None).base_request();
    assert_eq!("http://t/", r.url);
    assert_eq!("", r.filename);
    assert_eq!("", r.extension);
    assert_eq!("1", r.duplicate_index);
    assert_eq!("http://t/", buster("http://t/", None).base_request().url);
}

#[test]
fn vulnerability_urls() {
    let r = req("", "", None);
    assert_eq!(vec![s("http://t/*~1*"), s("http://t/AAAAB*~1")], TildeBuster::check_if_vulnerable_urls(&r));
    let r = req("", "", Some("aspx"));
    assert_eq!(
        vec![s("http://t/*~1*/.aspx"), s("http://t/AAAAB*~1/.aspx")],
        TildeBuster::check_if_vulnerable_urls(&r)
    );
}

#[test]
fn filename_and_directory_urls() {
    let r = req("ab", "", None);
    assert_eq!(vec![s("http://t/ab*~1*"), s("http://t/ab~1*")], TildeBuster::brute_filename_urls(&r));
    assert_eq!("http://t/ab*~1", TildeBuster::check_if_directory_url(&r));
    let r = req("ab", "", Some("php"));
    assert_eq!(
        vec![s("http://t/ab*~1*/.php"), s("http://t/ab~1*/.php")],
        TildeBuster::brute_filename_urls(&r)
    );
    assert_eq!("http://t/ab*~1/.php", TildeBuster::check_if_directory_url(&r));
}

#[test]
fn extension_urls_pad_to_three() {
    assert_eq!("http://t/ab~1.%3f%3f%3f", TildeBuster::brute_extension_url(&req("ab", "", None)));
    assert_eq!("http://t/ab~1.t%3f%3f", TildeBuster::brute_extension_url(&req("ab", "t", None)));
    assert_eq!("http://t/ab~1.tx%3f", TildeBuster::brute_extension_url(&req("ab", "tx", None)));
    assert_eq!("http://t/ab~1.txt/.aspx", TildeBuster::brute_extension_url(&req("ab", "txt", Some("aspx"))));
}

#[test]
fn duplicate_urls() {
    let mut r = req("ab", "txt", None);
    r.duplicate_index = s("3");
    assert_eq!("http://t/ab~3.txt", TildeBuster::brute_duplicate_url(&r));
    let mut r = req("ab", "", Some("aspx"));
    r.duplicate_index = s("2");
    assert_eq!("http://t/ab~2/.aspx", TildeBuster::brute_duplicate_url(&r));
}

fn probe(kind: ProbeKind, r: TildeRequest) -> Probe {
    Probe { kind, request: r }
}

#[test]
fn classify_vulnerability() {
    let p = probe(ProbeKind::CheckVulnerable, req("", "", None));
    assert_eq!(FSObject::Vulnerable, p.classify(&vec![404, 400]));
    assert_eq!(FSObject::NotVulnerable, p.classify(&vec![400, 400]));
    assert_eq!(FSObject::NotVulnerable, p.classify(&vec![404, 404]));
    assert_eq!(FSObject::NotVulnerable, p.classify(&vec![200, 400]));
}

#[test]
fn classify_filename_table() {
    let p = probe(ProbeKind::BruteFilename, req("a", "", None));
    assert_eq!(FSObject::BruteFilename, p.classify(&vec![404, 404]));
    assert_eq!(FSObject::CheckIfDirectory, p.classify(&vec![400, 404]));
    assert_eq!(FSObject::NotExisting, p.classify(&vec![400, 400]));
    assert_eq!(FSObject::NotExisting, p.classify(&vec![404, 400]));
}

#[test]
fn classify_directory_extension_duplicate() {
    let p = probe(ProbeKind::CheckIfDirectory, req("a", "", None));
    assert_eq!(FSObject::Directory, p.classify(&vec![404]));
    assert_eq!(FSObject::BruteExtension, p.classify(&vec![400]));
    let p = probe(ProbeKind::BruteExtension, req("a", "tx", None));
    assert_eq!(FSObject::BruteExtension, p.classify(&vec![404]));
    assert_eq!(FSObject::NotExisting, p.classify(&vec![400]));
    let p = probe(ProbeKind::BruteExtension, req("a", "txt", None));
    assert_eq!(FSObject::File, p.classify(&vec![404]));
    let p = probe(ProbeKind::BruteDuplicate, req("a", "txt", None));
    assert_eq!(FSObject::DuplicateFile, p.classify(&vec![404]));
    assert_eq!(FSObject::NotExisting, p.classify(&vec![400]));
    let p = probe(ProbeKind::BruteDuplicate, req("a", "", None));
    assert_eq!(FSObject::DuplicateDirectory, p.classify(&vec![404]));
}

fn outcome(kind: FSObject, r: TildeRequest) -> SingleTildeScanResult {
    SingleTildeScanResult { kind, error: None, request: r }
}

#[test]
fn follow_ups_per_kind() {
    let next = follow_up_probes(&outcome(FSObject::BruteFilename, req("ab", "", None)));
    assert_eq!(38, next.len());
    assert_eq!("aba", next[0].request.filename);
    assert_eq!("ab_", next[37].request.filename);
    assert!(next.iter().all(|p| p.kind == ProbeKind::BruteFilename));
    let next = follow_up_probes(&outcome(FSObject::Vulnerable, req("", "", None)));
    assert_eq!(38, next.len());
    assert_eq!("a", next[0].request.filename);
    let next = follow_up_probes(&outcome(FSObject::BruteExtension, req("ab", "t", None)));
    assert_eq!(38, next.len());
    assert_eq!("tz", next[25].request.extension);
    assert!(next.iter().all(|p| p.kind == ProbeKind::BruteExtension && p.request.filename == "ab"));
    let next = follow_up_probes(&outcome(FSObject::CheckIfDirectory, req("ab", "", None)));
    assert_eq!(1, next.len());
    assert_eq!(ProbeKind::CheckIfDirectory, next[0].kind);
    let next = follow_up_probes(&outcome(FSObject::File, req("ab", "txt", None)));
    let indices: Vec<String> = next.iter().map(|p| p.request.duplicate_index.clone()).collect();
    assert_eq!(vec!["2", "3", "4", "5", "6", "7", "8", "9"], indices);
    assert!(next.iter().all(|p| p.kind == ProbeKind::BruteDuplicate));
    for kind in [
        FSObject::NotVulnerable,
        FSObject::NotExisting,
        FSObject::DuplicateFile,
        FSObject::DuplicateDirectory,
    ] {
        assert!(follow_up_probes(&outcome(kind, req("ab", "", None))).is_empty());
    }
}

#[test]
fn map_iis_version_values() {
    assert_eq!(IISVersion::Unknown, TildeBuster::map_iis_version(None));
    assert_eq!(IISVersion::IIS75, TildeBuster::map_iis_version(Some("Microsoft-IIS/7.5")));
    assert_eq!(IISVersion::IIS10, TildeBuster::map_iis_version(Some("Microsoft-IIS/10")));
    assert_eq!(IISVersion::Unknown, TildeBuster::map_iis_version(Some("nginx")));
}

#[test]
fn processor_keeps_every_finding() {
    let mut p = TildeScanProcessor::new();
    assert!(p.maybe_add_result(outcome(FSObject::File, req("a", "b", None))));
    assert_eq!(1, p.results.len());
}

/// Runs a whole scan against a scripted server; returns the findings, the
/// number of probe jobs, and the longest name and extension probed.
fn run_scan(answer: &dyn Fn(&Probe) -> Vec<u16>) -> (Vec<SingleTildeScanResult>, usize, usize, usize) {
    let b = buster("http://t", None);
    let (mut run, mut queue) = TildeRun::start(&b);
    let mut jobs = 0;
    let mut longest_name = 0;
    let mut longest_ext = 0;
    while !run.is_finished() {
        let p = queue.remove(0);
        jobs += 1;
        longest_name = longest_name.max(p.request.filename.len());
        longest_ext = longest_ext.max(p.request.extension.len());
        let statuses = answer(&p);
        assert_eq!(p.request_count(), statuses.len());
        assert_eq!(p.urls().len(), statuses.len());
        let next = run.on_outcome(p.outcome(&statuses));
        queue.extend(next);
        assert_eq!(run.dispatch.submitted, run.dispatch.processed + queue.len() as u64);
    }
    assert!(queue.is_empty());
    assert_eq!(run.dispatch.submitted, run.dispatch.processed);
    (run.processor.results, jobs, longest_name, longest_ext)
}

#[test]
fn tilde_oracle_not_vulnerable_stops_at_once() {
    let (found, jobs, _, _) = run_scan(&|p: &Probe| vec![400; p.request_count()]);
    assert!(found.is_empty());
    assert_eq!(1, jobs);
}

#[test]
fn tilde_oracle_discovers_single_file() {
    let name = "testfile";
    let ext = "txt";
    let answer = |p: &Probe| -> Vec<u16> {
        let f = p.request.filename.as_str();
        match p.kind {
            ProbeKind::CheckVulnerable => vec![404, 400],
            ProbeKind::BruteFilename => {
                if f == name {
                    vec![400, 404]
                } else if name.starts_with(f) {
                    vec![404, 404]
                } else {
                    vec![400, 400]
                }
            }
            ProbeKind::CheckIfDirectory => vec![400],
            ProbeKind::BruteExtension => {
                if f == name && ext.starts_with(p.request.extension.as_str()) {
                    vec![404]
                } else {
                    vec![400]
                }
            }
            ProbeKind::BruteDuplicate => vec![400],
        }
    };
    let (found, jobs, longest_name, longest_ext) = run_scan(&answer);
    assert_eq!(1, found.len());
    assert_eq!(FSObject::File, found[0].kind);
    assert_eq!("testfile", found[0].request.filename);
    assert_eq!("txt", found[0].request.extension);
    assert!(longest_name <= 8);
    assert!(longest_ext <= 3);
    assert_eq!(1 + 38 * 8 + 1 + 38 * 3 + 8, jobs);
}

#[test]
fn tilde_run_first_error_aborts() {
    let b = buster("http://t", None);
    let (mut run, mut queue) = TildeRun::start(&b);
    let p = queue.remove(0);
    let next = run.on_outcome(p.failed(s("connection refused")));
    assert!(next.is_empty());
    assert!(run.dispatch.stopped);
    assert!(run.is_finished());
}

#[test]
fn tilde_run_later_error_is_skipped() {
    let b = buster("http://t", None);
    let (mut run, mut queue) = TildeRun::start(&b);
    let p = queue.remove(0);
    let next = run.on_outcome(p.outcome(&vec![404, 400]));
    assert_eq!(38, next.len());
    let mut queue: Vec<Probe> = next;
    let p = queue.remove(0);
    let more = run.on_outcome(p.failed(s("timeout")));
    assert!(more.is_empty());
    assert!(!run.dispatch.stopped);
    assert!(!run.is_finished());
    assert_eq!(39, run.dispatch.submitted);
    assert_eq!(2, run.dispatch.processed);
    assert_eq!(37, run.dispatch.outstanding());
}

#[test]
fn finding_lines() {
    let mut r = req("testfi", "txt", None);
    r.duplicate_index = s("2");
    assert_eq!("File\t\ttestfi~2.txt", finding_line(&outcome(FSObject::DuplicateFile, r.clone())));
    assert_eq!("Directory\ttestfi~2", finding_line(&outcome(FSObject::Directory, r.clone())));
    assert_eq!("", finding_line(&outcome(FSObject::NotExisting, r)));
}
