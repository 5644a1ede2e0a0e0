//! IIS 8.3 short-name discovery: the probes, the reading of their status
//! codes, and the follow-up probes that each reading calls for.
use vstd::prelude::*;
use vstd::string::*;
use crate::dispatch::{Action, Dispatch};
use crate::text::{clone_opt, clone_pairs, opt_view, pairs_view};

verus! {

/// The status code that tells that a wildcard pattern matched a short name.
pub const NOT_FOUND: u16 = 404;

/// What the reading of a probe's responses says.
#[derive(Clone, Copy, Debug, PartialEq, Eq, Structural)]
pub enum FSObject {
    File,
    Directory,
    DuplicateFile,
    DuplicateDirectory,
    BruteFilename,
    BruteExtension,
    CheckIfDirectory,
    NotExisting,
    Vulnerable,
    NotVulnerable,
}

/// The characters tried at each position of a name or an extension.
pub open spec fn alphabet() -> Seq<char> {
    seq![
        'a', 'b', 'c', 'd', 'e', 'f', 'g', 'h', 'i', 'j', 'k', 'l', 'm', 'n', 'o', 'p', 'q', 'r',
        's', 't', 'u', 'v', 'w', 'x', 'y', 'z', '1', '2', '3', '4', '5', '6', '7', '8', '9', '0',
        '-', '_',
    ]
}

/// The tilde indices probed for names that collide with a finding.
pub open spec fn duplicate_indices() -> Seq<char> {
    seq!['2', '3', '4', '5', '6', '7', '8', '9']
}

/// One probe's parameters: the target, the HTTP parameters, and the part of
/// the short name established so far.
#[derive(Clone, Debug)]
pub struct TildeRequest {
    pub url: String,
    pub http_method: String,
    pub http_headers: Vec<(String, String)>,
    pub http_body: String,
    pub user_agent: String,
    pub filename: String,
    pub redirect_extension: Option<String>,
    pub extension: String,
    pub duplicate_index: String,
}

pub struct TildeRequestView {
    pub url: Seq<char>,
    pub http_method: Seq<char>,
    pub http_headers: Seq<(Seq<char>, Seq<char>)>,
    pub http_body: Seq<char>,
    pub user_agent: Seq<char>,
    pub filename: Seq<char>,
    pub redirect_extension: Option<Seq<char>>,
    pub extension: Seq<char>,
    pub duplicate_index: Seq<char>,
}

impl View for TildeRequest {
    type V = TildeRequestView;

    open spec fn view(&self) -> TildeRequestView {
        TildeRequestView {
            url: self.url@,
            http_method: self.http_method@,
            http_headers: pairs_view(self.http_headers@),
            http_body: self.http_body@,
            user_agent: self.user_agent@,
            filename: self.filename@,
            redirect_extension: opt_view(self.redirect_extension),
            extension: self.extension@,
            duplicate_index: self.duplicate_index@,
        }
    }
}

impl TildeRequest {
    /// A copy of this request.
    pub fn copied(&self) -> (r: TildeRequest)
        ensures
            r@ == self@,
    {
        TildeRequest {
            url: self.url.clone(),
            http_method: self.http_method.clone(),
            http_headers: clone_pairs(&self.http_headers),
            http_body: self.http_body.clone(),
            user_agent: self.user_agent.clone(),
            filename: self.filename.clone(),
            redirect_extension: clone_opt(&self.redirect_extension),
            extension: self.extension.clone(),
            duplicate_index: self.duplicate_index.clone(),
        }
    }
}

/// The path suffix that makes a server with a non-default configuration
/// answer distinctly: `/.ext` for a configured extension `ext`.
pub open spec fn redirect_suffix(e: Option<Seq<char>>) -> Seq<char> {
    match e {
        Some(v) => "/."@ + v,
        None => Seq::empty(),
    }
}

/// `n` percent-encoded `?` wildcards.
pub open spec fn wildcard_padding(n: nat) -> Seq<char>
    decreases n,
{
    if n == 0 {
        Seq::empty()
    } else {
        wildcard_padding((n - 1) as nat) + "%3f"@
    }
}

/// The two probes of the vulnerability check: one that matches any short
/// name, one that matches none.
pub open spec fn vulnerable_urls(r: TildeRequestView) -> Seq<Seq<char>> {
    seq![
        r.url + "*~1*"@ + redirect_suffix(r.redirect_extension),
        r.url + "AAAAB*~1"@ + redirect_suffix(r.redirect_extension),
    ]
}

/// The two probes for a name prefix: any short name that starts with it,
/// and a short name that is exactly it.
pub open spec fn filename_urls(r: TildeRequestView) -> Seq<Seq<char>> {
    seq![
        r.url + r.filename + "*~1*"@ + redirect_suffix(r.redirect_extension),
        r.url + r.filename + "~1*"@ + redirect_suffix(r.redirect_extension),
    ]
}

/// The probe that asks whether a name has no extension.
pub open spec fn directory_url(r: TildeRequestView) -> Seq<char> {
    r.url + r.filename + "*~1"@ + redirect_suffix(r.redirect_extension)
}

/// The probe for an extension prefix, padded with wildcards to three
/// characters.
pub open spec fn extension_url(r: TildeRequestView) -> Seq<char> {
    r.url + r.filename + "~1."@ + r.extension + wildcard_padding(
        if r.extension.len() <= 3 {
            (3 - r.extension.len()) as nat
        } else {
            0
        },
    ) + redirect_suffix(r.redirect_extension)
}

/// The probe for a name with another tilde index.
pub open spec fn duplicate_url(r: TildeRequestView) -> Seq<char> {
    r.url + r.filename + "~"@ + r.duplicate_index + (if r.extension.len() == 0 {
        Seq::empty()
    } else {
        "."@ + r.extension
    }) + redirect_suffix(r.redirect_extension)
}

fn append_redirect_suffix(s: &mut String, e: &Option<String>)
    ensures
        final(s)@ == old(s)@ + redirect_suffix(opt_view(*e)),
{
    match e {
        Some(v) => {
            s.append("/.");
            s.append(v.as_str());
        },
        None => {},
    }
}

/// The URL of a probe: the target, a name part, and a wildcard tail.
fn probe_url(r: &TildeRequest, with_name: bool, tail: &str) -> (u: String)
    ensures
        u@ == (if with_name {
            r.url@ + r.filename@
        } else {
            r.url@
        }) + tail@ + redirect_suffix(opt_view(r.redirect_extension)),
{
    let mut u = r.url.clone();
    if with_name {
        u.append(r.filename.as_str());
    }
    u.append(tail);
    append_redirect_suffix(&mut u, &r.redirect_extension);
    u
}

impl TildeBuster {
    /// The URLs of the vulnerability check.
    pub fn check_if_vulnerable_urls(request: &TildeRequest) -> (r: Vec<String>)
        ensures
            r@.map_values(|s: String| s@) == vulnerable_urls(request@),
    {
        let mut r: Vec<String> = Vec::new();
        r.push(probe_url(request, false, "*~1*"));
        r.push(probe_url(request, false, "AAAAB*~1"));
        assert(r@.map_values(|s: String| s@) =~= vulnerable_urls(request@));
        r
    }

    /// The URLs that test the name prefix of `request`.
    pub fn brute_filename_urls(request: &TildeRequest) -> (r: Vec<String>)
        ensures
            r@.map_values(|s: String| s@) == filename_urls(request@),
    {
        let mut r: Vec<String> = Vec::new();
        r.push(probe_url(request, true, "*~1*"));
        r.push(probe_url(request, true, "~1*"));
        assert(r@.map_values(|s: String| s@) =~= filename_urls(request@));
        r
    }

    /// The URL that tells a directory from a file.
    pub fn check_if_directory_url(request: &TildeRequest) -> (r: String)
        ensures
            r@ == directory_url(request@),
    {
        probe_url(request, true, "*~1")
    }

    /// The URL that tests the extension prefix of `request`.
    pub fn brute_extension_url(request: &TildeRequest) -> (u: String)
        ensures
            u@ == extension_url(request@),
    {
        let mut u = url_with_name(request);
        u.append("~1.");
        u.append(request.extension.as_str());
        let len = request.extension.as_str().unicode_len();
        let missing: usize = if len <= 3 {
            3 - len
        } else {
            0
        };
        let ghost base = u@;
        let mut added: usize = 0;
        while added < missing
            invariant
                added <= missing,
                missing <= 3,
                u@ == base + wildcard_padding(added as nat),
            decreases missing - added,
        {
            u.append("%3f");
            added = added + 1;
        }
        append_redirect_suffix(&mut u, &request.redirect_extension);
        u
    }

    /// The URL that tests `request` under its tilde index.
    pub fn brute_duplicate_url(request: &TildeRequest) -> (u: String)
        ensures
            u@ == duplicate_url(request@),
    {
        let mut u = url_with_name(request);
        u.append("~");
        u.append(request.duplicate_index.as_str());
        if request.extension.as_str().unicode_len() != 0 {
            u.append(".");
            u.append(request.extension.as_str());
        }
        append_redirect_suffix(&mut u, &request.redirect_extension);
        u
    }
}

fn url_with_name(r: &TildeRequest) -> (u: String)
    ensures
        u@ == r.url@ + r.filename@,
{
    let mut u = r.url.clone();
    u.append(r.filename.as_str());
    u
}

/// The configuration of a short-name scan.
#[derive(Clone, Debug)]
pub struct TildeBuster {
    pub n_threads: usize,
    pub ignore_certificate: bool,
    pub http_method: String,
    pub http_body: String,
    pub user_agent: String,
    pub http_headers: Vec<(String, String)>,
    pub url: String,
    pub no_progress_bar: bool,
    pub exit_on_connection_errors: bool,
    pub output: String,
    pub extension: Option<String>,
}


/// The kinds of probe jobs; each sends one or two requests.
#[derive(Clone, Copy, Debug, PartialEq, Eq, Structural)]
pub enum ProbeKind {
    /// The vulnerability check: two requests.
    CheckVulnerable,
    /// A name prefix: two requests.
    BruteFilename,
    /// Directory or file: one request.
    CheckIfDirectory,
    /// An extension prefix: one request.
    BruteExtension,
    /// Another tilde index of a finding: one request.
    BruteDuplicate,
}

/// A probe job: what to ask, about which request.
#[derive(Clone, Debug)]
pub struct Probe {
    pub kind: ProbeKind,
    pub request: TildeRequest,
}

pub struct ProbeView {
    pub kind: ProbeKind,
    pub request: TildeRequestView,
}

impl View for Probe {
    type V = ProbeView;

    open spec fn view(&self) -> ProbeView {
        ProbeView { kind: self.kind, request: self.request@ }
    }
}

/// The URLs that a probe job requests, in order.
pub open spec fn probe_urls(p: ProbeView) -> Seq<Seq<char>> {
    match p.kind {
        ProbeKind::CheckVulnerable => vulnerable_urls(p.request),
        ProbeKind::BruteFilename => filename_urls(p.request),
        ProbeKind::CheckIfDirectory => seq![directory_url(p.request)],
        ProbeKind::BruteExtension => seq![extension_url(p.request)],
        ProbeKind::BruteDuplicate => seq![duplicate_url(p.request)],
    }
}

/// Vulnerable exactly when the pattern that matches any name is answered
/// "not found" and the one that matches none is rejected.
pub open spec fn vulnerability_kind(any: u16, none: u16) -> FSObject {
    if any == NOT_FOUND && none != NOT_FOUND {
        FSObject::Vulnerable
    } else {
        FSObject::NotVulnerable
    }
}

/// The decision table of a name prefix, on the answers to the long-wildcard
/// and the short-wildcard probe: both found, the name goes on; only the short
/// one found, the name is complete; anything else is a dead end.
pub open spec fn filename_kind(long: u16, short: u16) -> FSObject {
    if long == NOT_FOUND && short == NOT_FOUND {
        FSObject::BruteFilename
    } else if long != NOT_FOUND && short == NOT_FOUND {
        FSObject::CheckIfDirectory
    } else {
        FSObject::NotExisting
    }
}

pub open spec fn directory_kind(status: u16) -> FSObject {
    if status == NOT_FOUND {
        FSObject::Directory
    } else {
        FSObject::BruteExtension
    }
}

pub open spec fn extension_kind(status: u16, extension_len: nat) -> FSObject {
    if status == NOT_FOUND && extension_len == 3 {
        FSObject::File
    } else if status == NOT_FOUND {
        FSObject::BruteExtension
    } else {
        FSObject::NotExisting
    }
}

pub open spec fn duplicate_kind(status: u16, extension_len: nat) -> FSObject {
    if status == NOT_FOUND && extension_len == 3 {
        FSObject::DuplicateFile
    } else if status == NOT_FOUND {
        FSObject::DuplicateDirectory
    } else {
        FSObject::NotExisting
    }
}

/// The reading of a probe job's status codes, one per URL.
pub open spec fn classify_spec(p: ProbeView, statuses: Seq<u16>) -> FSObject {
    match p.kind {
        ProbeKind::CheckVulnerable => vulnerability_kind(statuses[0], statuses[1]),
        ProbeKind::BruteFilename => filename_kind(statuses[0], statuses[1]),
        ProbeKind::CheckIfDirectory => directory_kind(statuses[0]),
        ProbeKind::BruteExtension => extension_kind(statuses[0], p.request.extension.len()),
        ProbeKind::BruteDuplicate => duplicate_kind(statuses[0], p.request.extension.len()),
    }
}

impl Probe {
    /// The URLs to request for this job.
    pub fn urls(&self) -> (r: Vec<String>)
        ensures
            r@.map_values(|s: String| s@) == probe_urls(self@),
    {
        match self.kind {
            ProbeKind::CheckVulnerable => TildeBuster::check_if_vulnerable_urls(&self.request),
            ProbeKind::BruteFilename => TildeBuster::brute_filename_urls(&self.request),
            _ => {
                let u = match self.kind {
                    ProbeKind::CheckIfDirectory => TildeBuster::check_if_directory_url(
                        &self.request,
                    ),
                    ProbeKind::BruteExtension => TildeBuster::brute_extension_url(&self.request),
                    _ => TildeBuster::brute_duplicate_url(&self.request),
                };
                let mut r: Vec<String> = Vec::new();
                r.push(u);
                assert(r@.map_values(|s: String| s@) =~= probe_urls(self@));
                r
            },
        }
    }

    /// How many requests this job sends.
    pub fn request_count(&self) -> (n: usize)
        ensures
            n == probe_urls(self@).len(),
    {
        match self.kind {
            ProbeKind::CheckVulnerable | ProbeKind::BruteFilename => 2,
            _ => 1,
        }
    }

    /// Reads the status codes answered to this job's URLs, in their order.
    pub fn classify(&self, statuses: &Vec<u16>) -> (k: FSObject)
        requires
            statuses.len() == probe_urls(self@).len(),
        ensures
            k == classify_spec(self@, statuses@),
    {
        let ext_len = self.request.extension.as_str().unicode_len();
        match self.kind {
            ProbeKind::CheckVulnerable => if statuses[0] == NOT_FOUND && statuses[1]
                != NOT_FOUND {
                FSObject::Vulnerable
            } else {
                FSObject::NotVulnerable
            },
            ProbeKind::BruteFilename => if statuses[0] == NOT_FOUND && statuses[1]
                == NOT_FOUND {
                FSObject::BruteFilename
            } else if statuses[0] != NOT_FOUND && statuses[1] == NOT_FOUND {
                FSObject::CheckIfDirectory
            } else {
                FSObject::NotExisting
            },
            ProbeKind::CheckIfDirectory => if statuses[0] == NOT_FOUND {
                FSObject::Directory
            } else {
                FSObject::BruteExtension
            },
            ProbeKind::BruteExtension => if statuses[0] == NOT_FOUND && ext_len == 3 {
                FSObject::File
            } else if statuses[0] == NOT_FOUND {
                FSObject::BruteExtension
            } else {
                FSObject::NotExisting
            },
            ProbeKind::BruteDuplicate => if statuses[0] == NOT_FOUND && ext_len == 3 {
                FSObject::DuplicateFile
            } else if statuses[0] == NOT_FOUND {
                FSObject::DuplicateDirectory
            } else {
                FSObject::NotExisting
            },
        }
    }

    /// The outcome of this job from the status codes of its responses.
    pub fn outcome(self, statuses: &Vec<u16>) -> (r: SingleTildeScanResult)
        requires
            statuses.len() == probe_urls(self@).len(),
        ensures
            r.kind == classify_spec(self@, statuses@),
            r.error is None,
            r.request@ == self@.request,
    {
        let kind = self.classify(statuses);
        SingleTildeScanResult { kind, error: None, request: self.request }
    }

    /// The outcome of this job when a request failed in transport.
    pub fn failed(self, error: String) -> (r: SingleTildeScanResult)
        ensures
            r.kind == FSObject::NotExisting,
            r.error == Some(error),
            r.request@ == self@.request,
    {
        SingleTildeScanResult { kind: FSObject::NotExisting, error: Some(error), request: self.request }
    }
}

/// One classified probe job.
#[derive(Clone, Debug)]
pub struct SingleTildeScanResult {
    pub kind: FSObject,
    pub error: Option<String>,
    pub request: TildeRequest,
}

/// `r` with `c` appended to the name prefix.
pub open spec fn with_filename_char(r: TildeRequestView, c: char) -> TildeRequestView {
    TildeRequestView { filename: r.filename.push(c), ..r }
}

/// `r` with `c` appended to the extension prefix.
pub open spec fn with_extension_char(r: TildeRequestView, c: char) -> TildeRequestView {
    TildeRequestView { extension: r.extension.push(c), ..r }
}

/// `r` under the tilde index `d`.
pub open spec fn with_duplicate_index(r: TildeRequestView, d: char) -> TildeRequestView {
    TildeRequestView { duplicate_index: seq![d], ..r }
}

/// The probe job of kind `kind` that extends `r` by the character `c`: the
/// name prefix or the extension prefix grows by `c`, or `c` becomes the tilde
/// index.
pub open spec fn step_probe(r: TildeRequestView, kind: ProbeKind, c: char) -> ProbeView {
    match kind {
        ProbeKind::BruteFilename => ProbeView { kind, request: with_filename_char(r, c) },
        ProbeKind::BruteExtension => ProbeView { kind, request: with_extension_char(r, c) },
        _ => ProbeView { kind, request: with_duplicate_index(r, c) },
    }
}

/// The probe jobs that an outcome calls for.
pub open spec fn follow_ups(kind: FSObject, r: TildeRequestView) -> Seq<ProbeView> {
    match kind {
        FSObject::Vulnerable | FSObject::BruteFilename => alphabet().map(
            |i: int, c: char| step_probe(r, ProbeKind::BruteFilename, c),
        ),
        FSObject::BruteExtension => alphabet().map(
            |i: int, c: char| step_probe(r, ProbeKind::BruteExtension, c),
        ),
        FSObject::CheckIfDirectory => seq![ProbeView { kind: ProbeKind::CheckIfDirectory, request: r }],
        FSObject::File | FSObject::Directory => duplicate_indices().map(
            |i: int, d: char| step_probe(r, ProbeKind::BruteDuplicate, d),
        ),
        _ => Seq::empty(),
    }
}

/// Whether an outcome of this kind is a finding to report.
pub open spec fn is_finding(kind: FSObject) -> bool {
    kind == FSObject::File || kind == FSObject::Directory || kind == FSObject::DuplicateFile
        || kind == FSObject::DuplicateDirectory
}


pub open spec fn probes_view(v: Seq<Probe>) -> Seq<ProbeView> {
    v.map_values(|p: Probe| p@)
}

fn step(r: &TildeRequest, kind: ProbeKind, c: &str) -> (p: Probe)
    requires
        c@.len() == 1,
    ensures
        p@ == step_probe(r@, kind, c@[0]),
{
    let mut request = r.copied();
    match kind {
        ProbeKind::BruteFilename => {
            request.filename.append(c);
            assert(request@.filename =~= r@.filename.push(c@[0]));
            assert(request@ == with_filename_char(r@, c@[0]));
        },
        ProbeKind::BruteExtension => {
            request.extension.append(c);
            assert(request@.extension =~= r@.extension.push(c@[0]));
            assert(request@ == with_extension_char(r@, c@[0]));
        },
        _ => {
            request.duplicate_index = String::from_str(c);
            assert(request@.duplicate_index =~= seq![c@[0]]);
            assert(request@ == with_duplicate_index(r@, c@[0]));
        },
    }
    Probe { kind, request }
}

/// One probe job per character of `chars`, in order.
fn spawn(r: &TildeRequest, kind: ProbeKind, chars: &str) -> (v: Vec<Probe>)
    ensures
        probes_view(v@) == chars@.map(|i: int, c: char| step_probe(r@, kind, c)),
{
    let n = chars.unicode_len();
    let mut v: Vec<Probe> = Vec::new();
    let mut i: usize = 0;
    while i < n
        invariant
            n == chars@.len(),
            i <= n,
            v.len() == i,
            probes_view(v@) == chars@.take(i as int).map(|j: int, c: char| step_probe(r@, kind, c)),
        decreases n - i,
    {
        let c = chars.substring_char(i, i + 1);
        let ghost before = v@;
        let p = step(r, kind, c);
        v.push(p);
        proof {
            assert(c@[0] == chars@[i as int]);
            assert forall|k: int| 0 <= k < i implies probes_view(v@)[k] == chars@.take(i + 1).map(
                |j: int, c: char| step_probe(r@, kind, c),
            )[k] by {
                assert(v@[k] == before[k]);
                assert(probes_view(before)[k] == chars@.take(i as int).map(
                    |j: int, c: char| step_probe(r@, kind, c),
                )[k]);
            }
            assert(probes_view(v@) =~= chars@.take(i + 1).map(
                |j: int, c: char| step_probe(r@, kind, c),
            ));
        }
        i = i + 1;
    }
    assert(chars@.take(n as int) =~= chars@);
    v
}

/// The probe jobs that an outcome calls for: the next characters of a name
/// or an extension, the directory check, or the other tilde indices of a
/// finding.
pub fn follow_up_probes(msg: &SingleTildeScanResult) -> (r: Vec<Probe>)
    ensures
        probes_view(r@) == follow_ups(msg.kind, msg.request@),
{
    let letters = "abcdefghijklmnopqrstuvwxyz1234567890-_";
    let indices = "23456789";
    proof {
        reveal_strlit("abcdefghijklmnopqrstuvwxyz1234567890-_");
        reveal_strlit("23456789");
        assert(letters@ =~= alphabet());
        assert(indices@ =~= duplicate_indices());
    }
    match msg.kind {
        FSObject::Vulnerable | FSObject::BruteFilename => spawn(
            &msg.request,
            ProbeKind::BruteFilename,
            letters,
        ),
        FSObject::BruteExtension => spawn(&msg.request, ProbeKind::BruteExtension, letters),
        FSObject::CheckIfDirectory => {
            let mut r: Vec<Probe> = Vec::new();
            r.push(Probe { kind: ProbeKind::CheckIfDirectory, request: msg.request.copied() });
            assert(probes_view(r@) =~= follow_ups(msg.kind, msg.request@));
            r
        },
        FSObject::File | FSObject::Directory => spawn(
            &msg.request,
            ProbeKind::BruteDuplicate,
            indices,
        ),
        _ => {
            let r: Vec<Probe> = Vec::new();
            assert(probes_view(r@) =~= follow_ups(msg.kind, msg.request@));
            r
        },
    }
}


proof fn lemma_follow_ups_len(kind: FSObject, r: TildeRequestView)
    ensures
        follow_ups(kind, r).len() <= 38,
{
    assert(alphabet().len() == 38);
    assert(duplicate_indices().len() == 8);
}

/// `u` with a trailing `/`, added when missing.
pub open spec fn with_trailing_slash(u: Seq<char>) -> Seq<char> {
    if u.len() > 0 && u.last() == '/' {
        u
    } else {
        u.push('/')
    }
}

/// The request of the vulnerability check, from which every other probe
/// descends: the target with a trailing slash, an empty name and extension,
/// tilde index 1.
pub open spec fn base_request_spec(b: TildeBuster) -> TildeRequestView {
    TildeRequestView {
        url: with_trailing_slash(b.url@),
        http_method: b.http_method@,
        http_headers: pairs_view(b.http_headers@),
        http_body: b.http_body@,
        user_agent: b.user_agent@,
        filename: Seq::empty(),
        redirect_extension: opt_view(b.extension),
        extension: Seq::empty(),
        duplicate_index: seq!['1'],
    }
}

impl TildeBuster {
    pub fn base_request(&self) -> (r: TildeRequest)
        ensures
            r@ == base_request_spec(*self),
    {
        let mut url = self.url.clone();
        let n = self.url.as_str().unicode_len();
        if n == 0 || self.url.as_str().get_char(n - 1) != '/' {
            url.append("/");
            proof {
                reveal_strlit("/");
                assert(url@ =~= self.url@.push('/'));
            }
        }
        let one = "1";
        proof {
            reveal_strlit("1");
            assert(one@ =~= seq!['1']);
            if !(n == 0 || self.url@[n - 1] != '/') {
                assert(url@ == with_trailing_slash(self.url@));
            }
        }
        TildeRequest {
            url,
            http_method: self.http_method.clone(),
            http_headers: clone_pairs(&self.http_headers),
            http_body: self.http_body.clone(),
            user_agent: self.user_agent.clone(),
            filename: String::new(),
            redirect_extension: clone_opt(&self.extension),
            extension: String::new(),
            duplicate_index: String::from_str(one),
        }
    }
}

/// The findings of a short-name scan, in the order they were made.
#[derive(Clone, Debug)]
pub struct TildeScanProcessor {
    pub results: Vec<SingleTildeScanResult>,
}

impl TildeScanProcessor {
    pub fn new() -> (r: Self)
        ensures
            r.results@.len() == 0,
    {
        TildeScanProcessor { results: Vec::new() }
    }

    /// Keeps a finding; every finding handed here is kept.
    pub fn maybe_add_result(&mut self, res: SingleTildeScanResult) -> (added: bool)
        ensures
            added,
            final(self).results@ == old(self).results@.push(res),
    {
        self.results.push(res);
        true
    }
}

/// A short-name scan in progress: the run's counters and its findings.
pub struct TildeRun {
    pub dispatch: Dispatch,
    pub processor: TildeScanProcessor,
}

impl TildeRun {
    pub open spec fn wf(&self) -> bool {
        self.dispatch.wf()
    }

    /// A new run and its only initial probe job, the vulnerability check.
    pub fn start(buster: &TildeBuster) -> (r: (TildeRun, Vec<Probe>))
        ensures
            r.0.wf(),
            r.0.dispatch.submitted == 1,
            r.0.dispatch.processed == 0,
            !r.0.dispatch.stopped,
            r.0.dispatch.exit_on_connection_errors == buster.exit_on_connection_errors,
            r.0.processor.results@.len() == 0,
            probes_view(r.1@) == seq![
                ProbeView { kind: ProbeKind::CheckVulnerable, request: base_request_spec(*buster) },
            ],
    {
        let mut dispatch = Dispatch::new(buster.exit_on_connection_errors);
        dispatch.submit(1);
        let mut probes: Vec<Probe> = Vec::new();
        probes.push(Probe { kind: ProbeKind::CheckVulnerable, request: buster.base_request() });
        assert(probes_view(probes@) =~= seq![
            ProbeView { kind: ProbeKind::CheckVulnerable, request: base_request_spec(*buster) },
        ]);
        (TildeRun { dispatch, processor: TildeScanProcessor::new() }, probes)
    }

    /// Processes one outcome: counts it, keeps it when it is a finding, and
    /// returns the probe jobs it calls for, which are counted as submitted.
    /// A transport error calls for nothing and may end the run.
    pub fn on_outcome(&mut self, msg: SingleTildeScanResult) -> (r: Vec<Probe>)
        requires
            old(self).wf(),
            !old(self).dispatch.finished_spec(),
            old(self).dispatch.submitted + 64 <= u64::MAX,
        ensures
            final(self).wf(),
            final(self).dispatch.processed == old(self).dispatch.processed + 1,
            final(self).dispatch.exit_on_connection_errors
                == old(self).dispatch.exit_on_connection_errors,
            final(self).dispatch.submitted == old(self).dispatch.submitted + r@.len(),
            msg.error is Some ==> {
                &&& r@.len() == 0
                &&& final(self).dispatch.stopped == (final(self).dispatch.processed == 1
                    || old(self).dispatch.exit_on_connection_errors)
                &&& final(self).processor.results@ == old(self).processor.results@
            },
            msg.error is None ==> {
                &&& probes_view(r@) == follow_ups(msg.kind, msg.request@)
                &&& !final(self).dispatch.stopped
                &&& final(self).processor.results@ == if is_finding(msg.kind) {
                    old(self).processor.results@.push(msg)
                } else {
                    old(self).processor.results@
                }
            },
    {
        let act = self.dispatch.record(msg.error.is_some());
        match act {
            Action::Handle => {
                let next = follow_up_probes(&msg);
                proof {
                    assert(probes_view(next@).len() == next@.len());
                    lemma_follow_ups_len(msg.kind, msg.request@);
                }
                self.dispatch.submit(next.len() as u64);
                match msg.kind {
                    FSObject::File | FSObject::Directory | FSObject::DuplicateFile
                    | FSObject::DuplicateDirectory => {
                        self.processor.maybe_add_result(msg);
                    },
                    _ => {},
                }
                next
            },
            _ => Vec::new(),
        }
    }

    pub fn is_finished(&self) -> (r: bool)
        ensures
            r == self.dispatch.finished_spec(),
    {
        self.dispatch.is_finished()
    }
}

/// The web server's version as its `Server` header names it.
#[derive(Clone, Copy, Debug, PartialEq, Eq, Structural)]
pub enum IISVersion {
    Unknown,
    IIS1,
    IIS2,
    IIS3,
    IIS4,
    IIS5,
    IIS6,
    IIS7,
    IIS75,
    IIS8,
    IIS85,
    IIS10,
}

pub open spec fn iis_version_of(server: Option<Seq<char>>) -> IISVersion {
    match server {
        None => IISVersion::Unknown,
        Some(v) => if v == "Microsoft-IIS/1"@ {
            IISVersion::IIS1
        } else if v == "Microsoft-IIS/2"@ {
            IISVersion::IIS2
        } else if v == "Microsoft-IIS/3"@ {
            IISVersion::IIS3
        } else if v == "Microsoft-IIS/4"@ {
            IISVersion::IIS4
        } else if v == "Microsoft-IIS/5"@ {
            IISVersion::IIS5
        } else if v == "Microsoft-IIS/6"@ {
            IISVersion::IIS6
        } else if v == "Microsoft-IIS/7"@ {
            IISVersion::IIS7
        } else if v == "Microsoft-IIS/7.5"@ {
            IISVersion::IIS75
        } else if v == "Microsoft-IIS/8"@ {
            IISVersion::IIS8
        } else if v == "Microsoft-IIS/8.5"@ {
            IISVersion::IIS85
        } else if v == "Microsoft-IIS/10"@ {
            IISVersion::IIS10
        } else {
            IISVersion::Unknown
        },
    }
}

impl TildeBuster {
    /// The version named by the value of the `Server` response header, if
    /// the response had one.
    pub fn map_iis_version(server: Option<&str>) -> (v: IISVersion)
        ensures
            v == iis_version_of(
                match server {
                    Some(s) => Some(s@),
                    None => None,
                },
            ),
    {
        match server {
            None => IISVersion::Unknown,
            Some(v) => {
                let s = String::from_str(v);
                if s == String::from_str("Microsoft-IIS/1") {
                    IISVersion::IIS1
                } else if s == String::from_str("Microsoft-IIS/2") {
                    IISVersion::IIS2
                } else if s == String::from_str("Microsoft-IIS/3") {
                    IISVersion::IIS3
                } else if s == String::from_str("Microsoft-IIS/4") {
                    IISVersion::IIS4
                } else if s == String::from_str("Microsoft-IIS/5") {
                    IISVersion::IIS5
                } else if s == String::from_str("Microsoft-IIS/6") {
                    IISVersion::IIS6
                } else if s == String::from_str("Microsoft-IIS/7") {
                    IISVersion::IIS7
                } else if s == String::from_str("Microsoft-IIS/7.5") {
                    IISVersion::IIS75
                } else if s == String::from_str("Microsoft-IIS/8") {
                    IISVersion::IIS8
                } else if s == String::from_str("Microsoft-IIS/8.5") {
                    IISVersion::IIS85
                } else if s == String::from_str("Microsoft-IIS/10") {
                    IISVersion::IIS10
                } else {
                    IISVersion::Unknown
                }
            },
        }
    }
}


/// On a server where no short name exists, the pattern that would match any
/// name is not answered "not found": the vulnerability check then reads
/// not vulnerable, which calls for no further probe.
pub proof fn lemma_no_name_not_vulnerable(r: TildeRequestView, statuses: Seq<u16>)
    requires
        statuses.len() == 2,
        statuses[0] != NOT_FOUND,
    ensures
        classify_spec(ProbeView { kind: ProbeKind::CheckVulnerable, request: r }, statuses)
            == FSObject::NotVulnerable,
        follow_ups(FSObject::NotVulnerable, r).len() == 0,
{
}

/// Each probe job of a name prefix adds exactly one character to the name,
/// and each job of an extension prefix one character to the extension, so a
/// name of `n` characters with an extension of `m` is reached after `n`
/// rounds of name probes and `m` rounds of extension probes.
pub proof fn lemma_one_character_per_round(kind: FSObject, r: TildeRequestView)
    ensures
        forall|i: int|
            0 <= i < follow_ups(kind, r).len() ==> {
                let p = #[trigger] follow_ups(kind, r)[i];
                &&& p.kind == ProbeKind::BruteFilename ==> p.request.filename.len()
                    == r.filename.len() + 1 && p.request.extension == r.extension
                &&& p.kind == ProbeKind::BruteExtension ==> p.request.extension.len()
                    == r.extension.len() + 1 && p.request.filename == r.filename
                &&& p.kind == ProbeKind::CheckIfDirectory ==> p.request == r
                &&& p.kind == ProbeKind::BruteDuplicate ==> p.request.filename == r.filename
                    && p.request.extension == r.extension
            },
{
}


/// The line that reports a finding: `File`, two tabs and `NAME~N.EXT` for a
/// file; `Directory`, a tab and `NAME~N` for a directory; nothing for any
/// other kind.
pub open spec fn finding_line_spec(kind: FSObject, r: TildeRequestView) -> Seq<char> {
    match kind {
        FSObject::File | FSObject::DuplicateFile => "File\t\t"@ + r.filename + "~"@ + r.duplicate_index
            + "."@ + r.extension,
        FSObject::Directory | FSObject::DuplicateDirectory => "Directory\t"@ + r.filename + "~"@
            + r.duplicate_index,
        _ => Seq::empty(),
    }
}

pub fn finding_line(res: &SingleTildeScanResult) -> (line: String)
    ensures
        line@ == finding_line_spec(res.kind, res.request@),
{
    let r = &res.request;
    match res.kind {
        FSObject::File | FSObject::DuplicateFile => {
            let mut line = String::from_str("File\t\t");
            line.append(r.filename.as_str());
            line.append("~");
            line.append(r.duplicate_index.as_str());
            line.append(".");
            line.append(r.extension.as_str());
            line
        },
        FSObject::Directory | FSObject::DuplicateDirectory => {
            let mut line = String::from_str("Directory\t");
            line.append(r.filename.as_str());
            line.append("~");
            line.append(r.duplicate_index.as_str());
            line
        },
        _ => String::new(),
    }
}

} // verus!
