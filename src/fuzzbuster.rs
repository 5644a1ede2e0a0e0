//! Fuzzing: templates whose `FUZZ` tokens take the words of a tuple drawn
//! from the Cartesian product of the wordlists, and the replay of a CSRF
//! token fetched before each request.
use vstd::prelude::*;
use vstd::string::*;
use crate::text::{
    clone_opt, clone_pairs, clone_strings, contains, contains_str, opt_view, pairs_view,
    replace_all, replace_all_str, replace_first, replace_first_str, strings_view,
};
use crate::product::{cartesian, cartesian_product, lemma_cartesian_two, lists_view};
use crate::uri::{uri_accepts, uri_parses};

verus! {

/// The placeholder that wordlist words replace.
pub open spec fn fuzz_token() -> Seq<char> {
    "FUZZ"@
}

/// The parts of a request that may hold tokens.
pub struct Template {
    pub url: Seq<char>,
    pub headers: Seq<(Seq<char>, Seq<char>)>,
    pub body: Seq<char>,
}

pub open spec fn header_has(h: (Seq<char>, Seq<char>), tok: Seq<char>) -> bool {
    contains(h.0, tok) || contains(h.1, tok)
}

/// The first header at or after `i` whose name or value holds `tok`.
pub open spec fn first_header_from(hs: Seq<(Seq<char>, Seq<char>)>, tok: Seq<char>, i: int) -> Option<int>
    decreases hs.len() - i,
{
    if i < 0 || i >= hs.len() {
        None
    } else if header_has(hs[i], tok) {
        Some(i)
    } else {
        first_header_from(hs, tok, i + 1)
    }
}

/// The header with its first token replaced by `w`: in the name if the name
/// holds one, else in the value.
pub open spec fn substitute_header(h: (Seq<char>, Seq<char>), w: Seq<char>) -> (Seq<char>, Seq<char>) {
    if contains(h.0, fuzz_token()) {
        (replace_first(h.0, fuzz_token(), w), h.1)
    } else {
        (h.0, replace_first(h.1, fuzz_token(), w))
    }
}

/// One word takes the first token of the template, looking in the URL, then
/// in the headers in order, then in the body.
pub open spec fn substitute_word(t: Template, w: Seq<char>) -> Template {
    if contains(t.url, fuzz_token()) {
        Template { url: replace_first(t.url, fuzz_token(), w), ..t }
    } else {
        match first_header_from(t.headers, fuzz_token(), 0) {
            Some(i) => Template {
                headers: t.headers.update(i, substitute_header(t.headers[i], w)),
                ..t
            },
            None => if contains(t.body, fuzz_token()) {
                Template { body: replace_first(t.body, fuzz_token(), w), ..t }
            } else {
                t
            },
        }
    }
}

/// The words of a tuple take the template's tokens one after the other, in
/// the order of the tuple.
pub open spec fn substitute(t: Template, words: Seq<Seq<char>>) -> Template
    decreases words.len(),
{
    if words.len() == 0 {
        t
    } else {
        substitute_word(substitute(t, words.drop_last()), words.last())
    }
}

proof fn lemma_first_header_from(hs: Seq<(Seq<char>, Seq<char>)>, tok: Seq<char>, i: int)
    requires
        0 <= i,
    ensures
        match first_header_from(hs, tok, i) {
            Some(k) => i <= k < hs.len() && header_has(hs[k], tok),
            None => forall|j: int| i <= j < hs.len() ==> !header_has(#[trigger] hs[j], tok),
        },
    decreases hs.len() - i,
{
    if i < hs.len() && !header_has(hs[i], tok) {
        lemma_first_header_from(hs, tok, i + 1);
    }
}

fn first_fuzz_header(hs: &Vec<(String, String)>) -> (r: Option<usize>)
    ensures
        match r {
            Some(k) => first_header_from(pairs_view(hs@), fuzz_token(), 0) == Some(k as int),
            None => first_header_from(pairs_view(hs@), fuzz_token(), 0) is None,
        },
{
    let mut i: usize = 0;
    while i < hs.len()
        invariant
            i <= hs.len(),
            first_header_from(pairs_view(hs@), fuzz_token(), 0) == first_header_from(
                pairs_view(hs@),
                fuzz_token(),
                i as int,
            ),
        decreases hs.len() - i,
    {
        let (name, value) = &hs[i];
        if contains_str(name.as_str(), "FUZZ") || contains_str(value.as_str(), "FUZZ") {
            return Some(i);
        }
        i = i + 1;
    }
    None
}

/// Substitutes one word into the template held by `url`, `headers` and
/// `body`.
fn substitute_word_in(url: &mut String, headers: &mut Vec<(String, String)>, body: &mut String, w: &str)
    ensures
        (Template { url: final(url)@, headers: pairs_view(final(headers)@), body: final(body)@ })
            == substitute_word(
            Template { url: old(url)@, headers: pairs_view(old(headers)@), body: old(body)@ },
            w@,
        ),
{
    let ghost t = Template { url: url@, headers: pairs_view(headers@), body: body@ };
    if contains_str(url.as_str(), "FUZZ") {
        *url = replace_first_str(url.as_str(), "FUZZ", w);
    } else {
        proof {
            lemma_first_header_from(pairs_view(headers@), fuzz_token(), 0);
        }
        match first_fuzz_header(headers) {
            Some(i) => {
                let (name, value) = &headers[i];
                let pair = if contains_str(name.as_str(), "FUZZ") {
                    (replace_first_str(name.as_str(), "FUZZ", w), value.clone())
                } else {
                    (name.clone(), replace_first_str(value.as_str(), "FUZZ", w))
                };
                headers[i] = pair;
                proof {
                    assert(pairs_view(headers@) =~= t.headers.update(
                        i as int,
                        substitute_header(t.headers[i as int], w@),
                    ));
                }
            },
            None => {
                if contains_str(body.as_str(), "FUZZ") {
                    *body = replace_first_str(body.as_str(), "FUZZ", w);
                }
            },
        }
    }
}


/// Substitutes the words of a tuple, in order, into the template held by
/// `url`, `headers` and `body`.
fn substitute_words(
    url: &mut String,
    headers: &mut Vec<(String, String)>,
    body: &mut String,
    words: &Vec<String>,
)
    ensures
        (Template { url: final(url)@, headers: pairs_view(final(headers)@), body: final(body)@ })
            == substitute(
            Template { url: old(url)@, headers: pairs_view(old(headers)@), body: old(body)@ },
            strings_view(words@),
        ),
{
    let ghost t0 = Template { url: url@, headers: pairs_view(headers@), body: body@ };
    let mut i: usize = 0;
    while i < words.len()
        invariant
            i <= words.len(),
            (Template { url: url@, headers: pairs_view(headers@), body: body@ }) == substitute(
                t0,
                strings_view(words@).take(i as int),
            ),
        decreases words.len() - i,
    {
        substitute_word_in(url, headers, body, words[i].as_str());
        proof {
            let ws = strings_view(words@);
            assert(ws.take(i + 1).drop_last() =~= ws.take(i as int));
        }
        i = i + 1;
    }
    assert(strings_view(words@).take(i as int) =~= strings_view(words@));
}

/// A fuzzing scan's configuration.
#[derive(Clone, Debug)]
pub struct FuzzBuster {
    pub n_threads: usize,
    pub ignore_certificate: bool,
    pub http_method: String,
    pub http_body: String,
    pub user_agent: String,
    pub http_headers: Vec<(String, String)>,
    pub wordlist_paths: Vec<String>,
    pub url: String,
    pub include_status_codes: Vec<String>,
    pub ignore_status_codes: Vec<String>,
    pub include_body: Vec<String>,
    pub ignore_body: Vec<String>,
    pub no_progress_bar: bool,
    pub exit_on_connection_errors: bool,
    pub output: String,
    pub csrf_url: Option<String>,
    pub csrf_regex: Option<String>,
    pub csrf_headers: Option<Vec<(String, String)>>,
}

/// One request of a fuzzing scan, with the tuple of words it carries and the
/// source of its CSRF token, if any.
#[derive(Clone, Debug, PartialEq)]
pub struct FuzzRequest {
    pub url: String,
    pub http_method: String,
    pub http_headers: Vec<(String, String)>,
    pub http_body: String,
    pub user_agent: String,
    pub payload: Vec<String>,
    pub csrf_url: Option<String>,
    pub csrf_regex: Option<String>,
    pub csrf_headers: Option<Vec<(String, String)>>,
}

pub struct FuzzRequestView {
    pub url: Seq<char>,
    pub http_method: Seq<char>,
    pub http_headers: Seq<(Seq<char>, Seq<char>)>,
    pub http_body: Seq<char>,
    pub user_agent: Seq<char>,
    pub payload: Seq<Seq<char>>,
    pub csrf_url: Option<Seq<char>>,
    pub csrf_regex: Option<Seq<char>>,
    pub csrf_headers: Option<Seq<(Seq<char>, Seq<char>)>>,
}

pub open spec fn opt_pairs_view(o: Option<Vec<(String, String)>>) -> Option<Seq<(Seq<char>, Seq<char>)>> {
    match o {
        Some(v) => Some(pairs_view(v@)),
        None => None,
    }
}

impl View for FuzzRequest {
    type V = FuzzRequestView;

    open spec fn view(&self) -> FuzzRequestView {
        FuzzRequestView {
            url: self.url@,
            http_method: self.http_method@,
            http_headers: pairs_view(self.http_headers@),
            http_body: self.http_body@,
            user_agent: self.user_agent@,
            payload: strings_view(self.payload@),
            csrf_url: opt_view(self.csrf_url),
            csrf_regex: opt_view(self.csrf_regex),
            csrf_headers: opt_pairs_view(self.csrf_headers),
        }
    }
}

pub open spec fn requests_view(v: Seq<FuzzRequest>) -> Seq<FuzzRequestView> {
    v.map_values(|r: FuzzRequest| r@)
}

/// The template of a scan's requests.
pub open spec fn template_of(b: FuzzBuster) -> Template {
    Template { url: b.url@, headers: pairs_view(b.http_headers@), body: b.http_body@ }
}

/// The request that a tuple of words makes of the scan's template. The CSRF
/// parameters travel with it when a CSRF URL is configured.
pub open spec fn request_of(b: FuzzBuster, words: Seq<Seq<char>>) -> FuzzRequestView {
    let t = substitute(template_of(b), words);
    FuzzRequestView {
        url: t.url,
        http_method: b.http_method@,
        http_headers: t.headers,
        http_body: t.body,
        user_agent: b.user_agent@,
        payload: words,
        csrf_url: opt_view(b.csrf_url),
        csrf_regex: if b.csrf_url is Some {
            opt_view(b.csrf_regex)
        } else {
            None
        },
        csrf_headers: if b.csrf_url is Some {
            opt_pairs_view(b.csrf_headers)
        } else {
            None
        },
    }
}

/// A request is sent only when its URL, and the CSRF URL if there is one,
/// parse as URIs.
pub open spec fn sendable(r: FuzzRequestView) -> bool {
    uri_accepts(r.url) && match r.csrf_url {
        Some(c) => uri_accepts(c),
        None => true,
    }
}

/// The requests of a scan, one per tuple in order, keeping the sendable ones.
pub open spec fn requests_for(b: FuzzBuster, tuples: Seq<Seq<Seq<char>>>) -> Seq<FuzzRequestView>
    decreases tuples.len(),
{
    if tuples.len() == 0 {
        Seq::empty()
    } else {
        let r = request_of(b, tuples.last());
        requests_for(b, tuples.drop_last()) + if sendable(r) {
            seq![r]
        } else {
            Seq::empty()
        }
    }
}

fn clone_opt_pairs(o: &Option<Vec<(String, String)>>) -> (r: Option<Vec<(String, String)>>)
    ensures
        opt_pairs_view(r) == opt_pairs_view(*o),
{
    match o {
        Some(v) => Some(clone_pairs(v)),
        None => None,
    }
}

impl FuzzBuster {
    /// The request that one tuple of words makes of the template.
    pub fn request_for(&self, words: &Vec<String>) -> (r: FuzzRequest)
        ensures
            r@ == request_of(*self, strings_view(words@)),
    {
        let mut url = self.url.clone();
        let mut http_headers = clone_pairs(&self.http_headers);
        let mut http_body = self.http_body.clone();
        substitute_words(&mut url, &mut http_headers, &mut http_body, words);
        let has_csrf = self.csrf_url.is_some();
        FuzzRequest {
            url,
            http_method: self.http_method.clone(),
            http_headers,
            http_body,
            user_agent: self.user_agent.clone(),
            payload: clone_strings(words),
            csrf_url: clone_opt(&self.csrf_url),
            csrf_regex: if has_csrf {
                clone_opt(&self.csrf_regex)
            } else {
                None
            },
            csrf_headers: if has_csrf {
                clone_opt_pairs(&self.csrf_headers)
            } else {
                None
            },
        }
    }

    /// Whether a request can be sent: its URL and its CSRF URL parse.
    pub fn is_sendable(r: &FuzzRequest) -> (ok: bool)
        ensures
            ok == sendable(r@),
    {
        uri_parses(r.url.as_str()) && match &r.csrf_url {
            Some(c) => uri_parses(c.as_str()),
            None => true,
        }
    }
}


impl FuzzBuster {
    /// The requests of the scan: one per tuple of the Cartesian product of
    /// the wordlists, in order, keeping those whose URLs parse.
    pub fn build_requests(&self, wordlists: &Vec<Vec<String>>) -> (r: Vec<FuzzRequest>)
        ensures
            requests_view(r@) == requests_for(*self, cartesian(lists_view(wordlists@))),
    {
        let tuples = cartesian_product(wordlists);
        let ghost ts = lists_view(tuples@);
        let mut requests: Vec<FuzzRequest> = Vec::new();
        let mut i: usize = 0;
        while i < tuples.len()
            invariant
                i <= tuples.len(),
                ts == lists_view(tuples@),
                ts == cartesian(lists_view(wordlists@)),
                requests_view(requests@) == requests_for(*self, ts.take(i as int)),
            decreases tuples.len() - i,
        {
            let request = self.request_for(&tuples[i]);
            let ghost before = requests@;
            proof {
                assert(ts.take(i + 1).drop_last() =~= ts.take(i as int));
                assert(ts.take(i + 1).last() == strings_view(tuples@[i as int]@));
            }
            if FuzzBuster::is_sendable(&request) {
                requests.push(request);
                assert(requests_view(requests@) =~= requests_view(before) + seq![
                    requests@.last()@,
                ]);
            } else {
                assert(requests_view(requests@) =~= requests_view(before) + Seq::empty());
            }
            i = i + 1;
        }
        assert(ts.take(i as int) =~= ts);
        requests
    }
}

/// When every request of two wordlists of sizes `m` and `n` can be sent,
/// the scan has exactly `m * n` requests, and request `i * n + j` carries
/// word `i` of the first list and word `j` of the second.
pub proof fn lemma_fuzz_two_wordlists(b: FuzzBuster, first: Seq<Seq<char>>, second: Seq<Seq<char>>)
    requires
        forall|i: int, j: int|
            #![trigger first[i], second[j]]
            0 <= i < first.len() && 0 <= j < second.len() ==> sendable(
                request_of(b, seq![first[i], second[j]]),
            ),
    ensures
        requests_for(b, cartesian(seq![first, second])).len() == first.len() * second.len(),
        forall|i: int, j: int|
            #![trigger first[i], second[j]]
            0 <= i < first.len() && 0 <= j < second.len() ==> requests_for(
                b,
                cartesian(seq![first, second]),
            )[i * second.len() + j].payload == seq![first[i], second[j]],
{
    let ts = cartesian(seq![first, second]);
    lemma_cartesian_two(first, second);
    assert forall|k: int| 0 <= k < ts.len() implies sendable(request_of(b, #[trigger] ts[k])) by {
        let n = second.len() as int;
        let i = k / n;
        let j = k % n;
        assert(n > 0) by (nonlinear_arith)
            requires
                k < first.len() * n,
                0 <= k,
        ;
        assert(0 <= i < first.len() && 0 <= j < n && k == i * n + j) by (nonlinear_arith)
            requires
                n > 0,
                0 <= k < first.len() * n,
                i == k / n,
                j == k % n,
        ;
        assert(ts[i * n + j] == seq![first[i], second[j]]);
    }
    lemma_requests_all_sendable(b, ts);
    assert forall|i: int, j: int|
        #![trigger first[i], second[j]]
        0 <= i < first.len() && 0 <= j < second.len() implies requests_for(b, ts)[i * second.len()
            + j].payload == seq![first[i], second[j]] by {
        let n = second.len() as int;
        assert(0 <= i * n + j < first.len() * n) by (nonlinear_arith)
            requires
                0 <= i < first.len(),
                0 <= j < n,
        ;
        assert(ts[i * n + j] == seq![first[i], second[j]]);
    }
}

/// When every request is sendable, the scan has one request per tuple.
proof fn lemma_requests_all_sendable(b: FuzzBuster, ts: Seq<Seq<Seq<char>>>)
    requires
        forall|k: int| 0 <= k < ts.len() ==> sendable(request_of(b, #[trigger] ts[k])),
    ensures
        requests_for(b, ts) == ts.map_values(|t: Seq<Seq<char>>| request_of(b, t)),
    decreases ts.len(),
{
    if ts.len() > 0 {
        let init = ts.drop_last();
        assert forall|k: int| 0 <= k < init.len() implies sendable(request_of(b, #[trigger] init[k])) by {
            assert(init[k] == ts[k]);
        }
        lemma_requests_all_sendable(b, init);
        assert(sendable(request_of(b, ts[ts.len() - 1])));
        assert(requests_for(b, ts) =~= ts.map_values(|t: Seq<Seq<char>>| request_of(b, t)));
    } else {
        assert(requests_for(b, ts) =~= ts.map_values(|t: Seq<Seq<char>>| request_of(b, t)));
    }
}

/// A word goes to the URL when the URL holds a token: the headers and the
/// body keep theirs.
pub proof fn lemma_url_token_first(t: Template, w: Seq<char>)
    requires
        contains(t.url, fuzz_token()),
    ensures
        substitute(t, seq![w]) == (Template { url: replace_first(t.url, fuzz_token(), w), ..t }),
{
    assert(seq![w].drop_last() =~= Seq::<Seq<char>>::empty());
    assert(substitute(t, Seq::empty()) == t);
}

/// With no token in the URL and in the headers, a word goes to the body.
pub proof fn lemma_body_token_last(t: Template, w: Seq<char>)
    requires
        !contains(t.url, fuzz_token()),
        forall|i: int| 0 <= i < t.headers.len() ==> !header_has(#[trigger] t.headers[i], fuzz_token()),
    ensures
        substitute(t, seq![w]) == (Template { body: replace_first(t.body, fuzz_token(), w), ..t }),
{
    assert(seq![w].drop_last() =~= Seq::<Seq<char>>::empty());
    assert(substitute(t, Seq::empty()) == t);
    lemma_no_header_from(t.headers, fuzz_token(), 0);
    lemma_replace_first_absent(t.body, fuzz_token(), w);
}

/// The words of a tuple taking the first remaining token of `s`, one after
/// the other in the order of the tuple.
pub open spec fn replace_in_order(s: Seq<char>, words: Seq<Seq<char>>) -> Seq<char>
    decreases words.len(),
{
    if words.len() == 0 {
        s
    } else {
        replace_first(replace_in_order(s, words.drop_last()), fuzz_token(), words.last())
    }
}

/// With no token in the URL and in the headers, the words of a tuple go to
/// the body's tokens from left to right, each word to the first token left,
/// in the order of the tuple; the URL and the headers are kept.
pub proof fn lemma_body_tokens_in_order(t: Template, words: Seq<Seq<char>>)
    requires
        !contains(t.url, fuzz_token()),
        forall|i: int| 0 <= i < t.headers.len() ==> !header_has(#[trigger] t.headers[i], fuzz_token()),
    ensures
        substitute(t, words) == (Template { body: replace_in_order(t.body, words), ..t }),
    decreases words.len(),
{
    if words.len() > 0 {
        lemma_body_tokens_in_order(t, words.drop_last());
        lemma_no_header_from(t.headers, fuzz_token(), 0);
        let prev = replace_in_order(t.body, words.drop_last());
        lemma_replace_first_absent(prev, fuzz_token(), words.last());
    }
}

proof fn lemma_no_header_from(hs: Seq<(Seq<char>, Seq<char>)>, tok: Seq<char>, i: int)
    requires
        0 <= i,
        forall|k: int| 0 <= k < hs.len() ==> !header_has(#[trigger] hs[k], tok),
    ensures
        first_header_from(hs, tok, i) is None,
    decreases hs.len() - i,
{
    if i < hs.len() {
        lemma_no_header_from(hs, tok, i + 1);
    }
}

proof fn lemma_replace_first_absent(s: Seq<char>, p: Seq<char>, w: Seq<char>)
    ensures
        !contains(s, p) ==> replace_first(s, p, w) == s,
{
    crate::text::lemma_find(s, p);
}


/// The placeholder that a fetched CSRF token replaces.
pub open spec fn csrf_token() -> Seq<char> {
    "CSRFCSRF"@
}

pub open spec fn replace_csrf_pair(h: (Seq<char>, Seq<char>), v: Seq<char>) -> (Seq<char>, Seq<char>) {
    (replace_all(h.0, csrf_token(), v), replace_all(h.1, csrf_token(), v))
}

/// The request with every CSRF placeholder in its URL, header names, header
/// values and body replaced by `v`.
pub open spec fn replace_csrf_spec(r: FuzzRequestView, v: Seq<char>) -> FuzzRequestView {
    FuzzRequestView {
        url: replace_all(r.url, csrf_token(), v),
        http_headers: r.http_headers.map_values(
            |h: (Seq<char>, Seq<char>)| replace_csrf_pair(h, v),
        ),
        http_body: replace_all(r.http_body, csrf_token(), v),
        ..r
    }
}

/// The request once the token extracted for it is known: replaced where a
/// token was found, unchanged where none was.
pub open spec fn with_csrf(r: FuzzRequestView, token: Option<Seq<char>>) -> FuzzRequestView {
    match token {
        Some(v) => replace_csrf_spec(r, v),
        None => r,
    }
}

/// Whether the regex crate compiles the pattern.
pub uninterp spec fn regex_compiles(pattern: Seq<char>) -> bool;

/// The text of capture group 1 in the first match of the pattern in the
/// text; none when nothing matches or the group took no part in the match.
pub uninterp spec fn first_group(pattern: Seq<char>, text: Seq<char>) -> Option<Seq<char>>;

/// Relies on regex's `Regex::new`: whether the pattern compiles, which
/// depends on the pattern alone.
#[verifier::external_body]
fn regex_is_valid(pattern: &str) -> (r: bool)
    ensures
        r == regex_compiles(pattern@),
{
    regex::Regex::new(pattern).is_ok()
}

/// Relies on regex's `Regex::captures` and `Captures::get`: group 1 of the
/// first match of the compiled pattern in `text`.
#[verifier::external_body]
fn capture_first_group(pattern: &str, text: &str) -> (r: Option<String>)
    requires
        regex_compiles(pattern@),
    ensures
        opt_view(r) == first_group(pattern@, text@),
{
    let re = match regex::Regex::new(pattern) {
        Ok(re) => re,
        Err(_) => return None,
    };
    match re.captures(text) {
        Some(c) => match c.get(1) {
            Some(m) => Some(m.as_str().to_owned()),
            None => None,
        },
        None => None,
    }
}

/// Why the CSRF token of a request could not be looked for.
#[derive(Clone, Copy, Debug, PartialEq, Eq, Structural)]
pub enum CsrfError {
    /// The request names a CSRF URL but no pattern.
    MissingPattern,
    /// The pattern does not compile.
    InvalidPattern,
}

impl FuzzBuster {
    /// Whether a CSRF pattern compiles; a scan with a pattern that does not
    /// is refused before any request is sent.
    pub fn csrf_pattern_is_valid(pattern: &str) -> (r: bool)
        ensures
            r == regex_compiles(pattern@),
    {
        regex_is_valid(pattern)
    }

    /// Replaces every CSRF placeholder of the request by `csrf`.
    pub fn replace_csrf(request: FuzzRequest, csrf: String) -> (r: FuzzRequest)
        ensures
            r@ == replace_csrf_spec(request@, csrf@),
    {
        let mut p = request;
        p.url = replace_all_str(p.url.as_str(), "CSRFCSRF", csrf.as_str());
        let mut headers: Vec<(String, String)> = Vec::new();
        let mut i: usize = 0;
        while i < p.http_headers.len()
            invariant
                i <= p.http_headers.len(),
                p.http_headers == request.http_headers,
                headers.len() == i,
                pairs_view(headers@) == pairs_view(p.http_headers@).take(i as int).map_values(
                    |h: (Seq<char>, Seq<char>)| replace_csrf_pair(h, csrf@),
                ),
            decreases p.http_headers.len() - i,
        {
            let (name, value) = &p.http_headers[i];
            let ghost before = headers@;
            headers.push(
                (
                    replace_all_str(name.as_str(), "CSRFCSRF", csrf.as_str()),
                    replace_all_str(value.as_str(), "CSRFCSRF", csrf.as_str()),
                ),
            );
            proof {
                assert forall|k: int| 0 <= k < i implies pairs_view(headers@)[k] == pairs_view(
                    p.http_headers@,
                ).take(i + 1).map_values(
                    |h: (Seq<char>, Seq<char>)| replace_csrf_pair(h, csrf@),
                )[k] by {
                    assert(headers@[k] == before[k]);
                    assert(pairs_view(before)[k] == pairs_view(p.http_headers@).take(
                        i as int,
                    ).map_values(|h: (Seq<char>, Seq<char>)| replace_csrf_pair(h, csrf@))[k]);
                }
                assert(pairs_view(headers@) =~= pairs_view(p.http_headers@).take(i + 1).map_values(
                    |h: (Seq<char>, Seq<char>)| replace_csrf_pair(h, csrf@),
                ));
            }
            i = i + 1;
        }
        assert(pairs_view(p.http_headers@).take(i as int) =~= pairs_view(p.http_headers@));
        p.http_headers = headers;
        p.http_body = replace_all_str(p.http_body.as_str(), "CSRFCSRF", csrf.as_str());
        p
    }

    /// The request once its token is known: every placeholder replaced by
    /// the token, or the request unchanged when no token was found.
    pub fn apply_csrf(request: FuzzRequest, token: Option<String>) -> (r: FuzzRequest)
        ensures
            r@ == with_csrf(request@, opt_view(token)),
    {
        match token {
            Some(v) => FuzzBuster::replace_csrf(request, v),
            None => request,
        }
    }

    /// The CSRF token in a page: capture group 1 of the first match of the
    /// pattern, if any.
    pub fn extract_csrf_token(pattern: &str, page: &str) -> (r: Result<Option<String>, CsrfError>)
        ensures
            !regex_compiles(pattern@) ==> r == Err::<Option<String>, CsrfError>(
                CsrfError::InvalidPattern,
            ),
            regex_compiles(pattern@) ==> r is Ok && opt_view(r->Ok_0) == first_group(pattern@, page@),
    {
        if !regex_is_valid(pattern) {
            return Err(CsrfError::InvalidPattern);
        }
        Ok(capture_first_group(pattern, page))
    }

    /// Extracts the request's CSRF token from the body of the page its CSRF
    /// URL returned, with the request's pattern, and puts it in place.
    pub fn resolve_csrf(request: FuzzRequest, page: &str) -> (r: Result<FuzzRequest, CsrfError>)
        ensures
            match request.csrf_regex {
                None => r == Err::<FuzzRequest, CsrfError>(CsrfError::MissingPattern),
                Some(p) => if !regex_compiles(p@) {
                    r == Err::<FuzzRequest, CsrfError>(CsrfError::InvalidPattern)
                } else {
                    r is Ok && r->Ok_0@ == with_csrf(request@, first_group(p@, page@))
                },
            },
    {
        let token = match &request.csrf_regex {
            None => {
                return Err(CsrfError::MissingPattern);
            },
            Some(p) => match FuzzBuster::extract_csrf_token(p.as_str(), page) {
                Ok(t) => t,
                Err(e) => {
                    return Err(e);
                },
            },
        };
        Ok(FuzzBuster::apply_csrf(request, token))
    }
}


/// Splits a `Name: value` header argument at its first colon, dropping the
/// character that follows the colon.
pub fn split_http_headers(header: &str) -> (r: (String, String))
    ensures
        (r.0@, r.1@) == crate::dirbuster::split_header_at_colon(header@, 2),
{
    crate::dirbuster::split_header(header, 2)
}

/// Two scans agree on what shapes their requests: the template, the method,
/// the user agent and the CSRF parameters.
pub open spec fn same_request_config(a: FuzzBuster, b: FuzzBuster) -> bool {
    &&& template_of(a) == template_of(b)
    &&& a.http_method@ == b.http_method@
    &&& a.user_agent@ == b.user_agent@
    &&& opt_view(a.csrf_url) == opt_view(b.csrf_url)
    &&& opt_view(a.csrf_regex) == opt_view(b.csrf_regex)
    &&& opt_pairs_view(a.csrf_headers) == opt_pairs_view(b.csrf_headers)
}

/// Request building has no hidden input: the same configuration and the
/// same wordlists give the same requests in the same order, however often
/// they are built.
pub proof fn lemma_build_requests_repeatable(
    a: FuzzBuster,
    b: FuzzBuster,
    lists_a: Seq<Seq<Seq<char>>>,
    lists_b: Seq<Seq<Seq<char>>>,
)
    requires
        same_request_config(a, b),
        lists_a == lists_b,
    ensures
        requests_for(a, cartesian(lists_a)) == requests_for(b, cartesian(lists_b)),
{
    lemma_requests_for_agree(a, b, cartesian(lists_a));
}

proof fn lemma_requests_for_agree(a: FuzzBuster, b: FuzzBuster, ts: Seq<Seq<Seq<char>>>)
    requires
        same_request_config(a, b),
    ensures
        requests_for(a, ts) == requests_for(b, ts),
    decreases ts.len(),
{
    if ts.len() > 0 {
        lemma_requests_for_agree(a, b, ts.drop_last());
        assert(request_of(a, ts.last()) == request_of(b, ts.last()));
    }
}


/// The request template of a fuzzing scan and where its wordlists are.
#[derive(Clone, Debug)]
pub struct FuzzConfig {
    pub n_threads: usize,
    pub ignore_certificate: bool,
    pub http_method: String,
    pub http_body: String,
    pub user_agent: String,
    pub http_headers: Vec<(String, String)>,
    pub wordlist_paths: Vec<String>,
    pub url: String,
}

/// Whether the URL of the template holds a token.
pub fn is_url_case(config: &FuzzConfig) -> (r: bool)
    ensures
        r == contains(config.url@, fuzz_token()),
{
    contains_str(config.url.as_str(), "FUZZ")
}

/// Whether some header name or value of the template holds a token.
pub fn is_header_case(config: &FuzzConfig) -> (r: bool)
    ensures
        r == exists|i: int|
            0 <= i < config.http_headers@.len() && header_has(
                #[trigger] pairs_view(config.http_headers@)[i],
                fuzz_token(),
            ),
{
    proof {
        lemma_first_header_from(pairs_view(config.http_headers@), fuzz_token(), 0);
    }
    first_fuzz_header(&config.http_headers).is_some()
}

/// Whether the body of the template holds a token.
pub fn is_body_case(config: &FuzzConfig) -> (r: bool)
    ensures
        r == contains(config.http_body@, fuzz_token()),
{
    contains_str(config.http_body.as_str(), "FUZZ")
}

} // verus!
