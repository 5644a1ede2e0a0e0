//! Directory and file enumeration: the candidate URLs of each word, the
//! status-code filter, and the splitting of header arguments.
use vstd::prelude::*;
use vstd::string::*;
use crate::filter::{any_prefix, matches_any_prefix};
use crate::text::{ends_with, ends_with_char, find, lemma_find, strings_view};
use crate::uri::{keep_parsable, parsable};

verus! {

/// The HTTP parameters shared by the requests of a scan.
#[derive(Clone, Debug)]
pub struct Config {
    pub n_threads: usize,
    pub ignore_certificate: bool,
    pub http_method: String,
    pub http_body: String,
    pub user_agent: String,
    pub http_headers: Vec<(String, String)>,
}

/// A directory scan's configuration.
#[derive(Clone, Debug)]
pub struct DirBuster {
    pub n_threads: usize,
    pub ignore_certificate: bool,
    pub http_method: String,
    pub http_body: String,
    pub user_agent: String,
    pub http_headers: Vec<(String, String)>,
    pub url: String,
    pub wordlist_path: String,
    pub extensions: Vec<String>,
    pub append_slash: bool,
    pub include_status_codes: Vec<String>,
    pub ignore_status_codes: Vec<String>,
    pub no_progress_bar: bool,
    pub exit_on_connection_errors: bool,
    pub output: String,
}

/// The URL of a word under the target: joined with a single `/`.
pub open spec fn word_url(url: Seq<char>, word: Seq<char>) -> Seq<char> {
    if ends_with_char(url, '/') {
        url + word
    } else {
        url + "/"@ + word
    }
}

/// The URLs tried for one word with each extension: `u.ext`, preceded by
/// `u.ext/` when a trailing slash is asked for.
pub open spec fn extension_urls(u: Seq<char>, exts: Seq<Seq<char>>, slash: bool) -> Seq<Seq<char>>
    decreases exts.len(),
{
    if exts.len() == 0 {
        Seq::empty()
    } else {
        let e = exts.last();
        extension_urls(u, exts.drop_last(), slash) + if slash {
            seq![u + "."@ + e + "/"@, u + "."@ + e]
        } else {
            seq![u + "."@ + e]
        }
    }
}

/// The URLs tried for one word, in order: `u/` when a trailing slash is asked
/// for and `u` has none, then `u`, then the extension variants.
pub open spec fn word_candidates(url: Seq<char>, word: Seq<char>, exts: Seq<Seq<char>>, slash: bool) -> Seq<Seq<char>> {
    let u = word_url(url, word);
    (if slash && !ends_with_char(u, '/') {
        seq![u + "/"@]
    } else {
        Seq::empty()
    }) + seq![u] + extension_urls(u, exts, slash)
}

/// The URLs of a directory scan, word after word, keeping those that parse.
pub open spec fn dir_urls(url: Seq<char>, words: Seq<Seq<char>>, exts: Seq<Seq<char>>, slash: bool) -> Seq<Seq<char>>
    decreases words.len(),
{
    if words.len() == 0 {
        Seq::empty()
    } else {
        dir_urls(url, words.drop_last(), exts, slash) + parsable(
            word_candidates(url, words.last(), exts, slash),
        )
    }
}

fn join2(a: &str, b: &str) -> (r: String)
    ensures
        r@ == a@ + b@,
{
    let mut r = String::from_str(a);
    r.append(b);
    r
}

fn join(a: &str, b: &str, c: &str) -> (r: String)
    ensures
        r@ == a@ + b@ + c@,
{
    let mut r = String::from_str(a);
    r.append(b);
    r.append(c);
    r
}

fn candidates(url: &str, word: &str, extensions: &Vec<String>, append_slash: bool) -> (r: Vec<String>)
    ensures
        strings_view(r@) == word_candidates(url@, word@, strings_view(extensions@), append_slash),
{
    let u = if ends_with(url, '/') {
        join2(url, word)
    } else {
        join(url, "/", word)
    };
    assert(u@ =~= word_url(url@, word@));
    let mut r: Vec<String> = Vec::new();
    if append_slash && !ends_with(u.as_str(), '/') {
        r.push(join2(u.as_str(), "/"));
    }
    r.push(u.clone());
    let ghost head = strings_view(r@);
    assert(head =~= (if append_slash && !ends_with_char(u@, '/') {
        seq![u@ + "/"@]
    } else {
        Seq::empty()
    }) + seq![u@]);
    let mut i: usize = 0;
    while i < extensions.len()
        invariant
            i <= extensions.len(),
            u@ == word_url(url@, word@),
            strings_view(r@) == head + extension_urls(u@, strings_view(extensions@).take(i as int), append_slash),
        decreases extensions.len() - i,
    {
        let ghost before = strings_view(r@);
        let e = extensions[i].as_str();
        if append_slash {
            r.push(join(u.as_str(), ".", e).concat("/"));
        }
        r.push(join(u.as_str(), ".", e));
        proof {
            let ev = strings_view(extensions@);
            assert(ev.take(i + 1).drop_last() =~= ev.take(i as int));
            assert(ev.take(i + 1).last() == e@);
            assert(strings_view(r@) =~= before + if append_slash {
                seq![u@ + "."@ + e@ + "/"@, u@ + "."@ + e@]
            } else {
                seq![u@ + "."@ + e@]
            });
        }
        i = i + 1;
    }
    assert(strings_view(extensions@).take(i as int) =~= strings_view(extensions@));
    r
}

/// The URLs of a directory scan: for each word, in order, the word's URL
/// under the target, with an optional trailing slash, and its variants with
/// each extension; only the URLs that parse are kept.
pub fn build_urls(words: &Vec<String>, url: &str, extensions: &Vec<String>, append_slash: bool) -> (r: Vec<String>)
    ensures
        strings_view(r@) == dir_urls(url@, strings_view(words@), strings_view(extensions@), append_slash),
{
    let mut urls: Vec<String> = Vec::new();
    let mut i: usize = 0;
    while i < words.len()
        invariant
            i <= words.len(),
            strings_view(urls@) == dir_urls(url@, strings_view(words@).take(i as int), strings_view(extensions@), append_slash),
        decreases words.len() - i,
    {
        let mut kept = keep_parsable(candidates(url, words[i].as_str(), extensions, append_slash));
        let ghost before = urls@;
        let ghost added = kept@;
        urls.append(&mut kept);
        proof {
            assert(strings_view(urls@) =~= strings_view(before) + strings_view(added));
            let wv = strings_view(words@);
            assert(wv.take(i + 1).drop_last() =~= wv.take(i as int));
            assert(wv.take(i + 1).last() == words@[i as int]@);
        }
        i = i + 1;
    }
    assert(strings_view(words@).take(i as int) =~= strings_view(words@));
    urls
}

/// A header argument `Name:value` split at its first colon: the name before
/// it and the value right after it. Without a colon the name is empty and
/// the value is the text after its first character.
pub open spec fn split_header_at_colon(h: Seq<char>, skip: int) -> (Seq<char>, Seq<char>) {
    let i = match find(h, seq![':']) {
        Some(k) => k,
        None => 0,
    };
    let from = if i + skip <= h.len() {
        i + skip
    } else {
        h.len() as int
    };
    (h.subrange(0, i), h.subrange(from, h.len() as int))
}

pub(crate) fn split_header(header: &str, skip: usize) -> (r: (String, String))
    requires
        skip <= 2,
    ensures
        (r.0@, r.1@) == split_header_at_colon(header@, skip as int),
{
    let chars = crate::text::chars_of(header);
    let n = chars.len();
    let mut i: usize = 0;
    let mut found = false;
    while i < n && !found
        invariant
            chars@ == header@,
            n == header@.len(),
            i <= n,
            found ==> i < n && chars@[i as int] == ':',
            forall|k: int| 0 <= k < i ==> chars@[k] != ':',
        decreases n - i + (if found { 0int } else { 1int }),
    {
        if chars[i] == ':' {
            found = true;
        } else {
            i = i + 1;
        }
    }
    proof {
        lemma_find(header@, seq![':']);
        crate::text::lemma_find_from(header@, seq![':'], 0);
        if found {
            assert(header@.subrange(i as int, i + 1) =~= seq![':']);
            assert(crate::text::occurs_at(header@, seq![':'], i as int));
            assert forall|k: int| 0 <= k < i implies !crate::text::occurs_at(header@, seq![':'], k) by {
                assert(header@.subrange(k, k + 1)[0] == header@[k]);
            }
            let k = find(header@, seq![':'])->0;
            assert(crate::text::occurs_at(header@, seq![':'], k));
            assert(find(header@, seq![':']) == Some(i as int));
        } else {
            assert forall|k: int| 0 <= k implies !crate::text::occurs_at(header@, seq![':'], k) by {
                if k < n {
                    assert(header@.subrange(k, k + 1)[0] == header@[k]);
                }
            }
            assert(find(header@, seq![':']) is None);
        }
    }
    let at = if found {
        i
    } else {
        0
    };
    let from = if skip <= n - at {
        at + skip
    } else {
        n
    };
    (String::from_str(header.substring_char(0, at)), String::from_str(header.substring_char(from, n)))
}

/// Splits a `Name:value` header argument at its first colon.
pub fn split_http_headers(header: &str) -> (r: (String, String))
    ensures
        (r.0@, r.1@) == split_header_at_colon(header@, 1),
{
    split_header(header, 1)
}

/// The outcome of one directory request.
#[derive(Clone, Debug)]
pub struct SingleScanResult {
    pub url: String,
    pub method: String,
    pub status: String,
    pub error: Option<String>,
    pub extra: Option<String>,
}

/// Status code prefixes to keep and to drop.
#[derive(Clone, Debug)]
pub struct ResultProcessorConfig {
    pub include_codes: Vec<String>,
    pub ignore: Vec<String>,
}

/// An outcome is kept when no ignored code is a prefix of its status, and
/// either no code is to be kept specially or one of them is a prefix of it.
pub open spec fn dir_keeps(c: ResultProcessorConfig, status: Seq<char>) -> bool {
    !any_prefix(status, strings_view(c.ignore@)) && (c.include_codes@.len() == 0 || any_prefix(
        status,
        strings_view(c.include_codes@),
    ))
}

/// The findings of a directory scan and the filter they passed.
#[derive(Clone, Debug)]
pub struct ScanResult {
    pub results: Vec<SingleScanResult>,
    pub config: ResultProcessorConfig,
}

impl ScanResult {
    pub fn new(config: ResultProcessorConfig) -> (r: Self)
        ensures
            r.results@.len() == 0,
            r.config == config,
    {
        ScanResult { results: Vec::new(), config }
    }

    /// Keeps the outcome when the filter allows, and says whether it did.
    pub fn maybe_add_result(&mut self, res: SingleScanResult) -> (added: bool)
        ensures
            added == dir_keeps(old(self).config, res.status@),
            final(self).config == old(self).config,
            final(self).results@ == if added {
                old(self).results@.push(res)
            } else {
                old(self).results@
            },
    {
        let ignore = matches_any_prefix(res.status.as_str(), &self.config.ignore);
        let wanted = matches_any_prefix(res.status.as_str(), &self.config.include_codes);
        if !ignore && (self.config.include_codes.len() == 0 || wanted) {
            self.results.push(res);
            return true;
        }
        false
    }

    pub fn count(&self) -> (n: usize)
        ensures
            n == self.results@.len(),
    {
        self.results.len()
    }
}

/// An outcome whose status starts with an ignored code is dropped even when
/// no code is to be kept specially; with codes to keep, an outcome is kept
/// only if its status starts with one of them.
pub proof fn lemma_dir_status_filter(c: ResultProcessorConfig, status: Seq<char>)
    ensures
        any_prefix(status, strings_view(c.ignore@)) ==> !dir_keeps(c, status),
        c.include_codes@.len() > 0 && dir_keeps(c, status) ==> any_prefix(
            status,
            strings_view(c.include_codes@),
        ),
{
}

} // verus!
