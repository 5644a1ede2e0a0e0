//! Virtual host enumeration: the host names to try, and the reading of a
//! response body against the strings that mark the default host.
use vstd::prelude::*;
use vstd::string::*;
use crate::filter::{any_contained, contains_any};
use crate::text::strings_view;
use crate::uri::{keep_parsable, parsable};

verus! {

/// A virtual host scan's configuration.
#[derive(Clone, Debug)]
pub struct VhostBuster {
    pub n_threads: usize,
    pub ignore_certificate: bool,
    pub ignore_strings: Vec<String>,
    pub user_agent: String,
    pub http_method: String,
    pub original_url: String,
    pub wordlist_path: String,
    pub domain: String,
    pub no_progress_bar: bool,
    pub exit_on_connection_errors: bool,
    pub output: String,
}

/// `word.domain` for each word, in order.
pub open spec fn vhost_names(words: Seq<Seq<char>>, domain: Seq<char>) -> Seq<Seq<char>> {
    words.map_values(|w: Seq<char>| w + "."@ + domain)
}

/// The host names to try: `word.domain` for each word, in order, keeping
/// those that parse as URIs.
pub fn build_vhosts(words: &Vec<String>, domain: &str) -> (r: Vec<String>)
    ensures
        strings_view(r@) == parsable(vhost_names(strings_view(words@), domain@)),
{
    let mut names: Vec<String> = Vec::new();
    let mut i: usize = 0;
    while i < words.len()
        invariant
            i <= words.len(),
            names.len() == i,
            strings_view(names@) == vhost_names(strings_view(words@).take(i as int), domain@),
        decreases words.len() - i,
    {
        let mut name = words[i].clone();
        name.append(".");
        name.append(domain);
        let ghost before = names@;
        names.push(name);
        proof {
            assert forall|k: int| 0 <= k < i implies strings_view(names@)[k] == vhost_names(
                strings_view(words@).take(i + 1),
                domain@,
            )[k] by {
                assert(names@[k] == before[k]);
                assert(strings_view(before)[k] == vhost_names(
                    strings_view(words@).take(i as int),
                    domain@,
                )[k]);
            }
            assert(strings_view(names@) =~= vhost_names(strings_view(words@).take(i + 1), domain@));
        }
        i = i + 1;
    }
    assert(strings_view(words@).take(i as int) =~= strings_view(words@));
    keep_parsable(names)
}

impl VhostBuster {
    /// Whether a response body shows the default host: it holds one of the
    /// strings to ignore.
    pub fn body_is_ignored(&self, body: &str) -> (r: bool)
        ensures
            r == any_contained(body@, strings_view(self.ignore_strings@)),
    {
        contains_any(body, &self.ignore_strings)
    }
}

/// The outcome of one virtual host request.
#[derive(Clone, Debug)]
pub struct SingleVhostScanResult {
    pub vhost: String,
    pub status: String,
    pub method: String,
    pub error: Option<String>,
    pub ignored: bool,
}

/// The findings of a virtual host scan.
#[derive(Clone, Debug)]
pub struct VhostScanResult {
    pub results: Vec<SingleVhostScanResult>,
}

impl VhostScanResult {
    pub fn new() -> (r: Self)
        ensures
            r.results@.len() == 0,
    {
        VhostScanResult { results: Vec::new() }
    }

    /// Keeps the outcome; every outcome handed here is kept.
    pub fn maybe_add_result(&mut self, res: SingleVhostScanResult) -> (added: bool)
        ensures
            added,
            final(self).results@ == old(self).results@.push(res),
    {
        self.results.push(res);
        true
    }
}

} // verus!
