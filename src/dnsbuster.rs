//! DNS enumeration: the names to resolve and the record of what resolved.
use vstd::prelude::*;
use vstd::string::*;
use crate::text::strings_view;

verus! {

/// A DNS scan's configuration.
#[derive(Clone, Debug)]
pub struct DnsBuster {
    pub n_threads: usize,
    pub wordlist_path: String,
    pub domain: String,
    pub no_progress_bar: bool,
    pub output: String,
}

/// `word.domain:80` for each word, in order: the form that name resolution
/// takes.
pub open spec fn dns_names(words: Seq<Seq<char>>, domain: Seq<char>) -> Seq<Seq<char>> {
    words.map_values(|w: Seq<char>| w + "."@ + domain + ":80"@)
}

/// The names to resolve: `word.domain:80` for each word, in order.
pub fn build_domains(words: &Vec<String>, domain: &str) -> (r: Vec<String>)
    ensures
        strings_view(r@) == dns_names(strings_view(words@), domain@),
{
    let mut names: Vec<String> = Vec::new();
    let mut i: usize = 0;
    while i < words.len()
        invariant
            i <= words.len(),
            names.len() == i,
            strings_view(names@) == dns_names(strings_view(words@).take(i as int), domain@),
        decreases words.len() - i,
    {
        let mut name = words[i].clone();
        name.append(".");
        name.append(domain);
        name.append(":80");
        let ghost before = names@;
        names.push(name);
        proof {
            assert forall|k: int| 0 <= k < i implies strings_view(names@)[k] == dns_names(
                strings_view(words@).take(i + 1),
                domain@,
            )[k] by {
                assert(names@[k] == before[k]);
                assert(strings_view(before)[k] == dns_names(
                    strings_view(words@).take(i as int),
                    domain@,
                )[k]);
            }
            assert(strings_view(names@) =~= dns_names(strings_view(words@).take(i + 1), domain@));
        }
        i = i + 1;
    }
    assert(strings_view(words@).take(i as int) =~= strings_view(words@));
    names
}

/// The outcome of one name resolution: whether it resolved, and the
/// addresses it resolved to, written as text.
#[derive(Clone, Debug)]
pub struct SingleDnsScanResult {
    pub domain: String,
    pub status: bool,
    pub extra: Option<Vec<String>>,
}

/// The outcomes of a DNS scan.
#[derive(Clone, Debug)]
pub struct DnsScanResult {
    pub results: Vec<SingleDnsScanResult>,
}

impl DnsScanResult {
    pub fn new() -> (r: Self)
        ensures
            r.results@.len() == 0,
    {
        DnsScanResult { results: Vec::new() }
    }

    /// Keeps the outcome; every outcome handed here is kept.
    pub fn maybe_add_result(&mut self, res: SingleDnsScanResult) -> (added: bool)
        ensures
            added,
            final(self).results@ == old(self).results@.push(res),
    {
        self.results.push(res);
        true
    }
}


/// The name as reported: the resolved form without its three-character
/// port suffix.
pub fn display_domain(domain: &str) -> (r: String)
    ensures
        r@ == domain@.subrange(0, if domain@.len() >= 3 { domain@.len() - 3 } else { 0 }),
{
    let n = domain.unicode_len();
    let end = if n >= 3 {
        n - 3
    } else {
        0
    };
    String::from_str(domain.substring_char(0, end))
}

} // verus!
