//! The values taken from the command line, and the checks made on them
//! before any probe is sent.
use vstd::prelude::*;
use vstd::string::*;
use crate::text::strings_view;
use crate::uri::{scheme_of, uri_accepts, uri_parses, uri_scheme};

verus! {

pub struct CommonArgs {
    pub wordlist_paths: Vec<String>,
    pub no_banner: bool,
    pub no_progress_bar: bool,
    pub exit_on_connection_errors: bool,
    pub n_threads: usize,
    pub output: String,
}

pub struct DNSArgs {
    pub domain: String,
}

pub struct HTTPArgs {
    pub user_agent: String,
    pub http_method: String,
    pub http_body: String,
    pub url: String,
    pub ignore_certificate: bool,
    pub http_headers: Vec<(String, String)>,
    pub include_status_codes: Vec<String>,
    pub ignore_status_codes: Vec<String>,
}

pub struct BodyArgs {
    pub include_strings: Vec<String>,
    pub ignore_strings: Vec<String>,
}

pub struct DirArgs {
    pub append_slash: bool,
    pub extensions: Vec<String>,
}

pub struct FuzzArgs {
    pub csrf_url: Option<String>,
    pub csrf_regex: Option<String>,
    pub csrf_headers: Option<Vec<(String, String)>>,
}

/// A target URL is usable when it parses and its scheme is `http` or
/// `https`.
pub open spec fn url_usable(url: Seq<char>) -> bool {
    uri_accepts(url) && (uri_scheme(url) == Some("http"@) || uri_scheme(url) == Some("https"@))
}

/// Whether the target URL can be scanned: it parses, and names the `http`
/// or the `https` scheme.
pub fn url_is_valid(url: &str) -> (r: bool)
    ensures
        r == url_usable(url@),
{
    if !uri_parses(url) {
        return false;
    }
    match scheme_of(url) {
        Some(s) => s == String::from_str("http") || s == String::from_str("https"),
        None => false,
    }
}

/// Three ASCII digits, the first from 1 to 5: what hyper reads as a status
/// code.
pub open spec fn is_status_code(s: Seq<char>) -> bool {
    &&& s.len() == 3
    &&& '1' <= s[0] <= '5'
    &&& '0' <= s[1] <= '9'
    &&& '0' <= s[2] <= '9'
}

/// Relies on `hyper::StatusCode`'s `FromStr` (the `http` crate's
/// `StatusCode::from_bytes`): it accepts exactly three bytes, the first a
/// digit from 1 to 5 and the others digits.
#[verifier::external_body]
fn parses_as_status(s: &str) -> (r: bool)
    ensures
        r == is_status_code(s@),
{
    s.parse::<hyper::StatusCode>().is_ok()
}

/// The entries of `v` that are status codes, in order.
pub open spec fn status_codes_of(v: Seq<Seq<char>>) -> Seq<Seq<char>>
    decreases v.len(),
{
    if v.len() == 0 {
        Seq::empty()
    } else {
        status_codes_of(v.drop_last()) + if is_status_code(v.last()) {
            seq![v.last()]
        } else {
            Seq::empty()
        }
    }
}

/// The entries of a status code list argument that are status codes; empty
/// and malformed entries are dropped.
pub fn status_code_list(values: &Vec<String>) -> (r: Vec<String>)
    ensures
        strings_view(r@) == status_codes_of(strings_view(values@)),
{
    let mut r: Vec<String> = Vec::new();
    let mut i: usize = 0;
    while i < values.len()
        invariant
            i <= values.len(),
            strings_view(r@) == status_codes_of(strings_view(values@).take(i as int)),
        decreases values.len() - i,
    {
        let ghost before = r@;
        proof {
            let vv = strings_view(values@);
            assert(vv.take(i + 1).drop_last() =~= vv.take(i as int));
            assert(vv.take(i + 1).last() == values@[i as int]@);
        }
        if parses_as_status(values[i].as_str()) {
            r.push(values[i].clone());
            assert(strings_view(r@) =~= strings_view(before) + seq![values@[i as int]@]);
        } else {
            assert(strings_view(r@) =~= strings_view(before) + Seq::empty());
        }
        i = i + 1;
    }
    assert(strings_view(values@).take(i as int) =~= strings_view(values@));
    r
}

/// The non-empty entries of `v`, in order.
pub open spec fn non_empty_of(v: Seq<Seq<char>>) -> Seq<Seq<char>>
    decreases v.len(),
{
    if v.len() == 0 {
        Seq::empty()
    } else {
        non_empty_of(v.drop_last()) + if v.last().len() > 0 {
            seq![v.last()]
        } else {
            Seq::empty()
        }
    }
}

/// The extensions of a directory scan: the non-empty entries of the
/// argument.
pub fn extension_list(values: &Vec<String>) -> (r: Vec<String>)
    ensures
        strings_view(r@) == non_empty_of(strings_view(values@)),
{
    let mut r: Vec<String> = Vec::new();
    let mut i: usize = 0;
    while i < values.len()
        invariant
            i <= values.len(),
            strings_view(r@) == non_empty_of(strings_view(values@).take(i as int)),
        decreases values.len() - i,
    {
        let ghost before = r@;
        proof {
            let vv = strings_view(values@);
            assert(vv.take(i + 1).drop_last() =~= vv.take(i as int));
            assert(vv.take(i + 1).last() == values@[i as int]@);
        }
        if values[i].as_str().unicode_len() > 0 {
            r.push(values[i].clone());
            assert(strings_view(r@) =~= strings_view(before) + seq![values@[i as int]@]);
        } else {
            assert(strings_view(r@) =~= strings_view(before) + Seq::empty());
        }
        i = i + 1;
    }
    assert(strings_view(values@).take(i as int) =~= strings_view(values@));
    r
}

} // verus!
