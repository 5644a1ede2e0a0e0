//! What the HTTP library accepts as a URI.
use vstd::prelude::*;
use crate::text::{opt_view, strings_view};

verus! {

/// Whether hyper accepts the text as a URI.
pub uninterp spec fn uri_accepts(s: Seq<char>) -> bool;

/// The scheme of the URI that the text parses to, if it names one.
pub uninterp spec fn uri_scheme(s: Seq<char>) -> Option<Seq<char>>;

/// Relies on `hyper::Uri`'s `FromStr` (the `http` crate's `Uri::from_str`):
/// whether the text parses, which depends on the text alone.
#[verifier::external_body]
pub(crate) fn uri_parses(s: &str) -> (r: bool)
    ensures
        r == uri_accepts(s@),
{
    s.parse::<hyper::Uri>().is_ok()
}

/// Relies on `hyper::Uri::scheme_str`, applied to the URI that the text
/// parses to.
#[verifier::external_body]
pub(crate) fn scheme_of(s: &str) -> (r: Option<String>)
    requires
        uri_accepts(s@),
    ensures
        opt_view(r) == uri_scheme(s@),
{
    match s.parse::<hyper::Uri>() {
        Ok(u) => match u.scheme_str() {
            Some(x) => Some(x.to_owned()),
            None => None,
        },
        Err(_) => None,
    }
}


/// The entries of `v` that parse as URIs, in order.
pub open spec fn parsable(v: Seq<Seq<char>>) -> Seq<Seq<char>>
    decreases v.len(),
{
    if v.len() == 0 {
        Seq::empty()
    } else {
        parsable(v.drop_last()) + if uri_accepts(v.last()) {
            seq![v.last()]
        } else {
            Seq::empty()
        }
    }
}

/// The candidates that parse as URIs, in order.
pub fn keep_parsable(v: Vec<String>) -> (r: Vec<String>)
    ensures
        strings_view(r@) == parsable(strings_view(v@)),
{
    let mut r: Vec<String> = Vec::new();
    let mut i: usize = 0;
    while i < v.len()
        invariant
            i <= v.len(),
            strings_view(r@) == parsable(strings_view(v@).take(i as int)),
        decreases v.len() - i,
    {
        let ghost before = r@;
        proof {
            let sv = strings_view(v@);
            assert(sv.take(i + 1).drop_last() =~= sv.take(i as int));
            assert(sv.take(i + 1).last() == v@[i as int]@);
        }
        if uri_parses(v[i].as_str()) {
            r.push(v[i].clone());
            assert(strings_view(r@) =~= strings_view(before) + seq![v@[i as int]@]);
        } else {
            assert(strings_view(r@) =~= strings_view(before) + Seq::empty());
        }
        i = i + 1;
    }
    assert(strings_view(v@).take(i as int) =~= strings_view(v@));
    r
}

} // verus!
