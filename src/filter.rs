//! The include and ignore predicates of the result filters.
use vstd::prelude::*;
use crate::text::{contains, contains_str, has_prefix, starts_with_str, strings_view};

verus! {

/// Some entry of `list` is a prefix of `s`.
pub open spec fn any_prefix(s: Seq<char>, list: Seq<Seq<char>>) -> bool {
    exists|i: int| 0 <= i < list.len() && has_prefix(s, #[trigger] list[i])
}

/// Some entry of `list` occurs in `s`.
pub open spec fn any_contained(s: Seq<char>, list: Seq<Seq<char>>) -> bool {
    exists|i: int| 0 <= i < list.len() && contains(s, #[trigger] list[i])
}

/// Whether some entry of `list` is a prefix of `s`, as a status code entry
/// matches a status line.
pub fn matches_any_prefix(s: &str, list: &Vec<String>) -> (r: bool)
    ensures
        r == any_prefix(s@, strings_view(list@)),
{
    let mut i: usize = 0;
    while i < list.len()
        invariant
            i <= list.len(),
            forall|k: int| 0 <= k < i ==> !has_prefix(s@, #[trigger] strings_view(list@)[k]),
        decreases list.len() - i,
    {
        if starts_with_str(s, list[i].as_str()) {
            assert(has_prefix(s@, strings_view(list@)[i as int]));
            return true;
        }
        i = i + 1;
    }
    false
}

/// Whether some entry of `list` occurs in `s`.
pub fn contains_any(s: &str, list: &Vec<String>) -> (r: bool)
    ensures
        r == any_contained(s@, strings_view(list@)),
{
    let mut i: usize = 0;
    while i < list.len()
        invariant
            i <= list.len(),
            forall|k: int| 0 <= k < i ==> !contains(s@, #[trigger] strings_view(list@)[k]),
        decreases list.len() - i,
    {
        if contains_str(s, list[i].as_str()) {
            assert(contains(s@, strings_view(list@)[i as int]));
            return true;
        }
        i = i + 1;
    }
    false
}

} // verus!
