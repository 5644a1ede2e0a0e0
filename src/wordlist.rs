//! The words of a wordlist file.
use vstd::prelude::*;
use crate::text::{has_prefix, starts_with_str, strings_view};

verus! {

/// A line is a word unless it starts with `#` or with a space.
pub open spec fn is_word(line: Seq<char>) -> bool {
    !has_prefix(line, "#"@) && !has_prefix(line, " "@)
}

/// The lines that are words, in order.
pub open spec fn words_of(lines: Seq<Seq<char>>) -> Seq<Seq<char>>
    decreases lines.len(),
{
    if lines.len() == 0 {
        Seq::empty()
    } else {
        words_of(lines.drop_last()) + if is_word(lines.last()) {
            seq![lines.last()]
        } else {
            Seq::empty()
        }
    }
}

/// The words among the lines of a wordlist: comment lines, which start with
/// `#`, and lines that start with a space are skipped.
pub fn wordlist_words(lines: &Vec<String>) -> (r: Vec<String>)
    ensures
        strings_view(r@) == words_of(strings_view(lines@)),
{
    let mut r: Vec<String> = Vec::new();
    let mut i: usize = 0;
    while i < lines.len()
        invariant
            i <= lines.len(),
            strings_view(r@) == words_of(strings_view(lines@).take(i as int)),
        decreases lines.len() - i,
    {
        let ghost before = r@;
        proof {
            let lv = strings_view(lines@);
            assert(lv.take(i + 1).drop_last() =~= lv.take(i as int));
            assert(lv.take(i + 1).last() == lines@[i as int]@);
        }
        let line = lines[i].as_str();
        if !starts_with_str(line, "#") && !starts_with_str(line, " ") {
            r.push(lines[i].clone());
            assert(strings_view(r@) =~= strings_view(before) + seq![lines@[i as int]@]);
        } else {
            assert(strings_view(r@) =~= strings_view(before) + Seq::empty());
        }
        i = i + 1;
    }
    assert(strings_view(lines@).take(i as int) =~= strings_view(lines@));
    r
}

} // verus!
