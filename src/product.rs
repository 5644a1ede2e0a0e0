//! The Cartesian product of wordlists.
use itertools::Itertools;
use vstd::prelude::*;
use crate::text::strings_view;

verus! {

/// The tuples of the Cartesian product of `lists` that extend the prefix
/// tuples of the earlier lists by each word of the last one, the last list
/// varying fastest.
pub open spec fn product_from(lists: Seq<Seq<Seq<char>>>) -> Seq<Seq<Seq<char>>>
    decreases lists.len(),
{
    if lists.len() == 0 {
        seq![Seq::empty()]
    } else {
        extend_rows(product_from(lists.drop_last()), lists.last()).flatten()
    }
}

/// The tuple `p` extended by each word of `last`, in order.
pub open spec fn extend_each(p: Seq<Seq<char>>, last: Seq<Seq<char>>) -> Seq<Seq<Seq<char>>> {
    last.map_values(|w: Seq<char>| p.push(w))
}

pub open spec fn extend_rows(prev: Seq<Seq<Seq<char>>>, last: Seq<Seq<char>>) -> Seq<
    Seq<Seq<Seq<char>>>,
> {
    prev.map_values(|p: Seq<Seq<char>>| extend_each(p, last))
}

/// The Cartesian product of the wordlists, in lexicographic order of
/// positions; no tuple at all for no wordlist.
pub open spec fn cartesian(lists: Seq<Seq<Seq<char>>>) -> Seq<Seq<Seq<char>>> {
    if lists.len() == 0 {
        Seq::empty()
    } else {
        product_from(lists)
    }
}

pub open spec fn lists_view(v: Seq<Vec<String>>) -> Seq<Seq<Seq<char>>> {
    v.map_values(|l: Vec<String>| strings_view(l@))
}

/// Relies on itertools' `multi_cartesian_product` (0.8): the tuples of the
/// product in order, the last iterator varying fastest, and none for an
/// empty list of iterators.
#[verifier::external_body]
pub(crate) fn cartesian_product(lists: &Vec<Vec<String>>) -> (r: Vec<Vec<String>>)
    ensures
        lists_view(r@) == cartesian(lists_view(lists@)),
{
    lists.iter().map(|l| l.iter().cloned()).multi_cartesian_product().collect()
}

proof fn lemma_flatten_uniform<A>(s: Seq<Seq<A>>, n: int)
    requires
        n >= 0,
        forall|i: int| 0 <= i < s.len() ==> #[trigger] s[i].len() == n,
    ensures
        s.flatten().len() == s.len() * n,
        forall|i: int, j: int|
            0 <= i < s.len() && 0 <= j < n ==> s.flatten()[i * n + j] == #[trigger] s[i][j],
    decreases s.len(),
{
    s.lemma_flatten_and_flatten_alt_are_equivalent();
    if s.len() > 0 {
        let init = s.drop_last();
        lemma_flatten_uniform(init, n);
        init.lemma_flatten_and_flatten_alt_are_equivalent();
        assert(s.flatten_alt() == init.flatten_alt() + s.last());
        assert(s.len() * n == init.len() * n + n) by (nonlinear_arith)
            requires
                init.len() == s.len() - 1,
        ;
        assert forall|i: int, j: int| 0 <= i < s.len() && 0 <= j < n implies s.flatten()[i * n + j]
            == #[trigger] s[i][j] by {
            if i < s.len() - 1 {
                assert(i * n + j < init.len() * n) by (nonlinear_arith)
                    requires
                        0 <= i < init.len(),
                        0 <= j < n,
                ;
                assert(init[i] == s[i]);
            } else {
                assert(i * n == init.len() * n);
                assert(s.last() == s[i]);
            }
        }
    }
}

/// Two wordlists of sizes `m` and `n` give `m * n` tuples, and tuple
/// `i * n + j` is the pair of word `i` of the first and word `j` of the
/// second.
pub proof fn lemma_cartesian_two(a: Seq<Seq<char>>, b: Seq<Seq<char>>)
    ensures
        cartesian(seq![a, b]).len() == a.len() * b.len(),
        forall|i: int, j: int|
            #![trigger a[i], b[j]]
            0 <= i < a.len() && 0 <= j < b.len() ==> cartesian(seq![a, b])[i * b.len() + j]
                == seq![a[i], b[j]],
{
    let l1 = seq![a];
    let l2 = seq![a, b];
    assert(l2.drop_last() =~= l1);
    assert(l1.drop_last() =~= Seq::<Seq<Seq<char>>>::empty());
    let e: Seq<Seq<char>> = Seq::empty();
    assert(product_from(l1.drop_last()) == seq![e]);
    let single = extend_rows(seq![e], a);
    assert(product_from(l1) == single.flatten());
    single.lemma_flatten_one_element();
    let p1 = product_from(l1);
    assert(p1 == extend_each(e, a));
    assert(product_from(l2.drop_last()) == p1);
    let rows = extend_rows(p1, b);
    assert(product_from(l2) == rows.flatten());
    assert forall|i: int| 0 <= i < rows.len() implies #[trigger] rows[i].len() == b.len() by {}
    lemma_flatten_uniform(rows, b.len() as int);
    assert forall|i: int, j: int|
        #![trigger a[i], b[j]]
        0 <= i < a.len() && 0 <= j < b.len() implies cartesian(seq![a, b])[i * b.len() + j]
            == seq![a[i], b[j]] by {
        assert(rows[i][j] == p1[i].push(b[j]));
        assert(p1[i] == e.push(a[i]));
        assert(rows[i][j] =~= seq![a[i], b[j]]);
    }
}

} // verus!
