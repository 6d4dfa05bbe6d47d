//! Stable sorting by keys computed beforehand.

use vstd::prelude::*;
use crate::text::{chars_le, lemma_lex_le_total, lemma_lex_le_transitive, lex_le};

verus! {

/// What an item is ordered by: a number, or a text in lexicographic order.
#[derive(Debug)]
pub enum SortKey {
    Number(u128),
    Text(Vec<char>),
}

/// A key as mathematical data.
pub enum Rank {
    Number(nat),
    Text(Seq<char>),
}

impl View for SortKey {
    type V = Rank;

    open spec fn view(&self) -> Rank {
        match *self {
            SortKey::Number(n) => Rank::Number(n as nat),
            SortKey::Text(t) => Rank::Text(t@),
        }
    }
}

/// The order of keys: numbers by size, texts lexicographically, every number
/// before every text.
pub open spec fn key_le(a: Rank, b: Rank) -> bool {
    match (a, b) {
        (Rank::Number(x), Rank::Number(y)) => x <= y,
        (Rank::Text(x), Rank::Text(y)) => lex_le(x, y),
        (Rank::Number(_), Rank::Text(_)) => true,
        (Rank::Text(_), Rank::Number(_)) => false,
    }
}

/// Whether a key `a` may stand before a key `b`: `a` is at most `b`, or at
/// least `b` when the order is descending.
pub open spec fn may_precede(a: Rank, b: Rank, descending: bool) -> bool {
    if descending {
        key_le(b, a)
    } else {
        key_le(a, b)
    }
}

/// Of two keys one may stand before the other.
pub proof fn lemma_may_precede_total(a: Rank, b: Rank, descending: bool)
    ensures
        may_precede(a, b, descending) || may_precede(b, a, descending),
{
    match (a, b) {
        (Rank::Text(x), Rank::Text(y)) => {
            lemma_lex_le_total(x, y);
        },
        _ => {},
    }
}

/// `may_precede` is transitive.
pub proof fn lemma_may_precede_transitive(a: Rank, b: Rank, c: Rank, descending: bool)
    requires
        may_precede(a, b, descending),
        may_precede(b, c, descending),
    ensures
        may_precede(a, c, descending),
{
    match (a, b, c) {
        (Rank::Text(x), Rank::Text(y), Rank::Text(z)) => {
            if descending {
                lemma_lex_le_transitive(z, y, x);
            } else {
                lemma_lex_le_transitive(x, y, z);
            }
        },
        _ => {},
    }
}

/// Whether `v` stands somewhere in `perm`.
pub open spec fn lists(perm: Seq<int>, v: int) -> bool {
    exists|i: int| 0 <= i < perm.len() && perm[i] == v
}

/// `perm` lists every position of a sequence of length `n` exactly once.
pub open spec fn is_permutation(perm: Seq<int>, n: int) -> bool {
    &&& perm.len() == n
    &&& forall|i: int| 0 <= i < perm.len() ==> 0 <= #[trigger] perm[i] < n
    &&& forall|i: int, j: int| 0 <= i < j < perm.len() ==> perm[i] != perm[j]
    &&& forall|v: int| 0 <= v < n ==> #[trigger] lists(perm, v)
}

/// `perm` is the order in which a stable sort puts the items with the keys
/// `keys`: a permutation of the positions that brings the keys in order and
/// leaves items of equal rank in the order they came in.
pub open spec fn is_stable_sort(keys: Seq<Rank>, descending: bool, perm: Seq<int>) -> bool {
    &&& is_permutation(perm, keys.len() as int)
    &&& forall|i: int, j: int|
        0 <= i < j < perm.len() ==> may_precede(keys[perm[i]], keys[perm[j]], descending)
    &&& forall|i: int, j: int|
        0 <= i < j < perm.len() && may_precede(keys[perm[j]], keys[perm[i]], descending)
            ==> perm[i] < perm[j]
}

/// Whether position `a` comes strictly before position `b` in the sorted
/// order: by key, and by position among keys of equal rank.
pub open spec fn sorts_before(keys: Seq<Rank>, descending: bool, a: int, b: int) -> bool {
    &&& may_precede(keys[a], keys[b], descending)
    &&& may_precede(keys[b], keys[a], descending) ==> a < b
}

proof fn lemma_no_earlier_candidate(
    keys: Seq<Rank>,
    descending: bool,
    p: Seq<int>,
    q: Seq<int>,
    i: int,
)
    requires
        is_stable_sort(keys, descending, p),
        is_stable_sort(keys, descending, q),
        0 <= i < p.len(),
        forall|k: int| 0 <= k < i ==> p[k] == q[k],
    ensures
        !sorts_before(keys, descending, p[i], q[i]),
{
    if sorts_before(keys, descending, p[i], q[i]) {
        assert(lists(q, p[i]));
        let j = choose|j: int| 0 <= j < q.len() && q[j] == p[i];
        if j < i {
            assert(p[j] == q[j]);
        } else if j > i {
            assert(may_precede(keys[q[i]], keys[q[j]], descending));
        }
    }
}

proof fn lemma_stable_sorts_agree(
    keys: Seq<Rank>,
    descending: bool,
    p: Seq<int>,
    q: Seq<int>,
    i: int,
)
    requires
        is_stable_sort(keys, descending, p),
        is_stable_sort(keys, descending, q),
        0 <= i <= p.len(),
    ensures
        forall|k: int| 0 <= k < i ==> p[k] == q[k],
    decreases i,
{
    if i > 0 {
        lemma_stable_sorts_agree(keys, descending, p, q, i - 1);
        let a = p[i - 1];
        let b = q[i - 1];
        if a != b {
            lemma_may_precede_total(keys[a], keys[b], descending);
            if sorts_before(keys, descending, a, b) {
                lemma_no_earlier_candidate(keys, descending, p, q, i - 1);
            } else {
                assert(sorts_before(keys, descending, b, a));
                lemma_no_earlier_candidate(keys, descending, q, p, i - 1);
            }
        }
    }
}

/// A stable sort has one outcome: two orders that both sort the same keys
/// stably are the same order.
pub proof fn lemma_stable_sort_unique(
    keys: Seq<Rank>,
    descending: bool,
    p: Seq<int>,
    q: Seq<int>,
)
    requires
        is_stable_sort(keys, descending, p),
        is_stable_sort(keys, descending, q),
    ensures
        p == q,
{
    lemma_stable_sorts_agree(keys, descending, p, q, p.len() as int);
    assert(p =~= q);
}

/// The order in which a stable sort puts items with the keys `keys`.
pub open spec fn stable_order(keys: Seq<Rank>, descending: bool) -> Seq<int> {
    choose|perm: Seq<int>| is_stable_sort(keys, descending, perm)
}

/// An order that sorts the keys stably is the stable order.
pub proof fn lemma_stable_order_is(keys: Seq<Rank>, descending: bool, perm: Seq<int>)
    requires
        is_stable_sort(keys, descending, perm),
    ensures
        stable_order(keys, descending) == perm,
{
    lemma_stable_sort_unique(keys, descending, stable_order(keys, descending), perm);
}

/// The items taken in the order that `perm` gives.
pub open spec fn reorder<T>(items: Seq<T>, perm: Seq<int>) -> Seq<T> {
    Seq::new(perm.len(), |i: int| items[perm[i]])
}

/// The keys of a sequence of pairs.
pub open spec fn keys_of<T>(pairs: Seq<(SortKey, T)>) -> Seq<Rank> {
    Seq::new(pairs.len(), |i: int| pairs[i].0@)
}

/// The items of a sequence of pairs.
pub open spec fn items_of<T>(pairs: Seq<(SortKey, T)>) -> Seq<T> {
    Seq::new(pairs.len(), |i: int| pairs[i].1)
}

/// Whether key `a` may stand before key `b`.
pub fn precedes(a: &SortKey, b: &SortKey, descending: bool) -> (r: bool)
    ensures
        r == may_precede(a@, b@, descending),
{
    let (x, y) = if descending {
        (b, a)
    } else {
        (a, b)
    };
    match (x, y) {
        (SortKey::Number(m), SortKey::Number(n)) => *m <= *n,
        (SortKey::Text(s), SortKey::Text(t)) => chars_le(s, t),
        (SortKey::Number(_), SortKey::Text(_)) => true,
        (SortKey::Text(_), SortKey::Number(_)) => false,
    }
}

/// Sorts the items by their keys, stably: the keys come in order, ascending
/// or descending, and items of equal rank stay in the order they came in.
pub fn stable_sort_by_key<T>(pairs: Vec<(SortKey, T)>, descending: bool) -> (r: Vec<T>)
    ensures
        is_stable_sort(keys_of(pairs@), descending, stable_order(keys_of(pairs@), descending)),
        r@ == reorder(items_of(pairs@), stable_order(keys_of(pairs@), descending)),
{
    let ghost keys = keys_of(pairs@);
    let ghost n = pairs.len() as int;
    let mut input = pairs;
    let mut out_keys: Vec<SortKey> = Vec::new();
    let mut out_items: Vec<T> = Vec::new();
    let ghost mut perm: Seq<int> = Seq::empty();
    while input.len() > 0
        invariant
            n == pairs.len(),
            keys == keys_of(pairs@),
            input.len() <= n,
            input@ == pairs@.take(input.len() as int),
            out_keys.len() == perm.len(),
            out_items.len() == perm.len(),
            perm.len() == n - input.len(),
            forall|i: int| 0 <= i < perm.len() ==> input.len() <= #[trigger] perm[i] < n,
            forall|i: int| 0 <= i < perm.len() ==> out_keys@[i]@ == keys[#[trigger] perm[i]],
            forall|i: int| 0 <= i < perm.len() ==> out_items@[i] == pairs@[#[trigger] perm[i]].1,
            forall|i: int, j: int| 0 <= i < j < perm.len() ==> perm[i] != perm[j],
            forall|v: int| input.len() <= v < n ==> #[trigger] lists(perm, v),
            forall|i: int, j: int|
                0 <= i < j < perm.len() ==> may_precede(keys[perm[i]], keys[perm[j]], descending),
            forall|i: int, j: int|
                0 <= i < j < perm.len() && may_precede(keys[perm[j]], keys[perm[i]], descending)
                    ==> perm[i] < perm[j],
        decreases input.len(),
    {
        let ghost m = input.len() - 1;
        let (k, x) = input.pop().unwrap();
        assert(k@ == keys[m] && x == pairs@[m].1);
        let mut p: usize = 0;
        while p < out_keys.len() && !precedes(&k, &out_keys[p], descending)
            invariant
                p <= out_keys.len(),
                forall|q: int| 0 <= q < p ==> !may_precede(k@, out_keys@[q]@, descending),
            decreases out_keys.len() - p,
        {
            p += 1;
        }
        let ghost old_perm = perm;
        out_keys.insert(p, k);
        out_items.insert(p, x);
        proof {
            perm = old_perm.insert(p as int, m);
            assert forall|i: int, j: int| 0 <= i < j < perm.len() implies may_precede(
                keys[perm[i]],
                keys[perm[j]],
                descending,
            ) by {
                if j == p {
                    lemma_may_precede_total(keys[old_perm[i]], k@, descending);
                } else if i == p {
                    if p + 1 < j {
                        lemma_may_precede_transitive(
                            k@,
                            keys[old_perm[p as int]],
                            keys[old_perm[j - 1]],
                            descending,
                        );
                    }
                } else {
                    let a = if i < p { i } else { i - 1 };
                    let b = if j < p { j } else { j - 1 };
                    assert(perm[i] == old_perm[a] && perm[j] == old_perm[b]);
                }
            }
            assert forall|i: int, j: int|
                0 <= i < j < perm.len() && may_precede(
                    keys[perm[j]],
                    keys[perm[i]],
                    descending,
                ) implies perm[i] < perm[j] by {
                if j == p {
                } else if i == p {
                    assert(perm[j] == old_perm[j - 1]);
                } else {
                    let a = if i < p { i } else { i - 1 };
                    let b = if j < p { j } else { j - 1 };
                    assert(perm[i] == old_perm[a] && perm[j] == old_perm[b]);
                }
            }
            assert forall|i: int, j: int| 0 <= i < j < perm.len() implies perm[i] != perm[j] by {
                let a = if i < p { i } else { i - 1 };
                let b = if j < p { j } else { j - 1 };
                if i != p && j != p {
                    assert(perm[i] == old_perm[a] && perm[j] == old_perm[b]);
                } else if i == p {
                    assert(perm[j] == old_perm[b]);
                } else {
                    assert(perm[i] == old_perm[a]);
                }
            }
            assert forall|v: int| input.len() <= v < n implies #[trigger] lists(perm, v) by {
                if v == m {
                    assert(perm[p as int] == v);
                } else {
                    assert(lists(old_perm, v));
                    let i0 = choose|i: int| 0 <= i < old_perm.len() && old_perm[i] == v;
                    let i1 = if i0 < p { i0 } else { i0 + 1 };
                    assert(perm[i1] == v);
                }
            }
            assert forall|i: int| 0 <= i < perm.len() implies out_keys@[i]@ == keys[#[trigger] perm[i]] by {
                let a = if i < p { i } else { i - 1 };
                if i != p {
                    assert(perm[i] == old_perm[a]);
                }
            }
            assert forall|i: int| 0 <= i < perm.len() implies out_items@[i] == pairs@[#[trigger] perm[
                i
            ]].1 by {
                let a = if i < p { i } else { i - 1 };
                if i != p {
                    assert(perm[i] == old_perm[a]);
                }
            }
            assert forall|i: int| 0 <= i < perm.len() implies input.len() <= #[trigger] perm[i] < n by {
                let a = if i < p { i } else { i - 1 };
                if i != p {
                    assert(perm[i] == old_perm[a]);
                }
            }
        }
    }
    proof {
        lemma_stable_order_is(keys, descending, perm);
    }
    assert(out_items@ =~= reorder(items_of(pairs@), perm));
    out_items
}

} // verus!
