//! Lemmas on sequences that are mapped and flattened.

use vstd::prelude::*;
use vstd::seq_lib::lemma_flatten_concat;
use vstd::seq_lib::lemma_multiset_commutative;
use vstd::seq_lib::to_multiset_contains;
use vstd::seq_lib::to_multiset_len;
use vstd::seq_lib::to_multiset_remove;

verus! {

/// Mapping and flattening a concatenation is the same as concatenating what
/// the two parts map and flatten to.
pub proof fn lemma_flat_map_concat<A, B>(a: Seq<A>, b: Seq<A>, f: spec_fn(A) -> Seq<B>)
    ensures
        (a + b).flat_map(f) == a.flat_map(f) + b.flat_map(f),
{
    assert((a + b).map_values(f) =~= a.map_values(f) + b.map_values(f));
    lemma_flatten_concat(a.map_values(f), b.map_values(f));
}

/// What one element contributes stands between what the elements before it
/// and the elements after it contribute.
pub proof fn lemma_flat_map_split<A, B>(s: Seq<A>, f: spec_fn(A) -> Seq<B>, i: int)
    requires
        0 <= i < s.len(),
    ensures
        s.flat_map(f) == s.take(i).flat_map(f) + f(s[i]) + s.skip(i + 1).flat_map(f),
{
    assert(s =~= s.take(i + 1) + s.skip(i + 1));
    lemma_flat_map_concat(s.take(i + 1), s.skip(i + 1), f);
    s.lemma_flat_map_take_append(f, i);
}

/// Every element of a mapped and flattened sequence is contributed by some
/// element of the sequence.
pub proof fn lemma_flat_map_origin<A, B>(s: Seq<A>, f: spec_fn(A) -> Seq<B>, k: int) -> (at: (
    int,
    int,
))
    requires
        0 <= k < s.flat_map(f).len(),
    ensures
        0 <= at.0 < s.len(),
        0 <= at.1 < f(s[at.0]).len(),
        s.flat_map(f)[k] == f(s[at.0])[at.1],
    decreases s.len(),
{
    if s.len() == 0 {
        assert(s.map_values(f) =~= Seq::<Seq<B>>::empty());
        (0, 0)
    } else {
        let last = s.len() - 1;
        assert(s.take(last + 1) =~= s);
        s.lemma_flat_map_take_append(f, last);
        let before = s.take(last).flat_map(f);
        if k < before.len() {
            let at = lemma_flat_map_origin(s.take(last), f, k);
            assert(s.take(last)[at.0] == s[at.0]);
            at
        } else {
            (last, k - before.len())
        }
    }
}

/// What a sequence maps and flattens to holds, as a multiset, what the
/// sequence without one element maps and flattens to and what that element
/// contributes.
pub proof fn lemma_flat_map_remove<A, B>(s: Seq<A>, f: spec_fn(A) -> Seq<B>, i: int)
    requires
        0 <= i < s.len(),
    ensures
        s.flat_map(f).to_multiset() == s.remove(i).flat_map(f).to_multiset().add(
            f(s[i]).to_multiset(),
        ),
{
    let head = s.take(i).flat_map(f);
    let tail = s.skip(i + 1).flat_map(f);
    lemma_flat_map_split(s, f, i);
    assert(s.remove(i) =~= s.take(i) + s.skip(i + 1));
    lemma_flat_map_concat(s.take(i), s.skip(i + 1), f);
    lemma_multiset_commutative(head + f(s[i]), tail);
    lemma_multiset_commutative(head, f(s[i]));
    lemma_multiset_commutative(head, tail);
    assert(s.flat_map(f).to_multiset() =~= s.remove(i).flat_map(f).to_multiset().add(
        f(s[i]).to_multiset(),
    ));
}

/// Two sequences that hold the same elements, in whatever order, map and
/// flatten to sequences that hold the same elements.
pub proof fn lemma_flat_map_reordered<A, B>(a: Seq<A>, b: Seq<A>, f: spec_fn(A) -> Seq<B>)
    requires
        a.to_multiset() == b.to_multiset(),
    ensures
        a.flat_map(f).to_multiset() == b.flat_map(f).to_multiset(),
    decreases a.len(),
{
    to_multiset_len(a);
    to_multiset_len(b);
    if a.len() == 0 {
        assert(a =~= b);
    } else {
        let last = a.len() - 1;
        let x = a[last];
        assert(a.contains(x));
        to_multiset_contains(a, x);
        to_multiset_contains(b, x);
        let j = choose|j: int| 0 <= j < b.len() && b[j] == x;
        to_multiset_remove(a, last);
        to_multiset_remove(b, j);
        lemma_flat_map_reordered(a.remove(last), b.remove(j), f);
        lemma_flat_map_remove(a, f, last);
        lemma_flat_map_remove(b, f, j);
    }
}

/// Two functions that agree, as multisets, on every element of a sequence
/// map and flatten it to sequences that hold the same elements.
pub proof fn lemma_flat_map_agreeing<A, B>(s: Seq<A>, f: spec_fn(A) -> Seq<B>, g: spec_fn(A) -> Seq<B>)
    requires
        forall|i: int| 0 <= i < s.len() ==> f(#[trigger] s[i]).to_multiset() == g(s[i]).to_multiset(),
    ensures
        s.flat_map(f).to_multiset() == s.flat_map(g).to_multiset(),
    decreases s.len(),
{
    if s.len() == 0 {
        assert(s.map_values(f) =~= Seq::<Seq<B>>::empty());
        assert(s.map_values(g) =~= Seq::<Seq<B>>::empty());
    } else {
        let last = s.len() - 1;
        let front = s.take(last);
        assert(s.take(last + 1) =~= s);
        assert forall|i: int| 0 <= i < front.len() implies f(#[trigger] front[i]).to_multiset() == g(
            front[i],
        ).to_multiset() by {
            assert(front[i] == s[i]);
        }
        lemma_flat_map_agreeing(front, f, g);
        s.lemma_flat_map_take_append(f, last);
        s.lemma_flat_map_take_append(g, last);
        lemma_multiset_commutative(front.flat_map(f), f(s[last]));
        lemma_multiset_commutative(front.flat_map(g), g(s[last]));
    }
}

} // verus!
