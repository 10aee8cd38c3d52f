//! The order of texts: character by character, a prefix before what
//! continues it. It is the order in which names stand in a herd.

use vstd::prelude::*;

verus! {

/// Whether `a` stands before `b` or is `b`.
pub open spec fn text_le(a: Seq<char>, b: Seq<char>) -> bool
    decreases a.len(),
{
    if a.len() == 0 {
        true
    } else if b.len() == 0 {
        false
    } else if a.first() == b.first() {
        text_le(a.drop_first(), b.drop_first())
    } else {
        a.first() < b.first()
    }
}

/// Every text stands before itself or is itself.
pub proof fn lemma_text_le_reflexive(a: Seq<char>)
    ensures
        text_le(a, a),
    decreases a.len(),
{
    if a.len() > 0 {
        lemma_text_le_reflexive(a.drop_first());
    }
}

/// Of two texts one stands before the other, or they are the same.
pub proof fn lemma_text_le_total(a: Seq<char>, b: Seq<char>)
    ensures
        text_le(a, b) || text_le(b, a),
    decreases a.len(),
{
    if a.len() > 0 && b.len() > 0 && a.first() == b.first() {
        lemma_text_le_total(a.drop_first(), b.drop_first());
    }
}

/// Two texts of which each stands before the other or is the other are the
/// same.
pub proof fn lemma_text_le_antisymmetric(a: Seq<char>, b: Seq<char>)
    requires
        text_le(a, b),
        text_le(b, a),
    ensures
        a == b,
    decreases a.len(),
{
    if a.len() > 0 && b.len() > 0 {
        lemma_text_le_antisymmetric(a.drop_first(), b.drop_first());
        assert(b =~= seq![b.first()] + b.drop_first());
    }
}

/// What stands before a text stands before all that the text stands before.
pub proof fn lemma_text_le_transitive(a: Seq<char>, b: Seq<char>, c: Seq<char>)
    requires
        text_le(a, b),
        text_le(b, c),
    ensures
        text_le(a, c),
    decreases a.len(),
{
    if a.len() > 0 && b.len() > 0 && c.len() > 0 {
        if a.first() == b.first() && b.first() == c.first() {
            lemma_text_le_transitive(a.drop_first(), b.drop_first(), c.drop_first());
        }
    }
}

/// Whether `a` stands before `b` or is `b`.
pub fn le(a: &Vec<char>, b: &Vec<char>) -> (res: bool)
    ensures
        res == text_le(a@, b@),
{
    let mut i: usize = 0;
    assert(a@.skip(0) =~= a@ && b@.skip(0) =~= b@);
    while i < a.len() && i < b.len()
        invariant
            i <= a.len(),
            i <= b.len(),
            text_le(a@, b@) == text_le(a@.skip(i as int), b@.skip(i as int)),
        decreases a.len() - i,
    {
        let x: char = a[i];
        let y: char = b[i];
        if x != y {
            return x < y;
        }
        assert(a@.skip(i as int).drop_first() =~= a@.skip(i + 1));
        assert(b@.skip(i as int).drop_first() =~= b@.skip(i + 1));
        i += 1;
    }
    i == a.len()
}

/// Whether `s` is in order: each text stands before those that follow it,
/// or is the same.
pub open spec fn texts_in_order(s: Seq<Seq<char>>) -> bool {
    forall|i: int, j: int| 0 <= i < j < s.len() ==> text_le(s[i], s[j])
}

/// Texts in order of which no two neighbours are the same are all
/// different.
pub proof fn lemma_neighbours_differ(s: Seq<Seq<char>>)
    requires
        texts_in_order(s),
        forall|i: int| 0 <= i < s.len() - 1 ==> #[trigger] s[i] != s[i + 1],
    ensures
        s.no_duplicates(),
{
    assert forall|i: int, j: int| 0 <= i < s.len() && 0 <= j < s.len() && i != j implies s[i]
        != s[j] by {
        let lo = if i < j {
            i
        } else {
            j
        };
        let hi = if i < j {
            j
        } else {
            i
        };
        if s[lo] == s[hi] && lo + 1 < hi {
            lemma_text_le_antisymmetric(s[lo], s[lo + 1]);
        }
    }
}

/// A sequence in order stays in order when `x` is put in at `j`, if what
/// stands before `j` may stand before `x` and `x` may stand before what
/// follows.
pub proof fn lemma_insert_keeps_order<T>(s: Seq<T>, j: int, x: T, before: spec_fn(T, T) -> bool)
    requires
        0 <= j <= s.len(),
        forall|a: int, b: int| 0 <= a < b < s.len() ==> before(s[a], s[b]),
        vstd::relations::transitive(before),
        j > 0 ==> before(s[j - 1], x),
        forall|k: int| j <= k < s.len() ==> before(x, s[k]),
    ensures
        forall|a: int, b: int|
            0 <= a < b < s.len() + 1 ==> before(s.insert(j, x)[a], s.insert(j, x)[b]),
{
    let t = s.insert(j, x);
    assert forall|a: int, b: int| 0 <= a < b < s.len() + 1 implies before(t[a], t[b]) by {
        if b == j && a < j - 1 {
            assert(before(s[a], s[j - 1]));
        }
    }
}

/// Moving an element to another place leaves the elements what they were.
pub proof fn lemma_move_keeps_elements<T>(s: Seq<T>, i: int, j: int)
    requires
        0 <= i < s.len(),
        0 <= j < s.len(),
    ensures
        s.remove(i).insert(j, s[i]).to_multiset() == s.to_multiset(),
{
    broadcast use vstd::multiset::group_multiset_axioms;

    vstd::seq_lib::to_multiset_remove(s, i);
    vstd::seq_lib::to_multiset_insert(s.remove(i), j, s[i]);
    vstd::seq_lib::to_multiset_contains(s, s[i]);
}

/// Two sequences that hold the same elements equally often still do so
/// when a function is applied to each element of both.
pub proof fn lemma_map_keeps_same_elements<A, B>(a: Seq<A>, b: Seq<A>, f: spec_fn(A) -> B)
    requires
        a.to_multiset() == b.to_multiset(),
    ensures
        a.map_values(f).to_multiset() == b.map_values(f).to_multiset(),
    decreases a.len(),
{
    vstd::seq_lib::to_multiset_len(a);
    vstd::seq_lib::to_multiset_len(b);
    if a.len() == 0 {
        assert(a.map_values(f) =~= b.map_values(f));
    } else {
        let last = a.len() - 1;
        let x = a[last];
        vstd::seq_lib::to_multiset_contains(a, x);
        vstd::seq_lib::to_multiset_contains(b, x);
        let k = choose|k: int| 0 <= k < b.len() && b[k] == x;
        let a1 = a.remove(last);
        let b1 = b.remove(k);
        vstd::seq_lib::to_multiset_remove(a, last);
        vstd::seq_lib::to_multiset_remove(b, k);
        lemma_map_keeps_same_elements(a1, b1, f);
        assert(a.map_values(f) =~= a1.map_values(f).insert(last, f(x)));
        assert(b.map_values(f) =~= b1.map_values(f).insert(k, f(x)));
        vstd::seq_lib::to_multiset_insert(a1.map_values(f), last, f(x));
        vstd::seq_lib::to_multiset_insert(b1.map_values(f), k, f(x));
    }
}

/// Two sequences that hold the same elements equally often hold equally
/// many that `keep` holds.
pub proof fn lemma_filter_keeps_same_count<A>(a: Seq<A>, b: Seq<A>, keep: spec_fn(A) -> bool)
    requires
        a.to_multiset() == b.to_multiset(),
    ensures
        a.filter(keep).len() == b.filter(keep).len(),
    decreases a.len(),
{
    vstd::seq_lib::to_multiset_len(a);
    vstd::seq_lib::to_multiset_len(b);
    if a.len() > 0 {
        let last = a.len() - 1;
        let x = a[last];
        vstd::seq_lib::to_multiset_contains(a, x);
        vstd::seq_lib::to_multiset_contains(b, x);
        let k = choose|k: int| 0 <= k < b.len() && b[k] == x;
        let a1 = a.remove(last);
        let b1 = b.remove(k);
        vstd::seq_lib::to_multiset_remove(a, last);
        vstd::seq_lib::to_multiset_remove(b, k);
        lemma_filter_keeps_same_count(a1, b1, keep);
        let one = seq![x];
        let front = b.subrange(0, k);
        let back = b.subrange(k + 1, b.len() as int);
        assert(a =~= a1 + one);
        assert(b =~= (front + one) + back);
        Seq::filter_distributes_over_add(a1, one, keep);
        Seq::filter_distributes_over_add(front + one, back, keep);
        Seq::filter_distributes_over_add(front, one, keep);
        Seq::filter_distributes_over_add(front, back, keep);
    }
}

/// A sequence of which `keep` holds no element has none left when only
/// those are kept that `keep` holds.
pub proof fn lemma_filter_of_none<T>(s: Seq<T>, keep: spec_fn(T) -> bool)
    requires
        forall|k: int| 0 <= k < s.len() ==> !keep(s[k]),
    ensures
        s.filter(keep) == Seq::<T>::empty(),
    decreases s.len(),
{
    reveal(Seq::filter);
    if s.len() > 0 {
        lemma_filter_of_none(s.drop_last(), keep);
    }
}

/// Moving an element forward leaves those that `keep` holds as they stood,
/// if `keep` does not hold the element or holds none that it passes.
pub proof fn lemma_move_keeps_filter<T>(s: Seq<T>, i: int, j: int, keep: spec_fn(T) -> bool)
    requires
        0 <= j <= i < s.len(),
        !keep(s[i]) || forall|k: int| j <= k < i ==> !keep(s[k]),
    ensures
        s.remove(i).insert(j, s[i]).filter(keep) == s.filter(keep),
{
    let x = s[i];
    let a = s.subrange(0, j);
    let b = s.subrange(j, i);
    let c = s.subrange(i + 1, s.len() as int);
    let one = seq![x];
    assert(s =~= ((a + b) + one) + c);
    assert(s.remove(i).insert(j, x) =~= ((a + one) + b) + c);
    Seq::filter_distributes_over_add((a + b) + one, c, keep);
    Seq::filter_distributes_over_add(a + b, one, keep);
    Seq::filter_distributes_over_add(a, b, keep);
    Seq::filter_distributes_over_add((a + one) + b, c, keep);
    Seq::filter_distributes_over_add(a + one, b, keep);
    Seq::filter_distributes_over_add(a, one, keep);
    if !keep(x) {
        lemma_filter_of_none(one, keep);
        assert((a.filter(keep) + b.filter(keep)) + one.filter(keep) =~= a.filter(keep) + b.filter(
            keep,
        ));
    } else {
        lemma_filter_of_none(b, keep);
        assert((a.filter(keep) + one.filter(keep)) + b.filter(keep) =~= a.filter(keep)
            + one.filter(keep));
    }
}

} // verus!
