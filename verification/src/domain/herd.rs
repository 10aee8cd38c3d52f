//! A herd: the cows that are looked after, each under a name of its own.

use crate::domain::cow::{Cow, CowView};
use crate::domain::order;
use crate::errors::Error;
use crate::text;
use vstd::prelude::*;

verus! {

/// The cows as plain values.
pub open spec fn cow_views(cows: Seq<Cow>) -> Seq<CowView> {
    cows.map_values(|cow: Cow| cow@)
}

/// The canonical texts of the cows' names.
pub open spec fn urls(cows: Seq<CowView>) -> Seq<Seq<char>> {
    cows.map_values(|cow: CowView| cow.name.url)
}

/// The texts that `v` holds.
pub open spec fn texts(v: Seq<Vec<char>>) -> Seq<Seq<char>> {
    v.map_values(|t: Vec<char>| t@)
}

/// The herd that `cows` make, or the reason why they make none: a herd has
/// at least one cow, and no two of its cows share a name.
pub open spec fn herd_of(cows: Seq<CowView>) -> Result<Seq<CowView>, Error> {
    if cows.len() == 0 {
        Err(Error::EmptyHerd)
    } else if !urls(cows).no_duplicates() {
        Err(Error::DuplicateCow)
    } else {
        Ok(cows)
    }
}

/// One cow more in the herd is one plain value more at the end.
pub proof fn lemma_cow_views_push(cows: Seq<Cow>, cow: Cow)
    ensures
        cow_views(cows.push(cow)) == cow_views(cows).push(cow@),
{
}

/// One text more is one plain value more at the end.
pub proof fn lemma_texts_push(v: Seq<Vec<char>>, t: Vec<char>)
    ensures
        texts(v.push(t)) == texts(v).push(t@),
{
}

/// Of two sequences that hold the same elements equally often, one has an
/// element twice if the other has.
pub proof fn lemma_same_elements_same_duplicates<T>(a: Seq<T>, b: Seq<T>)
    requires
        a.to_multiset() == b.to_multiset(),
    ensures
        a.no_duplicates() == b.no_duplicates(),
{
    if a.no_duplicates() {
        a.lemma_multiset_has_no_duplicates();
        b.lemma_multiset_has_no_duplicates_conv();
    }
    if b.no_duplicates() {
        b.lemma_multiset_has_no_duplicates();
        a.lemma_multiset_has_no_duplicates_conv();
    }
}

/// Puts the texts in order.
pub fn sort_texts(v: &mut Vec<Vec<char>>)
    ensures
        order::texts_in_order(texts(final(v)@)),
        texts(final(v)@).to_multiset() == texts(old(v)@).to_multiset(),
        final(v).len() == old(v).len(),
{
    let ghost before = |a: Seq<char>, b: Seq<char>| order::text_le(a, b);
    let mut i: usize = 0;
    while i < v.len()
        invariant
            i <= v.len(),
            v.len() == old(v).len(),
            before == |a: Seq<char>, b: Seq<char>| order::text_le(a, b),
            order::texts_in_order(texts(v@).take(i as int)),
            texts(v@).to_multiset() == texts(old(v)@).to_multiset(),
        decreases v.len() - i,
    {
        let ghost unsorted = texts(v@);
        let x = v.remove(i);
        let mut j: usize = i;
        while j > 0 && !order::le(&v[j - 1], &x)
            invariant
                j <= i <= v.len(),
                forall|k: int| j <= k < i ==> !order::text_le(#[trigger] v@[k]@, x@),
            decreases j,
        {
            j -= 1;
        }
        let ghost removed = texts(v@);
        v.insert(j, x);
        proof {
            let prefix = unsorted.take(i as int);
            assert(texts(v@).take(i + 1) =~= prefix.insert(j as int, x@));
            assert(vstd::relations::transitive(before)) by {
                assert forall|a: Seq<char>, b: Seq<char>, c: Seq<char>|
                    #[trigger] before(a, b) && #[trigger] before(b, c) implies before(a, c) by {
                    order::lemma_text_le_transitive(a, b, c);
                }
            }
            assert forall|k: int| j <= k < prefix.len() implies before(x@, prefix[k]) by {
                assert(removed[k] == prefix[k]);
                order::lemma_text_le_total(x@, prefix[k]);
            }
            assert forall|a: int, b: int| 0 <= a < b < prefix.len() implies before(
                prefix[a],
                prefix[b],
            ) by {}
            order::lemma_insert_keeps_order(prefix, j as int, x@, before);
            assert(texts(v@) =~= unsorted.remove(i as int).insert(j as int, unsorted[i as int]));
            order::lemma_move_keeps_elements(unsorted, i as int, j as int);
        }
        i += 1;
    }
    assert(texts(v@).take(i as int) =~= texts(v@));
}

/// A herd: at least one cow, and no two cows under one name.
#[derive(Debug)]
pub struct Herd {
    cows: Vec<Cow>,
}

impl View for Herd {
    type V = Seq<CowView>;

    closed spec fn view(&self) -> Seq<CowView> {
        cow_views(self.cows@)
    }
}

impl Clone for Herd {
    fn clone(&self) -> (res: Self)
        ensures
            res@ == self@,
    {
        proof {
            use_type_invariant(self);
        }
        let mut cows: Vec<Cow> = Vec::new();
        let mut i: usize = 0;
        while i < self.cows.len()
            invariant
                i <= self.cows.len(),
                cow_views(cows@) == cow_views(self.cows@).take(i as int),
            decreases self.cows.len() - i,
        {
            let ghost copied = cows@;
            let cow = self.cows[i].clone();
            cows.push(cow);
            proof {
                lemma_cow_views_push(copied, cow);
            }
            i += 1;
        }
        assert(cow_views(cows@) =~= cow_views(self.cows@));
        Herd { cows }
    }
}

impl Herd {
    #[verifier::type_invariant]
    spec fn valid(self) -> bool {
        herd_of(cow_views(self.cows@)) is Ok
    }

    /// Makes a herd of `cows`. Refused when there is no cow, or when two of
    /// them share a name, wherever in `cows` the two stand.
    pub fn new(cows: Vec<Cow>) -> (res: Result<Herd, Error>)
        ensures
            match res {
                Ok(herd) => herd_of(cow_views(cows@)) == Ok::<Seq<CowView>, Error>(herd@),
                Err(e) => herd_of(cow_views(cows@)) == Err::<Seq<CowView>, Error>(e),
            },
    {
        if cows.len() == 0 {
            return Err(Error::EmptyHerd);
        }
        let ghost names = urls(cow_views(cows@));
        let mut sorted: Vec<Vec<char>> = Vec::new();
        let mut i: usize = 0;
        while i < cows.len()
            invariant
                i <= cows.len(),
                names == urls(cow_views(cows@)),
                texts(sorted@) == names.take(i as int),
            decreases cows.len() - i,
        {
            let ghost taken = sorted@;
            let name = text::to_chars(cows[i].name().url());
            sorted.push(name);
            proof {
                lemma_texts_push(taken, name);
            }
            i += 1;
        }
        assert(names.take(i as int) =~= names);
        sort_texts(&mut sorted);
        proof {
            lemma_same_elements_same_duplicates(texts(sorted@), names);
        }
        let mut k: usize = 1;
        while k < sorted.len()
            invariant
                1 <= k <= sorted.len(),
                cows.len() > 0,
                names == urls(cow_views(cows@)),
                order::texts_in_order(texts(sorted@)),
                names.no_duplicates() == texts(sorted@).no_duplicates(),
                forall|n: int| 0 <= n < k - 1 ==> #[trigger] texts(sorted@)[n] != texts(sorted@)[n + 1],
            decreases sorted.len() - k,
        {
            if order::le(&sorted[k], &sorted[k - 1]) {
                proof {
                    order::lemma_text_le_antisymmetric(
                        texts(sorted@)[k - 1],
                        texts(sorted@)[k as int],
                    );
                }
                return Err(Error::DuplicateCow);
            }
            proof {
                order::lemma_text_le_reflexive(texts(sorted@)[k as int]);
            }
            k += 1;
        }
        proof {
            order::lemma_neighbours_differ(texts(sorted@));
        }
        Ok(Herd { cows })
    }

    /// The cows of the herd, in the order in which they were given. There
    /// is at least one, and no two share a name.
    pub fn cows(&self) -> (cows: &[Cow])
        ensures
            cow_views(cows@) == self@,
            herd_of(self@) == Ok::<Seq<CowView>, Error>(self@),
    {
        proof {
            use_type_invariant(self);
        }
        self.cows.as_slice()
    }
}

} // verus!
