//! A herd as it may be shown: in an order that tells brave cows apart by
//! their names and tells nothing of the shy ones.

use crate::domain::censorship::{CensoredCow, CensoredCowView, Name, NameView};
use crate::domain::order;
use crate::text;
use vstd::prelude::*;

verus! {

/// The censored cows as plain values.
pub open spec fn censored_views(cows: Seq<CensoredCow>) -> Seq<CensoredCowView> {
    cows.map_values(|cow: CensoredCow| cow@)
}

/// Whether the cow is shown under a censored name.
pub open spec fn is_censored(cow: CensoredCowView) -> bool {
    cow.name is Censored
}

/// Whether a cow shown as `a` may stand before one shown as `b`: a visible
/// name before a censored one, visible names in the order of their texts,
/// and censored names in any order.
pub open spec fn name_stands_before(a: NameView, b: NameView) -> bool {
    match (a, b) {
        (NameView::Censored(_), NameView::Censored(_)) => true,
        (NameView::Censored(_), NameView::Visible(_)) => false,
        (NameView::Visible(_), NameView::Censored(_)) => true,
        (NameView::Visible(a), NameView::Visible(b)) => order::text_le(a.url, b.url),
    }
}

/// Whether `a` may stand before `b` in a herd that is shown.
pub open spec fn stands_before(a: CensoredCowView, b: CensoredCowView) -> bool {
    name_stands_before(a.name, b.name)
}

/// Whether the order in which a herd is shown leaves open which of the two
/// comes first: both have censored names, or both have the same visible
/// name.
pub open spec fn ties(a: CensoredCowView, b: CensoredCowView) -> bool {
    stands_before(a, b) && stands_before(b, a)
}

/// The cows among `cows` that tie with `cow`, in their order.
pub open spec fn tied_with(cows: Seq<CensoredCowView>, cow: CensoredCowView) -> Seq<
    CensoredCowView,
> {
    cows.filter(|other: CensoredCowView| ties(other, cow))
}

/// Cows that tie with the same cow tie with each other.
pub proof fn lemma_ties_are_shared(a: CensoredCowView, b: CensoredCowView, c: CensoredCowView)
    requires
        ties(a, c),
        ties(b, c),
    ensures
        ties(a, b),
{
    if let (NameView::Visible(a), NameView::Visible(b), NameView::Visible(c)) = (
        a.name,
        b.name,
        c.name,
    ) {
        order::lemma_text_le_antisymmetric(a.url, c.url);
        order::lemma_text_le_antisymmetric(b.url, c.url);
        order::lemma_text_le_reflexive(a.url);
    }
}

/// Cows tie with a cow of a censored name exactly if their names are
/// censored.
pub proof fn lemma_censored_names_tie(cow: CensoredCowView, censored: CensoredCowView)
    requires
        is_censored(censored),
    ensures
        ties(cow, censored) <==> is_censored(cow),
{
}

/// Whether the cows stand in the order in which a herd is shown.
pub open spec fn in_display_order(cows: Seq<CensoredCowView>) -> bool {
    forall|i: int, j: int| 0 <= i < j < cows.len() ==> stands_before(cows[i], cows[j])
}

/// In the order in which a herd is shown, no cow with a censored name
/// stands before one with a visible name.
pub proof fn lemma_visible_names_come_first(cows: Seq<CensoredCowView>, i: int, j: int)
    requires
        in_display_order(cows),
        0 <= i < j < cows.len(),
        is_censored(cows[i]),
    ensures
        is_censored(cows[j]),
{
    assert(stands_before(cows[i], cows[j]));
}

/// Calls `rand::seq::SliceRandom::shuffle` with the generator that
/// `rand::thread_rng` hands out. Trusted: that the shuffle only moves the
/// cows, so that the same cows are there afterwards, each as often as
/// before; nothing is claimed of their order. `thread_rng` panics where
/// the system gives it nothing to start from.
#[verifier::external_body]
fn shuffle(cows: &mut Vec<CensoredCow>)
    ensures
        censored_views(final(cows)@).to_multiset() == censored_views(old(cows)@).to_multiset(),
{
    rand::seq::SliceRandom::shuffle(cows.as_mut_slice(), &mut rand::thread_rng());
}

/// Whether `a` may stand before `b` in a herd that is shown.
pub fn may_stand_before(a: &CensoredCow, b: &CensoredCow) -> (res: bool)
    ensures
        res == stands_before(a@, b@),
{
    match (a.name(), b.name()) {
        (Name::Censored(_), Name::Censored(_)) => true,
        (Name::Censored(_), Name::Visible(_)) => false,
        (Name::Visible(_), Name::Censored(_)) => true,
        (Name::Visible(a), Name::Visible(b)) => {
            let a = text::to_chars(a.url());
            let b = text::to_chars(b.url());
            order::le(&a, &b)
        },
    }
}

/// Puts the cows in the order in which a herd is shown. Cows that tie keep
/// the order they came in, so the cows with censored names stand among
/// themselves as they stood.
pub fn sort_for_display(cows: &mut Vec<CensoredCow>)
    ensures
        in_display_order(censored_views(final(cows)@)),
        censored_views(final(cows)@).to_multiset() == censored_views(old(cows)@).to_multiset(),
        forall|cow: CensoredCowView| #[trigger]
            tied_with(censored_views(final(cows)@), cow) == tied_with(
                censored_views(old(cows)@),
                cow,
            ),
        censored_views(final(cows)@).filter(|cow: CensoredCowView| is_censored(cow))
            == censored_views(old(cows)@).filter(|cow: CensoredCowView| is_censored(cow)),
{
    let ghost before = |a: CensoredCowView, b: CensoredCowView| stands_before(a, b);
    let ghost shy = |cow: CensoredCowView| is_censored(cow);
    let mut i: usize = 0;
    while i < cows.len()
        invariant
            i <= cows.len(),
            before == |a: CensoredCowView, b: CensoredCowView| stands_before(a, b),
            shy == |cow: CensoredCowView| is_censored(cow),
            in_display_order(censored_views(cows@).take(i as int)),
            censored_views(cows@).to_multiset() == censored_views(old(cows)@).to_multiset(),
            censored_views(cows@).filter(shy) == censored_views(old(cows)@).filter(shy),
            forall|cow: CensoredCowView| #[trigger]
                tied_with(censored_views(cows@), cow) == tied_with(
                    censored_views(old(cows)@),
                    cow,
                ),
        decreases cows.len() - i,
    {
        let ghost unsorted = censored_views(cows@);
        let x = cows.remove(i);
        let mut j: usize = i;
        while j > 0 && !may_stand_before(&cows[j - 1], &x)
            invariant
                j <= i <= cows.len(),
                is_censored(x@) ==> j == i,
                forall|k: int| j <= k < i ==> !stands_before(#[trigger] cows@[k]@, x@),
            decreases j,
        {
            j -= 1;
        }
        let ghost removed = censored_views(cows@);
        cows.insert(j, x);
        proof {
            let prefix = unsorted.take(i as int);
            assert(censored_views(cows@).take(i + 1) =~= prefix.insert(j as int, x@));
            assert(vstd::relations::transitive(before)) by {
                assert forall|a: CensoredCowView, b: CensoredCowView, c: CensoredCowView|
                    #[trigger] before(a, b) && #[trigger] before(b, c) implies before(a, c) by {
                    if let (
                        NameView::Visible(a),
                        NameView::Visible(b),
                        NameView::Visible(c),
                    ) = (a.name, b.name, c.name) {
                        order::lemma_text_le_transitive(a.url, b.url, c.url);
                    }
                }
            }
            assert forall|k: int| j <= k < prefix.len() implies before(x@, prefix[k]) by {
                assert(removed[k] == prefix[k]);
                if let (NameView::Visible(a), NameView::Visible(b)) = (x@.name, prefix[k].name) {
                    order::lemma_text_le_total(a.url, b.url);
                }
            }
            assert forall|a: int, b: int| 0 <= a < b < prefix.len() implies before(
                prefix[a],
                prefix[b],
            ) by {}
            order::lemma_insert_keeps_order(prefix, j as int, x@, before);
            assert(censored_views(cows@) =~= unsorted.remove(i as int).insert(
                j as int,
                unsorted[i as int],
            ));
            order::lemma_move_keeps_elements(unsorted, i as int, j as int);
            if is_censored(x@) {
                assert(censored_views(cows@) =~= unsorted);
            } else {
                order::lemma_move_keeps_filter(unsorted, i as int, j as int, shy);
            }
            assert forall|cow: CensoredCowView| #[trigger]
                tied_with(censored_views(cows@), cow) == tied_with(unsorted, cow) by {
                let tied = |other: CensoredCowView| ties(other, cow);
                if tied(x@) {
                    assert forall|k: int| j <= k < i implies !tied(unsorted[k]) by {
                        assert(removed[k] == cows@[k + 1]@);
                        if tied(unsorted[k]) {
                            lemma_ties_are_shared(unsorted[k], x@, cow);
                        }
                    }
                }
                order::lemma_move_keeps_filter(unsorted, i as int, j as int, tied);
            }
        }
        i += 1;
    }
    assert(censored_views(cows@).take(i as int) =~= censored_views(cows@));
}

/// The cows of a herd as they may be shown, in the order in which they are
/// shown.
#[derive(Debug)]
pub struct CensoredHerd {
    cows: Vec<CensoredCow>,
}

impl View for CensoredHerd {
    type V = Seq<CensoredCowView>;

    closed spec fn view(&self) -> Seq<CensoredCowView> {
        censored_views(self.cows@)
    }
}

impl CensoredHerd {
    #[verifier::type_invariant]
    spec fn valid(self) -> bool {
        in_display_order(censored_views(self.cows@))
    }

    /// The herd of `cows`, in an order from which nothing can be learnt
    /// about the cows with censored names: those with visible names come
    /// first, by name, and the others follow as chance has put them.
    pub fn new(cows: Vec<CensoredCow>) -> (herd: CensoredHerd)
        ensures
            herd@.to_multiset() == censored_views(cows@).to_multiset(),
            in_display_order(herd@),
    {
        let mut cows = cows;
        Self::guard_against_side_channel_attacks(&mut cows);
        CensoredHerd { cows }
    }

    /// Shuffles the cows, then puts them in the order in which a herd is
    /// shown. Where a cow with a censored name ends up depends on the
    /// shuffle alone, not on where it stood or on what it is.
    pub fn guard_against_side_channel_attacks(cows: &mut Vec<CensoredCow>)
        ensures
            censored_views(final(cows)@).to_multiset() == censored_views(
                old(cows)@,
            ).to_multiset(),
            in_display_order(censored_views(final(cows)@)),
    {
        shuffle(cows);
        sort_for_display(cows);
    }

    /// The cows, in the order in which they are shown.
    pub fn cows(&self) -> (cows: &[CensoredCow])
        ensures
            censored_views(cows@) == self@,
            in_display_order(self@),
    {
        proof {
            use_type_invariant(self);
        }
        self.cows.as_slice()
    }
}

} // verus!
