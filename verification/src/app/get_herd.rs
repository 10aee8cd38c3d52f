//! Showing the herd.

use crate::app::{lookup, Herd, Inventory, Metrics, ShownCow};
use crate::domain::censored_herd::{censored_views, CensoredHerd};
use crate::domain::censorship::{shown_cow, CensoredCow, CensoredCowView};
use crate::domain::cow::{Cow, CowView};
use crate::domain::herd::cow_views;
use crate::domain::order;
use crate::domain::time::DateTime;
use crate::errors::Error;
use vstd::prelude::*;

verus! {

/// The cow with no check on record.
pub open spec fn without_history(cow: CowView) -> CowView {
    CowView { first_seen: None, last_seen: None, last_checked: None, ..cow }
}

/// The cow as the inventory knows it: as it is kept there, or, where none
/// is kept under its name, with no check on record.
pub open spec fn known(inventory: Map<Seq<char>, CowView>, cow: CowView) -> CowView {
    match lookup(inventory, cow.name.url) {
        Some(kept) => kept,
        None => without_history(cow),
    }
}

/// What is shown at `now` of the cow as the inventory knows it, where it
/// can be shown.
pub open spec fn row(inventory: Map<Seq<char>, CowView>, cow: CowView, now: DateTime) -> ShownCow {
    crate::app::shown_at(shown_cow(known(inventory, cow))->Ok_0, now)
}

/// What is shown at `now` of each cow of the herd as the inventory knows
/// it, in the order of the herd.
pub open spec fn rows(inventory: Map<Seq<char>, CowView>, herd: Seq<CowView>, now: DateTime) -> Seq<
    ShownCow,
> {
    herd.map_values(|cow: CowView| row(inventory, cow, now))
}

/// The cow as the inventory knows it.
pub fn get_or_create<I: Inventory>(inventory: &I, cow: &Cow) -> (res: Result<Cow, Error>)
    ensures
        match res {
            Ok(found) => found@ == known(inventory.cows(), cow@),
            Err(e) => e is Inventory && inventory.may_fail(),
        },
{
    match inventory.get(cow.name()) {
        Ok(Some(kept)) => Ok(kept),
        Ok(None) => Ok(Cow::new(cow.name().clone(), *cow.character())),
        Err(e) => Err(e),
    }
}

/// What is shown at `now` of the cows of `herd` as `inventory` knows them:
/// the same cows, those with visible names first and in the order of
/// their names, the others after them as chance has put them. It fails
/// where the inventory fails, and where one of the cows cannot be shown.
pub fn show_herd<I: Inventory>(
    herd: &crate::domain::herd::Herd,
    inventory: &I,
    now: &DateTime,
) -> (res: Result<Herd, Error>)
    ensures
        match res {
            Ok(shown) => {
                &&& forall|i: int|
                    0 <= i < herd@.len() ==> (#[trigger] shown_cow(
                        known(inventory.cows(), herd@[i]),
                    )) is Ok
                &&& shown@.to_multiset() == rows(inventory.cows(), herd@, *now).to_multiset()
                &&& crate::app::shown_in_display_order(shown@)
            },
            Err(e) => (e is Inventory && inventory.may_fail()) || exists|i: int|
                0 <= i < herd@.len() && #[trigger] shown_cow(known(inventory.cows(), herd@[i]))
                    == Err::<CensoredCowView, Error>(e),
        },
{
    let cows = herd.cows();
    let ghost censor = |cow: CowView| shown_cow(known(inventory.cows(), cow))->Ok_0;
    let mut censored: Vec<CensoredCow> = Vec::new();
    let mut i: usize = 0;
    while i < cows.len()
        invariant
            i <= cows.len(),
            cow_views(cows@) == herd@,
            censor == |cow: CowView| shown_cow(known(inventory.cows(), cow))->Ok_0,
            forall|k: int|
                0 <= k < i ==> (#[trigger] shown_cow(known(inventory.cows(), herd@[k]))) is Ok,
            censored_views(censored@) == herd@.take(i as int).map_values(censor),
        decreases cows.len() - i,
    {
        let cow = match get_or_create(inventory, &cows[i]) {
            Ok(cow) => cow,
            Err(e) => {
                return Err(e);
            },
        };
        let shown = match CensoredCow::new(&cow) {
            Ok(shown) => shown,
            Err(e) => {
                return Err(e);
            },
        };
        let ghost done = censored@;
        censored.push(shown);
        proof {
            assert(herd@.take(i + 1) =~= herd@.take(i as int).push(herd@[i as int]));
            herd@.take(i as int).lemma_push_map_commute(censor, herd@[i as int]);
        }
        i += 1;
    }
    let censored_herd = CensoredHerd::new(censored);
    let shown = Herd::new(&censored_herd, now);
    proof {
        let show = |cow: CensoredCowView| crate::app::shown_at(cow, *now);
        order::lemma_map_keeps_same_elements(censored_herd@, censored_views(censored@), show);
        assert(censored_views(censored@).map_values(show) =~= rows(
            inventory.cows(),
            herd@,
            *now,
        ));
    }
    Ok(shown)
}

/// Shows the herd.
pub struct GetHerdHandler<I, M> {
    herd: crate::domain::herd::Herd,
    inventory: I,
    metrics: M,
}

impl<I, M> GetHerdHandler<I, M> where I: Inventory, M: Metrics {
    pub fn new(herd: crate::domain::herd::Herd, inventory: I, metrics: M) -> (handler: Self)
        ensures
            handler.cows() == inventory.cows(),
            handler.inventory_may_fail() == inventory.may_fail(),
            handler.numbers() == metrics.herd_numbers(),
            handler.herd() == herd@,
    {
        Self { herd, inventory, metrics }
    }

    /// The cows in the handler's inventory.
    pub closed spec fn cows(&self) -> Map<Seq<char>, CowView> {
        self.inventory.cows()
    }

    /// Whether the handler's inventory may fail of its own.
    pub closed spec fn inventory_may_fail(&self) -> bool {
        self.inventory.may_fail()
    }

    /// The cows of the handler's herd.
    pub closed spec fn herd(&self) -> Seq<CowView> {
        self.herd@
    }

    pub fn inventory(&self) -> (inventory: &I)
        ensures
            inventory.cows() == self.cows(),
            inventory.may_fail() == self.inventory_may_fail(),
    {
        &self.inventory
    }

    /// The numbers that the handler's metrics hold.
    pub closed spec fn numbers(&self) -> crate::app::HerdNumbers {
        self.metrics.herd_numbers()
    }

    pub fn metrics(&self) -> (metrics: &M)
        ensures
            metrics.herd_numbers() == self.numbers(),
    {
        &self.metrics
    }

    /// What is shown at `now` of the herd: each cow as the inventory knows
    /// it, in the order in which a herd is shown.
    pub fn get_herd(&self, now: &DateTime) -> (res: Result<Herd, Error>)
        ensures
            match res {
                Ok(shown) => {
                    &&& forall|i: int|
                        0 <= i < self.herd().len() ==> (#[trigger] shown_cow(
                            known(self.cows(), self.herd()[i]),
                        )) is Ok
                    &&& shown@.to_multiset() == rows(self.cows(), self.herd(), *now).to_multiset()
                    &&& crate::app::shown_in_display_order(shown@)
                },
                Err(e) => (e is Inventory && self.inventory_may_fail()) || exists|i: int|
                    0 <= i < self.herd().len() && #[trigger] shown_cow(
                        known(self.cows(), self.herd()[i]),
                    ) == Err::<CensoredCowView, Error>(e),
            },
    {
        show_herd(&self.herd, &self.inventory, now)
    }
}

} // verus!
