//! The update pass: checking the cows of the herd that are due and
//! keeping what the checks found.

use crate::app::get_herd::{get_or_create, known, show_herd, without_history};
use crate::app::get_herd::rows;
use crate::app::{lookup, numbers_of, option_view, CowTxtDownloader, HerdNumbers, Inventory, Metrics};
use crate::domain::censorship::{shown_cow, CensoredCowView};
use crate::domain::cow::{Cow, CowView};
use crate::domain::cow_txt::CowTxt;
use crate::domain::herd::{cow_views, herd_of, urls, Herd};
use crate::domain::time::DateTime;
use crate::errors::Error;
use vstd::prelude::*;

verus! {

/// The cow after a check at `now`: the cow that was kept, or, where none
/// was kept, `fresh` with no check on record, marked as the check found it.
pub open spec fn probed(found: Option<CowView>, fresh: CowView, present: bool, now: DateTime) -> CowView {
    let cow = match found {
        Some(kept) => kept,
        None => without_history(fresh),
    };
    if present {
        cow.marked_as_ok(now)
    } else {
        cow.marked_as_missing(now)
    }
}

/// What is to be kept in place of `found` after a check at `now` that
/// found the cow present or not.
pub fn mark(found: Option<Cow>, fresh: &Cow, present: bool, now: &DateTime) -> (res: Result<
    Option<Cow>,
    Error,
>)
    ensures
        res matches Ok(Some(cow)) && cow@ == probed(option_view(found), fresh@, present, *now),
{
    let mut cow = match found {
        Some(kept) => kept,
        None => Cow::new(fresh.name().clone(), *fresh.character()),
    };
    if present {
        cow.mark_as_ok(now);
    } else {
        cow.mark_as_missing(now);
    }
    Ok(Some(cow))
}

/// Whether a download shows the cow: it must have succeeded, and its text
/// must be close enough to `cow_body`.
pub open spec fn shows_cow(downloaded: Result<String, Error>, cow_body: Seq<char>) -> bool {
    match downloaded {
        Ok(body) => crate::domain::cow_txt::cow_is_present(body@, cow_body),
        Err(_) => false,
    }
}

/// Whether a download shows the cow.
pub fn is_present(downloaded: &Result<String, Error>, cow_body: &str) -> (present: bool)
    ensures
        present == shows_cow(*downloaded, cow_body@),
{
    match downloaded {
        Ok(body) => CowTxt::cow_is_present(body.as_str(), cow_body),
        Err(_) => false,
    }
}

/// Keeps what a check of `cow` at `now` has found, in one update of the
/// inventory: the cow as it is kept, or `cow` with no check on record where
/// none is kept, marked as seen if the download shows the cow and as
/// missing if not. It fails only where the inventory fails, and nothing
/// changes then.
pub fn keep_check<I: Inventory>(
    inventory: &mut I,
    cow: &Cow,
    downloaded: &Result<String, Error>,
    cow_body: &str,
    now: &DateTime,
) -> (res: Result<(), Error>)
    ensures
        final(inventory).may_fail() == old(inventory).may_fail(),
        match res {
            Ok(()) => final(inventory).cows() == old(inventory).cows().insert(
                cow@.name.url,
                probed(
                    lookup(old(inventory).cows(), cow@.name.url),
                    cow@,
                    shows_cow(*downloaded, cow_body@),
                    *now,
                ),
            ),
            Err(e) => final(inventory).cows() == old(inventory).cows() && e is Inventory && old(
                inventory,
            ).may_fail(),
        },
{
    let present = is_present(downloaded, cow_body);
    let moment = *now;
    let f = |found: Option<Cow>| -> (res: Result<Option<Cow>, Error>)
        ensures
            res matches Ok(Some(marked)) && marked@ == probed(
                option_view(found),
                cow@,
                present,
                moment,
            ),
        { mark(found, cow, present, &moment) };
    inventory.update(cow.name(), f)
}

/// Whether what is kept under `key` is the same in both.
pub open spec fn untouched(
    before: Map<Seq<char>, CowView>,
    after: Map<Seq<char>, CowView>,
    key: Seq<char>,
) -> bool {
    lookup(after, key) == lookup(before, key)
}

/// Whether the cow is kept in `after` as a check at `now` has marked it.
pub open spec fn marked(
    before: Map<Seq<char>, CowView>,
    after: Map<Seq<char>, CowView>,
    cow: CowView,
    now: DateTime,
) -> bool {
    ||| lookup(after, cow.name.url) == Some(known(before, cow).marked_as_ok(now))
    ||| lookup(after, cow.name.url) == Some(known(before, cow).marked_as_missing(now))
}

/// What a pass at `now` may make of one cow of the herd: a cow that is not
/// due stays as it is kept; a cow that is due is marked by the check, or
/// stays as it is kept where the inventory failed.
pub open spec fn passed(
    before: Map<Seq<char>, CowView>,
    after: Map<Seq<char>, CowView>,
    cow: CowView,
    now: DateTime,
) -> bool {
    if known(before, cow).should_check(now) {
        marked(before, after, cow, now) || untouched(before, after, cow.name.url)
    } else {
        untouched(before, after, cow.name.url)
    }
}

/// Whether the pass has done all it had to do for the cow.
pub open spec fn completed(
    before: Map<Seq<char>, CowView>,
    after: Map<Seq<char>, CowView>,
    cow: CowView,
    now: DateTime,
) -> bool {
    known(before, cow).should_check(now) ==> marked(before, after, cow, now)
}

/// The texts as plain values.
pub open spec fn names_of(names: Seq<String>) -> Seq<Seq<char>> {
    names.map_values(|name: String| name@)
}

/// Runs the update pass.
pub struct UpdateHandler<I, D, M> {
    herd: Herd,
    inventory: I,
    downloader: D,
    metrics: M,
    cow_body: String,
}

impl<I, D, M> UpdateHandler<I, D, M> where I: Inventory, D: CowTxtDownloader, M: Metrics {
    /// A handler for the cows of `herd` that takes for a cow what is close
    /// enough to `cow_body`.
    pub fn new(herd: Herd, inventory: I, downloader: D, metrics: M, cow_body: String) -> (handler:
        Self)
        ensures
            handler.cows() == inventory.cows(),
            handler.inventory_may_fail() == inventory.may_fail(),
            handler.numbers() == metrics.herd_numbers(),
            handler.herd() == herd@,
            handler.cow_body() == cow_body@,
    {
        Self { herd, inventory, downloader, metrics, cow_body }
    }

    /// The cows in the handler's inventory.
    pub closed spec fn cows(&self) -> Map<Seq<char>, CowView> {
        self.inventory.cows()
    }

    /// Whether the handler's inventory may fail of its own.
    pub closed spec fn inventory_may_fail(&self) -> bool {
        self.inventory.may_fail()
    }

    /// The cows of the handler's herd.
    pub closed spec fn herd(&self) -> Seq<CowView> {
        self.herd@
    }

    /// The text that the handler expects of a cow.
    pub closed spec fn cow_body(&self) -> Seq<char> {
        self.cow_body@
    }

    pub fn inventory(&self) -> (inventory: &I)
        ensures
            inventory.cows() == self.cows(),
            inventory.may_fail() == self.inventory_may_fail(),
    {
        &self.inventory
    }

    /// The numbers that the handler's metrics hold.
    pub closed spec fn numbers(&self) -> HerdNumbers {
        self.metrics.herd_numbers()
    }

    pub fn metrics(&self) -> (metrics: &M)
        ensures
            metrics.herd_numbers() == self.numbers(),
    {
        &self.metrics
    }

    /// One pass over the herd at `now`. Each cow that is due, as the
    /// inventory knows it, is downloaded and then marked in one update of
    /// the inventory: as seen if the download shows the cow, as missing if
    /// not. Cows that are not due, and all that the inventory keeps under
    /// other names, stay as they are. A cow for which the inventory fails
    /// stays as it is too, and the pass goes on with the next. After the
    /// pass the herd is counted for the metrics, whether or not the
    /// inventory has failed for a cow. Then the names of the cows for which
    /// it has failed come back in `Error::UpdateIncomplete`; if there is
    /// none, the pass fails only if the herd could not be shown.
    pub fn handle(&mut self, now: &DateTime) -> (res: Result<(), Error>)
        ensures
            final(self).herd() == old(self).herd(),
            final(self).cow_body() == old(self).cow_body(),
            final(self).inventory_may_fail() == old(self).inventory_may_fail(),
            forall|key: Seq<char>|
                !urls(old(self).herd()).contains(key) ==> #[trigger] untouched(
                    old(self).cows(),
                    final(self).cows(),
                    key,
                ),
            forall|i: int|
                0 <= i < old(self).herd().len() ==> #[trigger] passed(
                    old(self).cows(),
                    final(self).cows(),
                    old(self).herd()[i],
                    *now,
                ),
            match res {
                Ok(()) => final(self).numbers() == numbers_of(
                    rows(final(self).cows(), old(self).herd(), *now),
                ),
                Err(Error::UpdateIncomplete(names)) => {
                    &&& old(self).inventory_may_fail()
                    &&& names@.len() > 0
                    &&& final(self).numbers() == numbers_of(
                        rows(final(self).cows(), old(self).herd(), *now),
                    ) || final(self).numbers() == old(self).numbers()
                    &&& forall|n: int|
                        0 <= n < names@.len() ==> urls(old(self).herd()).contains(
                            #[trigger] names_of(names@)[n],
                        )
                },
                Err(e) => {
                    &&& final(self).numbers() == old(self).numbers()
                    &&& (e is Inventory && old(self).inventory_may_fail()) || exists|i: int|
                        0 <= i < old(self).herd().len() && #[trigger] shown_cow(
                            known(final(self).cows(), old(self).herd()[i]),
                        ) == Err::<CensoredCowView, Error>(e)
                },
            },
            forall|i: int|
                0 <= i < old(self).herd().len() ==> #[trigger] completed(
                    old(self).cows(),
                    final(self).cows(),
                    old(self).herd()[i],
                    *now,
                ) || (res matches Err(Error::UpdateIncomplete(names)) && names_of(
                    names@,
                ).contains(old(self).herd()[i].name.url)),
    {
        let mut failures: Vec<String> = Vec::new();
        let cows = self.herd.cows();
        let ghost herd = self.herd@;
        let ghost before = self.inventory.cows();
        let mut i: usize = 0;
        while i < cows.len()
            invariant
                i <= cows.len(),
                cow_views(cows@) == herd,
                herd_of(herd) is Ok,
                self.herd@ == herd,
                self.cow_body == old(self).cow_body,
                forall|key: Seq<char>|
                    !urls(herd).take(i as int).contains(key) ==> #[trigger] untouched(
                        before,
                        self.inventory.cows(),
                        key,
                    ),
                forall|k: int|
                    0 <= k < i ==> #[trigger] passed(before, self.inventory.cows(), herd[k], *now),
                self.metrics == old(self).metrics,
                self.inventory.may_fail() == old(self).inventory.may_fail(),
                failures@.len() > 0 ==> self.inventory.may_fail(),
                forall|k: int|
                    0 <= k < i ==> #[trigger] completed(
                        before,
                        self.inventory.cows(),
                        herd[k],
                        *now,
                    ) || names_of(failures@).contains(herd[k].name.url),
                forall|n: int|
                    0 <= n < failures@.len() ==> urls(herd).contains(
                        #[trigger] names_of(failures@)[n],
                    ),
            decreases cows.len() - i,
        {
            let ghost kept = self.inventory.cows();
            let ghost key = herd[i as int].name.url;
            let ghost failed_before = failures@;
            proof {
                assert(urls(herd)[i as int] == key);
                assert(!urls(herd).take(i as int).contains(key)) by {
                    if urls(herd).take(i as int).contains(key) {
                        let k = choose|k: int|
                            0 <= k < i && urls(herd).take(i as int)[k] == key;
                        assert(urls(herd)[k] == urls(herd)[i as int]);
                    }
                }
                assert(untouched(before, kept, key));
            }
            let cow = &cows[i];
            let mut failed = false;
            match get_or_create(&self.inventory, cow) {
                Ok(peeked) => {
                    if peeked.should_check(now) {
                        let downloaded = self.downloader.download(cow.name());
                        match keep_check(
                            &mut self.inventory,
                            cow,
                            &downloaded,
                            self.cow_body.as_str(),
                            now,
                        ) {
                            Ok(()) => {},
                            Err(_) => {
                                failed = true;
                            },
                        }
                    }
                },
                Err(_) => {
                    failed = true;
                },
            }
            if failed {
                failures.push(cow.to_string());
            }
            proof {
                let after = self.inventory.cows();
                if failed {
                    assert(names_of(failures@) =~= names_of(failed_before).push(key));
                }
                assert forall|n: int| 0 <= n < failures@.len() implies urls(herd).contains(
                    #[trigger] names_of(failures@)[n],
                ) by {
                    if n < failed_before.len() {
                        assert(names_of(failures@)[n] == names_of(failed_before)[n]);
                    }
                }
                assert forall|other: Seq<char>|
                    !urls(herd).take(i + 1).contains(other) implies #[trigger] untouched(
                    before,
                    after,
                    other,
                ) by {
                    assert(urls(herd).take(i + 1)[i as int] == key);
                    if urls(herd).take(i as int).contains(other) {
                        let k = choose|k: int|
                            0 <= k < i && urls(herd).take(i as int)[k] == other;
                        assert(urls(herd).take(i + 1)[k] == other);
                    }
                    assert(untouched(before, kept, other));
                }
                assert forall|k: int| 0 <= k < i implies #[trigger] passed(
                    before,
                    after,
                    herd[k],
                    *now,
                ) by {
                    assert(urls(herd)[k] == herd[k].name.url);
                    assert(passed(before, kept, herd[k], *now));
                }
                assert forall|k: int| 0 <= k < i + 1 implies #[trigger] completed(
                    before,
                    after,
                    herd[k],
                    *now,
                ) || names_of(failures@).contains(herd[k].name.url) by {
                    if k < i {
                        assert(urls(herd)[k] == herd[k].name.url);
                        if !completed(before, kept, herd[k], *now) {
                            let n = choose|n: int|
                                0 <= n < failed_before.len() && names_of(failed_before)[n]
                                    == herd[k].name.url;
                            assert(names_of(failures@)[n] == herd[k].name.url);
                        }
                    } else if failed {
                        assert(names_of(failures@)[failed_before.len() as int] == key);
                    }
                }
            }
            i += 1;
        }
        let counted = match show_herd(&self.herd, &self.inventory, now) {
            Ok(shown) => {
                self.metrics.update_herd_numbers(&shown);
                proof {
                    crate::app::lemma_numbers_do_not_depend_on_order(
                        shown@,
                        rows(self.inventory.cows(), herd, *now),
                    );
                }
                Ok(())
            },
            Err(e) => Err(e),
        };
        if failures.len() > 0 {
            return Err(Error::UpdateIncomplete(failures));
        }
        match counted {
            Ok(()) => Ok(()),
            Err(e) => {
                proof {
                    if !(e is Inventory && self.inventory.may_fail()) {
                        let i = choose|i: int|
                            0 <= i < self.herd@.len() && #[trigger] shown_cow(
                                known(self.inventory.cows(), self.herd@[i]),
                            ) == Err::<CensoredCowView, Error>(e);
                        assert(shown_cow(known(self.cows(), old(self).herd()[i])) == Err::<
                            CensoredCowView,
                            Error,
                        >(e));
                    }
                }
                Err(e)
            },
        }
    }
}

} // verus!
