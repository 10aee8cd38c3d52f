//! What can be done with a herd: the ports through which cows are stored,
//! downloaded and counted, what is shown of a herd, and the handlers that
//! do the work.

pub mod add_cow;
pub mod change_cow_character;
pub mod check_cow;
pub mod get_herd;
pub mod update;

use crate::domain::censored_herd::{censored_views, CensoredHerd};
use crate::domain::censorship::{CensoredCow, CensoredCowView, Name, NameView};
use crate::domain::cow::{Character, Cow as DomainCow, CowView};
use crate::domain::name::VisibleName;
use crate::domain::time::{DateTime, Duration};
use crate::errors::Error;
use vstd::prelude::*;

verus! {

/// A cow counts as seen recently for this many hours after it was seen.
pub const SEEN_RECENTLY_FOR_HOURS: u64 = 24;

/// How a cow is doing, as far as the checks on it tell.
#[derive(Debug, Clone, Copy, PartialEq, Eq, Structural, Hash)]
pub enum CowStatus {
    /// The cow was seen within the last day.
    HappilyGrazing,
    /// The cow was checked, and was not seen within the last day.
    RanAway,
    /// The cow was never checked.
    HaveNotCheckedYet,
}

/// The status at `now` of a cow last seen and last checked as given.
pub open spec fn status_at(
    last_seen: Option<DateTime>,
    last_checked: Option<DateTime>,
    now: DateTime,
) -> CowStatus {
    if last_checked is None {
        CowStatus::HaveNotCheckedYet
    } else if last_seen is Some && now.spec_since(last_seen->0) < SEEN_RECENTLY_FOR_HOURS * 3600 {
        CowStatus::HappilyGrazing
    } else {
        CowStatus::RanAway
    }
}

/// The status of `cow` at `now`.
pub open spec fn status_of(cow: CowView, now: DateTime) -> CowStatus {
    status_at(cow.last_seen, cow.last_checked, now)
}

impl CowStatus {
    /// Every status, once.
    pub fn all_variants() -> (all: Vec<CowStatus>)
        ensures
            all@ == seq![
                CowStatus::HappilyGrazing,
                CowStatus::RanAway,
                CowStatus::HaveNotCheckedYet,
            ],
    {
        let mut all: Vec<CowStatus> = Vec::new();
        all.push(CowStatus::HappilyGrazing);
        all.push(CowStatus::RanAway);
        all.push(CowStatus::HaveNotCheckedYet);
        assert(all@ =~= seq![
            CowStatus::HappilyGrazing,
            CowStatus::RanAway,
            CowStatus::HaveNotCheckedYet,
        ]);
        all
    }

    /// The status at `now` of the cow that `cow` shows.
    pub fn new(cow: &CensoredCow, now: &DateTime) -> (status: CowStatus)
        ensures
            status == status_at(cow@.last_seen, cow@.last_checked, *now),
    {
        if cow.last_checked().is_none() {
            return CowStatus::HaveNotCheckedYet;
        }
        let seen_recently = match cow.last_seen() {
            Some(last_seen) => now.since(last_seen).is_shorter_than(
                &Duration::new_from_hours(SEEN_RECENTLY_FOR_HOURS),
            ),
            None => false,
        };
        if seen_recently {
            return CowStatus::HappilyGrazing;
        }
        CowStatus::RanAway
    }
}

/// The name of a status where cows are counted.
pub open spec fn status_label(status: CowStatus) -> Seq<char> {
    match status {
        CowStatus::HappilyGrazing => "happily_grazing"@,
        CowStatus::RanAway => "ran_away"@,
        CowStatus::HaveNotCheckedYet => "have_not_checked_yet"@,
    }
}

/// The name of the status where cows are counted.
pub fn cow_status_as_str(status: &CowStatus) -> (label: &'static str)
    ensures
        label@ == status_label(*status),
{
    match status {
        CowStatus::HappilyGrazing => "happily_grazing",
        CowStatus::RanAway => "ran_away",
        CowStatus::HaveNotCheckedYet => "have_not_checked_yet",
    }
}

/// A cow that was never checked has not been checked yet, whatever the
/// time.
pub proof fn lemma_never_checked(cow: CowView, now: DateTime)
    requires
        cow.last_checked is None,
    ensures
        status_of(cow, now) == CowStatus::HaveNotCheckedYet,
{
}

/// A cow that was never seen has run away once a check has missed it: it
/// is not grazing, whatever the time of the check and the time it is.
pub proof fn lemma_missed_and_never_seen(cow: CowView, checked: DateTime, now: DateTime)
    requires
        cow.last_seen is None,
    ensures
        status_of(cow.marked_as_missing(checked), now) == CowStatus::RanAway,
{
}

/// A cow that was never seen has run away after any checks that all
/// missed it, if there was one at least: it is never grazing.
pub proof fn lemma_only_missed(cow: CowView, checks: Seq<crate::domain::cow::Check>, now: DateTime)
    requires
        cow.last_seen is None,
        checks.len() > 0,
        forall|i: int| 0 <= i < checks.len() ==> !checks[i].found,
    ensures
        status_of(cow.checked_all(checks), now) == CowStatus::RanAway,
    decreases checks.len(),
{
    let earlier = checks.drop_last();
    assert(!checks.last().found);
    if earlier.len() > 0 {
        assert forall|i: int| 0 <= i < earlier.len() implies !earlier[i].found by {
            assert(earlier[i] == checks[i]);
        }
        lemma_only_missed(cow, earlier, now);
    }
}

/// What is shown of one cow of a herd, as plain values.
pub struct ShownCow {
    pub name: NameView,
    pub character: Character,
    pub last_seen: Option<DateTime>,
    pub status: CowStatus,
}

/// What is shown at `now` of the cow that `cow` shows.
pub open spec fn shown_at(cow: CensoredCowView, now: DateTime) -> ShownCow {
    ShownCow {
        name: cow.name,
        character: cow.character,
        last_seen: cow.last_seen,
        status: status_at(cow.last_seen, cow.last_checked, now),
    }
}

/// One cow of a herd that is shown: the name it goes by, its character,
/// when it was last seen and how it is doing.
#[derive(Debug)]
pub struct Cow {
    name: Name,
    character: Character,
    last_seen: Option<DateTime>,
    status: CowStatus,
}

impl View for Cow {
    type V = ShownCow;

    closed spec fn view(&self) -> ShownCow {
        ShownCow {
            name: self.name@,
            character: self.character,
            last_seen: self.last_seen,
            status: self.status,
        }
    }
}

impl Cow {
    /// What is shown at `now` of the cow that `cow` shows.
    pub fn new(cow: &CensoredCow, now: &DateTime) -> (shown: Cow)
        ensures
            shown@ == shown_at(cow@, *now),
    {
        Cow {
            name: cow.name().clone(),
            character: *cow.character(),
            last_seen: DateTime::copy_of(cow.last_seen()),
            status: CowStatus::new(cow, now),
        }
    }

    pub fn name(&self) -> (name: &Name)
        ensures
            name@ == self@.name,
    {
        &self.name
    }

    pub fn character(&self) -> (character: &Character)
        ensures
            *character == self@.character,
    {
        &self.character
    }

    pub fn last_seen(&self) -> (last_seen: Option<&DateTime>)
        ensures
            last_seen.is_some() == self@.last_seen.is_some(),
            last_seen matches Some(t) ==> self@.last_seen == Some(*t),
    {
        self.last_seen.as_ref()
    }

    pub fn status(&self) -> (status: &CowStatus)
        ensures
            *status == self@.status,
    {
        &self.status
    }
}

/// The cows as plain values.
pub open spec fn shown_views(cows: Seq<Cow>) -> Seq<ShownCow> {
    cows.map_values(|cow: Cow| cow@)
}

/// What is shown at `now` of each of the cows.
pub open spec fn all_shown_at(cows: Seq<CensoredCowView>, now: DateTime) -> Seq<ShownCow> {
    cows.map_values(|cow: CensoredCowView| shown_at(cow, now))
}

/// Whether the cows stand in the order in which a herd is shown.
pub open spec fn shown_in_display_order(cows: Seq<ShownCow>) -> bool {
    forall|i: int, j: int|
        0 <= i < j < cows.len() ==> crate::domain::censored_herd::name_stands_before(
            cows[i].name,
            cows[j].name,
        )
}

/// How many of the cows have the status.
pub open spec fn count_of(cows: Seq<ShownCow>, status: CowStatus) -> nat {
    cows.filter(|cow: ShownCow| cow.status == status).len()
}

/// How many cows of a herd have each status.
#[derive(Debug, Clone, Copy, PartialEq, Eq, Structural)]
pub struct HerdNumbers {
    pub happily_grazing: usize,
    pub ran_away: usize,
    pub have_not_checked_yet: usize,
}

/// How many of the cows have each status.
pub open spec fn numbers_of(cows: Seq<ShownCow>) -> HerdNumbers {
    HerdNumbers {
        happily_grazing: count_of(cows, CowStatus::HappilyGrazing) as usize,
        ran_away: count_of(cows, CowStatus::RanAway) as usize,
        have_not_checked_yet: count_of(cows, CowStatus::HaveNotCheckedYet) as usize,
    }
}

/// The numbers of a herd do not depend on the order of its cows.
pub proof fn lemma_numbers_do_not_depend_on_order(a: Seq<ShownCow>, b: Seq<ShownCow>)
    requires
        a.to_multiset() == b.to_multiset(),
    ensures
        numbers_of(a) == numbers_of(b),
{
    crate::domain::order::lemma_filter_keeps_same_count(
        a,
        b,
        |cow: ShownCow| cow.status == CowStatus::HappilyGrazing,
    );
    crate::domain::order::lemma_filter_keeps_same_count(
        a,
        b,
        |cow: ShownCow| cow.status == CowStatus::RanAway,
    );
    crate::domain::order::lemma_filter_keeps_same_count(
        a,
        b,
        |cow: ShownCow| cow.status == CowStatus::HaveNotCheckedYet,
    );
}

/// Every cow of a herd has one status: the numbers add up to the herd.
pub proof fn lemma_numbers_add_up(cows: Seq<ShownCow>)
    ensures
        count_of(cows, CowStatus::HappilyGrazing) + count_of(cows, CowStatus::RanAway) + count_of(
            cows,
            CowStatus::HaveNotCheckedYet,
        ) == cows.len(),
    decreases cows.len(),
{
    reveal(Seq::filter);
    if cows.len() > 0 {
        lemma_numbers_add_up(cows.drop_last());
    }
}

impl HerdNumbers {
    /// How many cows have the status.
    pub fn of(&self, status: &CowStatus) -> (n: usize)
        ensures
            n == match *status {
                CowStatus::HappilyGrazing => self.happily_grazing,
                CowStatus::RanAway => self.ran_away,
                CowStatus::HaveNotCheckedYet => self.have_not_checked_yet,
            },
    {
        match status {
            CowStatus::HappilyGrazing => self.happily_grazing,
            CowStatus::RanAway => self.ran_away,
            CowStatus::HaveNotCheckedYet => self.have_not_checked_yet,
        }
    }
}

/// A herd as it is shown.
#[derive(Debug)]
pub struct Herd {
    cows: Vec<Cow>,
}

impl View for Herd {
    type V = Seq<ShownCow>;

    closed spec fn view(&self) -> Seq<ShownCow> {
        shown_views(self.cows@)
    }
}

impl Herd {
    /// What is shown at `now` of the herd, cow by cow and in its order.
    pub fn new(herd: &CensoredHerd, now: &DateTime) -> (shown: Herd)
        ensures
            shown@ == all_shown_at(herd@, *now),
            shown_in_display_order(shown@),
    {
        let censored = herd.cows();
        let mut cows: Vec<Cow> = Vec::new();
        let mut i: usize = 0;
        while i < censored.len()
            invariant
                i <= censored.len(),
                censored_views(censored@) == herd@,
                shown_views(cows@) == all_shown_at(herd@, *now).take(i as int),
            decreases censored.len() - i,
        {
            let ghost done = cows@;
            let cow = Cow::new(&censored[i], now);
            cows.push(cow);
            proof {
                assert(shown_views(done.push(cow)) =~= shown_views(done).push(cow@));
            }
            i += 1;
        }
        assert(shown_in_display_order(all_shown_at(herd@, *now))) by {
            let shown = all_shown_at(herd@, *now);
            assert forall|i: int, j: int| 0 <= i < j < shown.len() implies crate::domain::censored_herd::name_stands_before(
                shown[i].name,
                shown[j].name,
            ) by {
                assert(crate::domain::censored_herd::stands_before(herd@[i], herd@[j]));
            }
        }
        Herd { cows }
    }

    /// The cows, in the order in which they are shown.
    pub fn cows(&self) -> (cows: &[Cow])
        ensures
            shown_views(cows@) == self@,
    {
        self.cows.as_slice()
    }

    /// How many cows of the herd have each status.
    pub fn numbers(&self) -> (numbers: HerdNumbers)
        ensures
            numbers == numbers_of(self@),
            numbers.happily_grazing == count_of(self@, CowStatus::HappilyGrazing),
            numbers.ran_away == count_of(self@, CowStatus::RanAway),
            numbers.have_not_checked_yet == count_of(self@, CowStatus::HaveNotCheckedYet),
    {
        let ghost grazing = |cow: ShownCow| cow.status == CowStatus::HappilyGrazing;
        let ghost away = |cow: ShownCow| cow.status == CowStatus::RanAway;
        let ghost unchecked = |cow: ShownCow| cow.status == CowStatus::HaveNotCheckedYet;
        let mut numbers = HerdNumbers { happily_grazing: 0, ran_away: 0, have_not_checked_yet: 0 };
        let mut i: usize = 0;
        proof {
            reveal(Seq::filter);
        }
        while i < self.cows.len()
            invariant
                i <= self.cows.len(),
                self@ == shown_views(self.cows@),
                grazing == |cow: ShownCow| cow.status == CowStatus::HappilyGrazing,
                away == |cow: ShownCow| cow.status == CowStatus::RanAway,
                unchecked == |cow: ShownCow| cow.status == CowStatus::HaveNotCheckedYet,
                numbers.happily_grazing == self@.take(i as int).filter(grazing).len(),
                numbers.ran_away == self@.take(i as int).filter(away).len(),
                numbers.have_not_checked_yet == self@.take(i as int).filter(unchecked).len(),
                numbers.happily_grazing + numbers.ran_away + numbers.have_not_checked_yet == i,
            decreases self.cows.len() - i,
        {
            proof {
                let cow = self@[i as int];
                assert(self@.take(i + 1) =~= self@.take(i as int).push(cow));
                self@.take(i as int).lemma_filter_push(cow, grazing);
                self@.take(i as int).lemma_filter_push(cow, away);
                self@.take(i as int).lemma_filter_push(cow, unchecked);
            }
            match self.cows[i].status() {
                CowStatus::HappilyGrazing => {
                    numbers.happily_grazing += 1;
                },
                CowStatus::RanAway => {
                    numbers.ran_away += 1;
                },
                CowStatus::HaveNotCheckedYet => {
                    numbers.have_not_checked_yet += 1;
                },
            }
            i += 1;
        }
        assert(self@.take(i as int) =~= self@);
        numbers
    }
}

/// How a call of a handler ended.
#[derive(Debug, Clone, Copy, PartialEq, Eq, Structural, Hash)]
pub enum ApplicationHandlerCallResult {
    Success,
    Error,
}

/// The name of the result where calls are counted.
pub open spec fn result_label(result: ApplicationHandlerCallResult) -> Seq<char> {
    match result {
        ApplicationHandlerCallResult::Success => "ok"@,
        ApplicationHandlerCallResult::Error => "error"@,
    }
}

impl ApplicationHandlerCallResult {
    /// The name of the result where calls are counted.
    pub fn as_str(&self) -> (label: &'static str)
        ensures
            label@ == result_label(*self),
    {
        match self {
            ApplicationHandlerCallResult::Success => "ok",
            ApplicationHandlerCallResult::Error => "error",
        }
    }

    /// `Success` for a call that succeeded, `Error` for one that failed.
    pub fn new(succeeded: bool) -> (result: ApplicationHandlerCallResult)
        ensures
            result == if succeeded {
                ApplicationHandlerCallResult::Success
            } else {
                ApplicationHandlerCallResult::Error
            },
    {
        if succeeded {
            ApplicationHandlerCallResult::Success
        } else {
            ApplicationHandlerCallResult::Error
        }
    }
}

/// The cow as plain values, if there is one.
pub open spec fn option_view(cow: Option<DomainCow>) -> Option<CowView> {
    match cow {
        Some(cow) => Some(cow@),
        None => None,
    }
}

/// The cow that `cows` hold under `key`, if any.
pub open spec fn lookup(cows: Map<Seq<char>, CowView>, key: Seq<char>) -> Option<CowView> {
    if cows.contains_key(key) {
        Some(cows[key])
    } else {
        None
    }
}

/// `cows` once `kept` is stored under `key`; unchanged where there is
/// nothing to keep.
pub open spec fn stored(
    cows: Map<Seq<char>, CowView>,
    key: Seq<char>,
    kept: Option<CowView>,
) -> Map<Seq<char>, CowView> {
    match kept {
        Some(cow) => cows.insert(key, cow),
        None => cows,
    }
}

/// What one update decides: what to keep, given what is kept.
pub type Step = spec_fn(Option<CowView>) -> Option<CowView>;

/// What is kept under a key after the updates, made one after the other,
/// each on what the one before has left: an update that returns a cow has
/// it kept, and one that returns none leaves what is kept.
pub open spec fn kept_after(found: Option<CowView>, steps: Seq<Step>) -> Option<CowView>
    decreases steps.len(),
{
    if steps.len() == 0 {
        found
    } else {
        let before = kept_after(found, steps.drop_last());
        match (steps.last())(before) {
            Some(cow) => Some(cow),
            None => before,
        }
    }
}

/// `cows` after the updates of what is kept under `key`, made one after
/// the other.
pub open spec fn updated(cows: Map<Seq<char>, CowView>, key: Seq<char>, steps: Seq<Step>) -> Map<
    Seq<char>,
    CowView,
>
    decreases steps.len(),
{
    if steps.len() == 0 {
        cows
    } else {
        let before = updated(cows, key, steps.drop_last());
        stored(before, key, (steps.last())(lookup(before, key)))
    }
}

/// Updates of one name, made one after the other, lose nothing: each works
/// on what the one before has left, and what is kept in the end is what
/// the last of them that returned a cow returned. What is kept under other
/// names stays as it is.
pub proof fn lemma_updates_are_applied_in_turn(
    cows: Map<Seq<char>, CowView>,
    key: Seq<char>,
    steps: Seq<Step>,
)
    ensures
        lookup(updated(cows, key, steps), key) == kept_after(lookup(cows, key), steps),
        forall|other: Seq<char>|
            other != key ==> #[trigger] lookup(updated(cows, key, steps), other) == lookup(
                cows,
                other,
            ),
    decreases steps.len(),
{
    if steps.len() > 0 {
        let earlier = steps.drop_last();
        lemma_updates_are_applied_in_turn(cows, key, earlier);
        assert forall|other: Seq<char>| other != key implies #[trigger] lookup(
            updated(cows, key, steps),
            other,
        ) == lookup(cows, other) by {
            assert(lookup(updated(cows, key, earlier), other) == lookup(cows, other));
        }
    }
}

/// Where the cows are kept, each under the canonical text of the name it
/// is asked for by.
pub trait Inventory {
    /// The cows that the inventory holds. An inventory that does not say
    /// what they are leaves them unknown.
    open spec fn cows(&self) -> Map<Seq<char>, CowView> {
        vstd::pervasive::arbitrary()
    }

    /// Whether the inventory may fail of its own. An inventory that does
    /// not say so may.
    open spec fn may_fail(&self) -> bool {
        true
    }

    /// The cow kept under `name`, if any. An implementation fails with
    /// `Error::Inventory` only, and only if it may fail.
    fn get(&self, name: &VisibleName) -> (res: Result<Option<DomainCow>, Error>)
        ensures
            match res {
                Ok(found) => option_view(found) == lookup(self.cows(), name@.url),
                Err(e) => e is Inventory && self.may_fail(),
            },
    ;

    /// Reads the cow kept under `name`, hands it to `f` and keeps what `f`
    /// returns, all in one step that no other update of that name can come
    /// between. Nothing changes where `f` returns no cow, or fails, or where
    /// the inventory itself fails, which it does with `Error::Inventory`,
    /// and only if it may fail.
    fn update<F>(&mut self, name: &VisibleName, f: F) -> (res: Result<(), Error>) where
        F: FnOnce(Option<DomainCow>) -> Result<Option<DomainCow>, Error>,

        requires
            forall|found: Option<DomainCow>|
                option_view(found) == lookup(old(self).cows(), name@.url) ==> call_requires(
                    f,
                    (found,),
                ),
        ensures
            final(self).may_fail() == old(self).may_fail(),
            match res {
                Ok(()) => exists|found: Option<DomainCow>, kept: Option<DomainCow>|
                    {
                        &&& option_view(found) == lookup(old(self).cows(), name@.url)
                        &&& #[trigger] call_ensures(
                            f,
                            (found,),
                            Ok::<Option<DomainCow>, Error>(kept),
                        )
                        &&& final(self).cows() == stored(
                            old(self).cows(),
                            name@.url,
                            option_view(kept),
                        )
                    },
                Err(e) => {
                    &&& final(self).cows() == old(self).cows()
                    &&& (e is Inventory && old(self).may_fail()) || exists|found: Option<DomainCow>|
                        {
                            &&& option_view(found) == lookup(old(self).cows(), name@.url)
                            &&& #[trigger] call_ensures(
                                f,
                                (found,),
                                Err::<Option<DomainCow>, Error>(e),
                            )
                        }
                },
            },
    ;
}

/// Where a cow's text is fetched from.
pub trait CowTxtDownloader {
    /// The text found under `name`. An implementation fails with
    /// `Error::Download` only.
    fn download(&mut self, name: &VisibleName) -> (res: Result<String, Error>)
        ensures
            res matches Err(e) ==> e is Download,
    ;
}

/// Where the cows of the herd are counted.
pub trait Metrics {
    /// The numbers that the metrics hold. Metrics that do not say what they
    /// hold leave them unknown.
    open spec fn herd_numbers(&self) -> HerdNumbers {
        vstd::pervasive::arbitrary()
    }

    /// Takes note of how many cows of `herd` have each status.
    fn update_herd_numbers(&mut self, herd: &Herd)
        ensures
            final(self).herd_numbers() == numbers_of(herd@),
    ;
}

} // verus!
