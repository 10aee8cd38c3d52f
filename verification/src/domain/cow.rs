//! A cow and the history of the checks made on it.

use crate::domain::name::{UrlRecord, VisibleName};
use crate::domain::time::{DateTime, Duration};
use crate::errors::Error;
use vstd::prelude::*;

verus! {

/// A cow that was seen at least once is checked again after this many hours.
pub const CHECK_COW_IF_NOT_CHECKED_FOR_HOURS: u64 = 2;

/// A cow that was never seen is checked again after this many minutes.
pub const CHECK_COW_WHICH_WAS_NEVER_SEEN_IF_NOT_CHECKED_FOR_MINUTES: u64 = 15;

/// Whether a cow lets its name be shown.
#[derive(Debug, Clone, Copy, PartialEq, Eq, Structural, Hash)]
pub enum Character {
    /// The name may be shown as it is.
    Brave,
    /// The name is censored wherever it is shown.
    Shy,
}

/// The name of a character, as it is written in configuration and in
/// what is kept.
pub open spec fn character_text(character: Character) -> Seq<char> {
    match character {
        Character::Brave => "brave"@,
        Character::Shy => "shy"@,
    }
}

/// The character that `text` names.
pub open spec fn character_named(text: Seq<char>) -> Option<Character> {
    if text == "brave"@ {
        Some(Character::Brave)
    } else if text == "shy"@ {
        Some(Character::Shy)
    } else {
        None
    }
}

/// Each character is the one that its own name names.
pub proof fn lemma_character_text_names_it(character: Character)
    ensures
        character_named(character_text(character)) == Some(character),
{
    reveal_strlit("brave");
    reveal_strlit("shy");
    assert("brave"@.len() != "shy"@.len());
}

/// The character that `value` names: `brave` or `shy`.
pub fn parse_character(value: &str) -> (res: Result<Character, Error>)
    ensures
        match res {
            Ok(character) => character_named(value@) == Some(character),
            Err(e) => character_named(value@) is None && e == Error::InvalidCharacter,
        },
{
    if crate::text::str_eq(value, "brave") {
        Ok(Character::Brave)
    } else if crate::text::str_eq(value, "shy") {
        Ok(Character::Shy)
    } else {
        Err(Error::InvalidCharacter)
    }
}

impl Character {
    /// The name of the character.
    pub fn as_str(&self) -> (text: &'static str)
        ensures
            text@ == character_text(*self),
    {
        match self {
            Character::Brave => "brave",
            Character::Shy => "shy",
        }
    }
}

/// What a cow is, as plain values.
pub struct CowView {
    pub name: UrlRecord,
    pub character: Character,
    pub first_seen: Option<DateTime>,
    pub last_seen: Option<DateTime>,
    pub last_checked: Option<DateTime>,
}

impl CowView {
    /// The time that must have passed since the last check before the next.
    pub open spec fn backoff_seconds(self) -> int {
        if self.first_seen is None {
            CHECK_COW_WHICH_WAS_NEVER_SEEN_IF_NOT_CHECKED_FOR_MINUTES * 60
        } else {
            CHECK_COW_IF_NOT_CHECKED_FOR_HOURS * 3600
        }
    }

    /// Whether the cow is due for a check at `now`.
    pub open spec fn should_check(self, now: DateTime) -> bool {
        match self.last_checked {
            None => true,
            Some(last_checked) => now.spec_since(last_checked) > self.backoff_seconds(),
        }
    }

    /// The cow after a check at `now` that found it.
    pub open spec fn marked_as_ok(self, now: DateTime) -> CowView {
        CowView {
            first_seen: if self.first_seen is None {
                Some(now)
            } else {
                self.first_seen
            },
            last_seen: Some(now),
            last_checked: Some(now),
            ..self
        }
    }

    /// The cow after a check at `now` that did not find it.
    pub open spec fn marked_as_missing(self, now: DateTime) -> CowView {
        CowView { last_checked: Some(now), ..self }
    }

    /// The history is one that checks in the order of time leave behind:
    /// a cow seen was first seen no later, and checked no earlier.
    pub open spec fn consistent(self) -> bool {
        &&& self.first_seen is Some <==> self.last_seen is Some
        &&& self.last_seen is Some ==> self.last_checked is Some
        &&& self.first_seen is Some ==> self.first_seen->0.timestamp
            <= self.last_seen->0.timestamp
        &&& self.last_seen is Some ==> self.last_seen->0.timestamp
            <= self.last_checked->0.timestamp
    }

    /// No check on record is later than `now`.
    pub open spec fn not_after(self, now: DateTime) -> bool {
        &&& self.first_seen matches Some(t) ==> t.timestamp <= now.timestamp
        &&& self.last_seen matches Some(t) ==> t.timestamp <= now.timestamp
        &&& self.last_checked matches Some(t) ==> t.timestamp <= now.timestamp
    }
}

/// One check on a cow: when it was made and whether it found the cow.
pub struct Check {
    pub at: DateTime,
    pub found: bool,
}

impl CowView {
    /// The cow after the check.
    pub open spec fn checked(self, check: Check) -> CowView {
        if check.found {
            self.marked_as_ok(check.at)
        } else {
            self.marked_as_missing(check.at)
        }
    }

    /// The cow after the checks, made one after the other.
    pub open spec fn checked_all(self, checks: Seq<Check>) -> CowView
        decreases checks.len(),
    {
        if checks.len() == 0 {
            self
        } else {
            self.checked_all(checks.drop_last()).checked(checks.last())
        }
    }
}

/// Once a cow was seen, no check changes when it was first seen, whatever
/// the checks find and whenever they are made.
pub proof fn lemma_first_seen_is_set_once(cow: CowView, checks: Seq<Check>)
    requires
        cow.first_seen is Some,
    ensures
        cow.checked_all(checks).first_seen == cow.first_seen,
    decreases checks.len(),
{
    if checks.len() > 0 {
        lemma_first_seen_is_set_once(cow, checks.drop_last());
    }
}

/// Checks never take away what is on record: a cow that was seen stays
/// seen, and a cow that was checked stays checked.
pub proof fn lemma_checks_keep_the_record(cow: CowView, checks: Seq<Check>)
    ensures
        cow.first_seen is Some ==> cow.checked_all(checks).first_seen is Some,
        cow.last_seen is Some ==> cow.checked_all(checks).last_seen is Some,
        cow.last_checked is Some ==> cow.checked_all(checks).last_checked is Some,
        cow.checked_all(checks).name == cow.name,
        cow.checked_all(checks).character == cow.character,
    decreases checks.len(),
{
    if checks.len() > 0 {
        lemma_checks_keep_the_record(cow, checks.drop_last());
    }
}

/// Whether the checks are made in the order of time.
pub open spec fn in_order_of_time(checks: Seq<Check>) -> bool {
    forall|i: int, j: int|
        0 <= i < j < checks.len() ==> checks[i].at.timestamp <= checks[j].at.timestamp
}

/// A consistent history stays consistent under checks made in the order
/// of time, none of them before what is on record.
pub proof fn lemma_checks_in_order_keep_consistency(cow: CowView, checks: Seq<Check>)
    requires
        cow.consistent(),
        in_order_of_time(checks),
        checks.len() > 0 ==> cow.not_after(checks[0].at),
    ensures
        cow.checked_all(checks).consistent(),
        checks.len() > 0 ==> cow.checked_all(checks).not_after(checks.last().at),
    decreases checks.len(),
{
    if checks.len() > 0 {
        let earlier = checks.drop_last();
        assert(in_order_of_time(earlier)) by {
            assert forall|i: int, j: int| 0 <= i < j < earlier.len() implies earlier[i].at.timestamp
                <= earlier[j].at.timestamp by {
                assert(earlier[i] == checks[i] && earlier[j] == checks[j]);
            }
        }
        if earlier.len() > 0 {
            assert(earlier[0] == checks[0]);
        }
        lemma_checks_in_order_keep_consistency(cow, earlier);
    }
}

/// A cow: its name, its character and when it was first seen, last seen and
/// last checked.
#[derive(Debug, PartialEq, Eq)]
pub struct Cow {
    name: VisibleName,
    character: Character,
    first_seen: Option<DateTime>,
    last_seen: Option<DateTime>,
    last_checked: Option<DateTime>,
}

impl View for Cow {
    type V = CowView;

    closed spec fn view(&self) -> CowView {
        CowView {
            name: self.name@,
            character: self.character,
            first_seen: self.first_seen,
            last_seen: self.last_seen,
            last_checked: self.last_checked,
        }
    }
}

impl Clone for Cow {
    fn clone(&self) -> (res: Self)
        ensures
            res@ == self@,
    {
        Cow {
            name: self.name.clone(),
            character: self.character,
            first_seen: self.first_seen,
            last_seen: self.last_seen,
            last_checked: self.last_checked,
        }
    }
}

impl Cow {
    /// A cow that was never checked.
    pub fn new(name: VisibleName, character: Character) -> (cow: Cow)
        ensures
            cow@ == (CowView {
                name: name@,
                character,
                first_seen: None,
                last_seen: None,
                last_checked: None,
            }),
    {
        Cow { name, character, first_seen: None, last_seen: None, last_checked: None }
    }

    /// A cow with the history given.
    pub fn new_from_history(
        name: VisibleName,
        character: Character,
        first_seen: Option<DateTime>,
        last_seen: Option<DateTime>,
        last_checked: Option<DateTime>,
    ) -> (cow: Cow)
        ensures
            cow@ == (CowView { name: name@, character, first_seen, last_seen, last_checked }),
    {
        Cow { name, character, first_seen, last_seen, last_checked }
    }

    /// Whether the cow is due for a check at `now`: it was never checked, or
    /// more than the backoff has passed since the last check.
    pub fn should_check(&self, now: &DateTime) -> (due: bool)
        ensures
            due == self@.should_check(*now),
    {
        match &self.last_checked {
            Some(last_checked) => {
                let duration = if self.first_seen.is_none() {
                    Duration::new_from_minutes(
                        CHECK_COW_WHICH_WAS_NEVER_SEEN_IF_NOT_CHECKED_FOR_MINUTES,
                    )
                } else {
                    Duration::new_from_hours(CHECK_COW_IF_NOT_CHECKED_FOR_HOURS)
                };
                now.since(last_checked).is_longer_than(&duration)
            },
            None => true,
        }
    }

    /// Records a check at `now` that found the cow.
    pub fn mark_as_ok(&mut self, now: &DateTime)
        ensures
            final(self)@ == old(self)@.marked_as_ok(*now),
            old(self)@.first_seen is Some ==> final(self)@.first_seen == old(self)@.first_seen,
            old(self)@.consistent() && old(self)@.not_after(*now) ==> final(self)@.consistent()
                && final(self)@.not_after(*now),
    {
        if self.first_seen.is_none() {
            self.first_seen = Some(*now);
        }
        self.last_seen = Some(*now);
        self.last_checked = Some(*now);
    }

    /// Records a check at `now` that did not find the cow.
    pub fn mark_as_missing(&mut self, now: &DateTime)
        ensures
            final(self)@ == old(self)@.marked_as_missing(*now),
            final(self)@.first_seen == old(self)@.first_seen,
            final(self)@.last_seen == old(self)@.last_seen,
            old(self)@.consistent() && old(self)@.not_after(*now) ==> final(self)@.consistent()
                && final(self)@.not_after(*now),
    {
        self.last_checked = Some(*now);
    }

    /// Gives the cow another character; refused when it has that character
    /// already.
    pub fn change_character(&mut self, new_character: Character) -> (res: Result<(), Error>)
        ensures
            match res {
                Ok(()) => old(self)@.character != new_character && final(self)@ == (CowView {
                    character: new_character,
                    ..old(self)@
                }),
                Err(e) => old(self)@.character == new_character && e
                    == Error::CharacterAlreadySet && final(self)@ == old(self)@,
            },
    {
        if self.character == new_character {
            return Err(Error::CharacterAlreadySet);
        }
        self.character = new_character;
        Ok(())
    }

    pub fn name(&self) -> (name: &VisibleName)
        ensures
            name@ == self@.name,
    {
        &self.name
    }

    pub fn character(&self) -> (character: &Character)
        ensures
            *character == self@.character,
    {
        &self.character
    }

    pub fn first_seen(&self) -> (first_seen: Option<&DateTime>)
        ensures
            first_seen.is_some() == self@.first_seen.is_some(),
            first_seen matches Some(t) ==> self@.first_seen == Some(*t),
    {
        self.first_seen.as_ref()
    }

    pub fn last_seen(&self) -> (last_seen: Option<&DateTime>)
        ensures
            last_seen.is_some() == self@.last_seen.is_some(),
            last_seen matches Some(t) ==> self@.last_seen == Some(*t),
    {
        self.last_seen.as_ref()
    }

    pub fn last_checked(&self) -> (last_checked: Option<&DateTime>)
        ensures
            last_checked.is_some() == self@.last_checked.is_some(),
            last_checked matches Some(t) ==> self@.last_checked == Some(*t),
    {
        self.last_checked.as_ref()
    }

    /// The canonical text of the cow's name.
    pub fn to_string(&self) -> (s: String)
        ensures
            s@ == self@.name.url,
    {
        self.name.url().to_owned()
    }
}

} // verus!
