//! The records in which cows are kept, and how cows are made of them.

use crate::domain::cow::{character_named, character_text, parse_character, Character, Cow, CowView};
use crate::domain::name::{name_of, VisibleName};
use crate::domain::time::{formatted_timestamp, parsed_timestamp, DateTime};
use crate::errors::Error;
use vstd::prelude::*;

verus! {

/// The format in which points in time are kept.
pub const DT_FORMAT: &'static str = "%Y-%m-%d %H:%M:%S %z";

/// A record of the shape in which cows were kept before they had a
/// character.
#[derive(Debug, Clone, PartialEq, Eq)]
pub struct OldPersistedCow {
    pub cow: String,
    pub first_seen: Option<String>,
    pub last_seen: Option<String>,
    pub last_checked: Option<String>,
}

/// The record in which a cow is kept.
#[derive(Debug, Clone, PartialEq, Eq)]
pub struct PersistedCow {
    pub name: String,
    pub character: String,
    pub first_seen: Option<String>,
    pub last_seen: Option<String>,
    pub last_checked: Option<String>,
}

/// A record as plain values.
pub struct PersistedCowView {
    pub name: Seq<char>,
    pub character: Seq<char>,
    pub first_seen: Option<Seq<char>>,
    pub last_seen: Option<Seq<char>>,
    pub last_checked: Option<Seq<char>>,
}

/// The text as plain values, if there is one.
pub open spec fn text_of(text: Option<String>) -> Option<Seq<char>> {
    match text {
        Some(text) => Some(text@),
        None => None,
    }
}

impl View for PersistedCow {
    type V = PersistedCowView;

    open spec fn view(&self) -> PersistedCowView {
        PersistedCowView {
            name: self.name@,
            character: self.character@,
            first_seen: text_of(self.first_seen),
            last_seen: text_of(self.last_seen),
            last_checked: text_of(self.last_checked),
        }
    }
}

impl View for OldPersistedCow {
    type V = PersistedCowView;

    /// An old record read as a record of today: the cows of old were all
    /// shy.
    open spec fn view(&self) -> PersistedCowView {
        PersistedCowView {
            name: self.cow@,
            character: character_text(Character::Shy),
            first_seen: text_of(self.first_seen),
            last_seen: text_of(self.last_seen),
            last_checked: text_of(self.last_checked),
        }
    }
}

/// The text under which a point in time is kept.
pub open spec fn time_kept(time: Option<DateTime>) -> Result<Option<Seq<char>>, Error> {
    match time {
        None => Ok(None),
        Some(time) => match formatted_timestamp(time.timestamp, DT_FORMAT@) {
            Some(text) => Ok(Some(text)),
            None => Err(Error::CannotFormatDateTime),
        },
    }
}

/// The point in time that is kept under a text.
pub open spec fn time_read(text: Option<Seq<char>>) -> Result<Option<DateTime>, Error> {
    match text {
        None => Ok(None),
        Some(text) => match parsed_timestamp(text, DT_FORMAT@) {
            Some(timestamp) => Ok(Some(DateTime { timestamp })),
            None => Err(Error::InvalidDateTime),
        },
    }
}

/// The record in which a cow is kept, or the reason why it cannot be kept.
pub open spec fn record_of(cow: CowView) -> Result<PersistedCowView, Error> {
    match time_kept(cow.first_seen) {
        Err(e) => Err(e),
        Ok(first_seen) => match time_kept(cow.last_seen) {
            Err(e) => Err(e),
            Ok(last_seen) => match time_kept(cow.last_checked) {
                Err(e) => Err(e),
                Ok(last_checked) => Ok(
                    PersistedCowView {
                        name: cow.name.url,
                        character: character_text(cow.character),
                        first_seen,
                        last_seen,
                        last_checked,
                    },
                ),
            },
        },
    }
}

/// The cow that a record keeps, or the first reason why it keeps none: its
/// name, its character or one of its points in time cannot be read.
pub open spec fn cow_of(record: PersistedCowView) -> Result<CowView, Error> {
    match name_of(record.name) {
        Err(e) => Err(e),
        Ok(name) => match character_named(record.character) {
            None => Err(Error::InvalidCharacter),
            Some(character) => match time_read(record.first_seen) {
                Err(e) => Err(e),
                Ok(first_seen) => match time_read(record.last_seen) {
                    Err(e) => Err(e),
                    Ok(last_seen) => match time_read(record.last_checked) {
                        Err(e) => Err(e),
                        Ok(last_checked) => Ok(
                            CowView { name, character, first_seen, last_seen, last_checked },
                        ),
                    },
                },
            },
        },
    }
}

/// The text under which the point in time is kept.
pub fn keep_time(time: Option<&DateTime>) -> (res: Result<Option<String>, Error>)
    ensures
        match res {
            Ok(text) => time_kept(
                match time {
                    Some(t) => Some(*t),
                    None => None,
                },
            ) == Ok::<Option<Seq<char>>, Error>(text_of(text)),
            Err(e) => time_kept(
                match time {
                    Some(t) => Some(*t),
                    None => None,
                },
            ) == Err::<Option<Seq<char>>, Error>(e),
        },
{
    match time {
        None => Ok(None),
        Some(time) => match time.format(DT_FORMAT) {
            Ok(text) => Ok(Some(text)),
            Err(e) => Err(e),
        },
    }
}

/// The point in time that is kept under the text.
pub fn read_time(text: &Option<String>) -> (res: Result<Option<DateTime>, Error>)
    ensures
        match res {
            Ok(time) => time_read(text_of(*text)) == Ok::<Option<DateTime>, Error>(time),
            Err(e) => time_read(text_of(*text)) == Err::<Option<DateTime>, Error>(e),
        },
{
    match text {
        None => Ok(None),
        Some(text) => match DateTime::new_from_str(text.as_str(), DT_FORMAT) {
            Ok(time) => Ok(Some(time)),
            Err(e) => Err(e),
        },
    }
}

impl PersistedCow {
    /// The record in which `cow` is kept. The character in the record is
    /// read again as the character of `cow`, and the name as its name where
    /// the parser reads the canonical text of the name as the URL that it
    /// stands for.
    pub fn from_cow(cow: &Cow) -> (res: Result<PersistedCow, Error>)
        ensures
            match res {
                Ok(record) => record_of(cow@) == Ok::<PersistedCowView, Error>(record@),
                Err(e) => record_of(cow@) == Err::<PersistedCowView, Error>(e),
            },
            res matches Ok(record) ==> character_named(record@.character) == Some(
                cow@.character,
            ),
            res matches Ok(record) ==> (crate::domain::name::parses_to_itself(cow@.name)
                ==> name_of(record@.name) == Ok::<crate::domain::name::UrlRecord, Error>(
                cow@.name,
            )),
    {
        proof {
            crate::domain::cow::lemma_character_text_names_it(cow@.character);
        }
        let first_seen = match keep_time(cow.first_seen()) {
            Ok(text) => text,
            Err(e) => {
                return Err(e);
            },
        };
        let last_seen = match keep_time(cow.last_seen()) {
            Ok(text) => text,
            Err(e) => {
                return Err(e);
            },
        };
        let last_checked = match keep_time(cow.last_checked()) {
            Ok(text) => text,
            Err(e) => {
                return Err(e);
            },
        };
        Ok(
            PersistedCow {
                name: cow.name().url().to_owned(),
                character: cow.character().as_str().to_owned(),
                first_seen,
                last_seen,
                last_checked,
            },
        )
    }

    /// The cow that the record keeps.
    pub fn into_cow(self) -> (res: Result<Cow, Error>)
        ensures
            match res {
                Ok(cow) => cow_of(self@) == Ok::<CowView, Error>(cow@),
                Err(e) => cow_of(self@) == Err::<CowView, Error>(e),
            },
    {
        let name = match VisibleName::new(self.name.as_str()) {
            Ok(name) => name,
            Err(e) => {
                return Err(e);
            },
        };
        let character = match parse_character(self.character.as_str()) {
            Ok(character) => character,
            Err(e) => {
                return Err(e);
            },
        };
        let first_seen = match read_time(&self.first_seen) {
            Ok(time) => time,
            Err(e) => {
                return Err(e);
            },
        };
        let last_seen = match read_time(&self.last_seen) {
            Ok(time) => time,
            Err(e) => {
                return Err(e);
            },
        };
        let last_checked = match read_time(&self.last_checked) {
            Ok(time) => time,
            Err(e) => {
                return Err(e);
            },
        };
        Ok(Cow::new_from_history(name, character, first_seen, last_seen, last_checked))
    }
}

/// The record of today that keeps what the old record kept: the same cow,
/// shy, with the same history.
pub fn migrate(old: OldPersistedCow) -> (new: PersistedCow)
    ensures
        new@ == old@,
{
    PersistedCow {
        name: old.cow,
        character: Character::Shy.as_str().to_owned(),
        first_seen: old.first_seen,
        last_seen: old.last_seen,
        last_checked: old.last_checked,
    }
}

} // verus!
