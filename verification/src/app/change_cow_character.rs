//! Giving a cow another character.

use crate::app::{lookup, option_view, Inventory, Metrics};
use crate::domain::cow::{Character, Cow, CowView};
use crate::domain::name::{UrlRecord, VisibleName};
use crate::errors::Error;
use vstd::prelude::*;

verus! {

/// The order as plain values.
pub struct ChangeCowCharacterView {
    pub name: UrlRecord,
    pub character: Character,
}

/// The order to give the cow of a name another character.
#[derive(Debug)]
pub struct ChangeCowCharacter {
    name: VisibleName,
    character: Character,
}

impl View for ChangeCowCharacter {
    type V = ChangeCowCharacterView;

    closed spec fn view(&self) -> ChangeCowCharacterView {
        ChangeCowCharacterView { name: self.name@, character: self.character }
    }
}

impl ChangeCowCharacter {
    pub fn new(name: VisibleName, character: Character) -> (v: ChangeCowCharacter)
        ensures
            v@ == (ChangeCowCharacterView { name: name@, character }),
    {
        ChangeCowCharacter { name, character }
    }

    pub fn name(&self) -> (name: &VisibleName)
        ensures
            name@ == self@.name,
    {
        &self.name
    }

    pub fn character(&self) -> (character: &Character)
        ensures
            *character == self@.character,
    {
        &self.character
    }
}

/// What becomes of the cow that is kept when it is to take `character`:
/// there must be a cow, and it must not have that character already.
pub open spec fn character_changed(found: Option<CowView>, character: Character) -> Result<
    Option<CowView>,
    Error,
> {
    match found {
        None => Err(Error::CowDoesNotExist),
        Some(cow) => if cow.character == character {
            Err(Error::CharacterAlreadySet)
        } else {
            Ok(Some(CowView { character, ..cow }))
        },
    }
}

/// What is to be kept in place of `found` when the cow is to take
/// `character`.
pub fn change_character(found: Option<Cow>, character: Character) -> (res: Result<
    Option<Cow>,
    Error,
>)
    ensures
        match res {
            Ok(kept) => character_changed(option_view(found), character) == Ok::<
                Option<CowView>,
                Error,
            >(option_view(kept)),
            Err(e) => character_changed(option_view(found), character) == Err::<
                Option<CowView>,
                Error,
            >(e),
        },
{
    match found {
        Some(cow) => {
            let mut cow = cow;
            match cow.change_character(character) {
                Ok(()) => Ok(Some(cow)),
                Err(e) => Err(e),
            }
        },
        None => Err(Error::CowDoesNotExist),
    }
}

/// Gives cows other characters.
pub struct ChangeCowCharacterHandler<I, M> {
    inventory: I,
    metrics: M,
}

impl<I, M> ChangeCowCharacterHandler<I, M> where I: Inventory, M: Metrics {
    pub fn new(inventory: I, metrics: M) -> (handler: Self)
        ensures
            handler.cows() == inventory.cows(),
            handler.inventory_may_fail() == inventory.may_fail(),
            handler.numbers() == metrics.herd_numbers(),
    {
        Self { inventory, metrics }
    }

    /// The cows in the handler's inventory.
    pub closed spec fn cows(&self) -> Map<Seq<char>, CowView> {
        self.inventory.cows()
    }

    /// Whether the handler's inventory may fail of its own.
    pub closed spec fn inventory_may_fail(&self) -> bool {
        self.inventory.may_fail()
    }

    pub fn inventory(&self) -> (inventory: &I)
        ensures
            inventory.cows() == self.cows(),
            inventory.may_fail() == self.inventory_may_fail(),
    {
        &self.inventory
    }

    /// The numbers that the handler's metrics hold.
    pub closed spec fn numbers(&self) -> crate::app::HerdNumbers {
        self.metrics.herd_numbers()
    }

    pub fn metrics(&self) -> (metrics: &M)
        ensures
            metrics.herd_numbers() == self.numbers(),
    {
        &self.metrics
    }

    /// Gives the cow another character, in one update of the inventory.
    /// Refused when the inventory has no cow of that name, or when the cow
    /// has the character already; then, and when the inventory fails,
    /// nothing changes.
    pub fn change_cow_character(&mut self, v: &ChangeCowCharacter) -> (res: Result<(), Error>)
        ensures
            final(self).numbers() == old(self).numbers(),
            final(self).inventory_may_fail() == old(self).inventory_may_fail(),
            match res {
                Ok(()) => character_changed(
                    lookup(old(self).cows(), v@.name.url),
                    v@.character,
                ) matches Ok(Some(cow)) && final(self).cows() == old(self).cows().insert(
                    v@.name.url,
                    cow,
                ),
                Err(e) => final(self).cows() == old(self).cows() && ((e is Inventory && old(
                    self,
                ).inventory_may_fail())
                    || character_changed(lookup(old(self).cows(), v@.name.url), v@.character)
                    == Err::<Option<CowView>, Error>(e)),
            },
    {
        let character = *v.character();
        let f = |found: Option<Cow>| -> (res: Result<Option<Cow>, Error>)
            ensures
                match res {
                    Ok(kept) => character_changed(option_view(found), character) == Ok::<
                        Option<CowView>,
                        Error,
                    >(option_view(kept)),
                    Err(e) => character_changed(option_view(found), character) == Err::<
                        Option<CowView>,
                        Error,
                    >(e),
                },
            { change_character(found, character) };
        self.inventory.update(v.name(), f)
    }
}

} // verus!
