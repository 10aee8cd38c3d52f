//! Taking a cow into the inventory.

use crate::app::{lookup, option_view, CowTxtDownloader, Inventory, Metrics};
use crate::domain::cow::{Character, Cow, CowView};
use crate::domain::cow_txt::CowTxt;
use crate::domain::name::{UrlRecord, VisibleName};
use crate::errors::Error;
use vstd::prelude::*;

verus! {

/// The order as plain values.
pub struct AddCowView {
    pub name: UrlRecord,
    pub character: Character,
}

/// The order to take in a cow of the name and the character given.
#[derive(Debug)]
pub struct AddCow {
    name: VisibleName,
    character: Character,
}

impl View for AddCow {
    type V = AddCowView;

    closed spec fn view(&self) -> AddCowView {
        AddCowView { name: self.name@, character: self.character }
    }
}

impl AddCow {
    pub fn new(name: VisibleName, character: Character) -> (v: AddCow)
        ensures
            v@ == (AddCowView { name: name@, character }),
    {
        AddCow { name, character }
    }

    pub fn name(&self) -> (name: &VisibleName)
        ensures
            name@ == self@.name,
    {
        &self.name
    }

    pub fn character(&self) -> (character: &Character)
        ensures
            *character == self@.character,
    {
        &self.character
    }
}

/// A cow of the name and the character given, never checked.
pub open spec fn new_cow(name: UrlRecord, character: Character) -> CowView {
    CowView { name, character, first_seen: None, last_seen: None, last_checked: None }
}

/// What is kept when a cow is taken in: the new cow, unless one is kept
/// under that name already.
pub open spec fn cow_added(found: Option<CowView>, name: UrlRecord, character: Character) -> Result<
    Option<CowView>,
    Error,
> {
    match found {
        Some(_) => Err(Error::DuplicateCow),
        None => Ok(Some(new_cow(name, character))),
    }
}

/// What is to be kept in place of `found` when a cow of the name and the
/// character given is taken in.
pub fn take_in(found: Option<Cow>, name: &VisibleName, character: Character) -> (res: Result<
    Option<Cow>,
    Error,
>)
    ensures
        match res {
            Ok(kept) => cow_added(option_view(found), name@, character) == Ok::<
                Option<CowView>,
                Error,
            >(option_view(kept)),
            Err(e) => cow_added(option_view(found), name@, character) == Err::<
                Option<CowView>,
                Error,
            >(e),
        },
{
    if found.is_some() {
        return Err(Error::DuplicateCow);
    }
    Ok(Some(Cow::new(name.clone(), character)))
}

/// Takes the cow of the order into the inventory if the download shows a
/// cow. A download that failed fails the order as it failed itself, and a
/// text that is no cow fails it with the text in `Error::CowIsNotPresent`.
/// A cow is taken in by one update of the inventory: never checked, and
/// refused with `Error::DuplicateCow` if the inventory keeps a cow of that
/// name already. Nothing changes where the order fails.
pub fn take_in_downloaded<I: Inventory>(
    inventory: &mut I,
    v: &AddCow,
    downloaded: Result<String, Error>,
    cow_body: &str,
) -> (res: Result<(), Error>)
    ensures
        final(inventory).may_fail() == old(inventory).may_fail(),
        res is Err ==> final(inventory).cows() == old(inventory).cows(),
        match downloaded {
            Err(e) => res == Err::<(), Error>(e),
            Ok(body) => if !crate::domain::cow_txt::cow_is_present(body@, cow_body@) {
                res == Err::<(), Error>(Error::CowIsNotPresent(body))
            } else {
                match res {
                    Ok(()) => {
                        &&& lookup(old(inventory).cows(), v@.name.url) is None
                        &&& final(inventory).cows() == old(inventory).cows().insert(
                            v@.name.url,
                            new_cow(v@.name, v@.character),
                        )
                    },
                    Err(e) => (e is Inventory && old(inventory).may_fail()) || (e
                        == Error::DuplicateCow && lookup(old(inventory).cows(), v@.name.url)
                        is Some),
                }
            },
        },
{
    let body = match downloaded {
        Ok(body) => body,
        Err(e) => {
            return Err(e);
        },
    };
    match CowTxt::new(body, cow_body) {
        Ok(_) => {},
        Err(e) => {
            return Err(e);
        },
    }
    let name = v.name();
    let character = *v.character();
    let f = |found: Option<Cow>| -> (res: Result<Option<Cow>, Error>)
        ensures
            match res {
                Ok(kept) => cow_added(option_view(found), name@, character) == Ok::<
                    Option<CowView>,
                    Error,
                >(option_view(kept)),
                Err(e) => cow_added(option_view(found), name@, character) == Err::<
                    Option<CowView>,
                    Error,
                >(e),
            },
        { take_in(found, name, character) };
    inventory.update(v.name(), f)
}

/// Takes cows into the inventory.
pub struct AddCowHandler<I, D, M> {
    inventory: I,
    downloader: D,
    metrics: M,
    cow_body: String,
}

impl<I, D, M> AddCowHandler<I, D, M> where I: Inventory, D: CowTxtDownloader, M: Metrics {
    /// A handler that takes for a cow what is close enough to `cow_body`.
    pub fn new(inventory: I, downloader: D, metrics: M, cow_body: String) -> (handler: Self)
        ensures
            handler.cows() == inventory.cows(),
            handler.inventory_may_fail() == inventory.may_fail(),
            handler.numbers() == metrics.herd_numbers(),
            handler.cow_body() == cow_body@,
    {
        Self { inventory, downloader, metrics, cow_body }
    }

    /// The cows in the handler's inventory.
    pub closed spec fn cows(&self) -> Map<Seq<char>, CowView> {
        self.inventory.cows()
    }

    /// Whether the handler's inventory may fail of its own.
    pub closed spec fn inventory_may_fail(&self) -> bool {
        self.inventory.may_fail()
    }

    /// The text that the handler expects of a cow.
    pub closed spec fn cow_body(&self) -> Seq<char> {
        self.cow_body@
    }

    pub fn inventory(&self) -> (inventory: &I)
        ensures
            inventory.cows() == self.cows(),
            inventory.may_fail() == self.inventory_may_fail(),
    {
        &self.inventory
    }

    /// The numbers that the handler's metrics hold.
    pub closed spec fn numbers(&self) -> crate::app::HerdNumbers {
        self.metrics.herd_numbers()
    }

    pub fn metrics(&self) -> (metrics: &M)
        ensures
            metrics.herd_numbers() == self.numbers(),
    {
        &self.metrics
    }

    /// Takes the cow in, never checked, if its text can be downloaded and
    /// is a cow, and if the inventory has no cow of that name. Nothing
    /// changes where it is refused or where the inventory fails.
    pub fn add_cow(&mut self, v: &AddCow) -> (res: Result<(), Error>)
        ensures
            final(self).cow_body() == old(self).cow_body(),
            final(self).numbers() == old(self).numbers(),
            final(self).inventory_may_fail() == old(self).inventory_may_fail(),
            match res {
                Ok(()) => lookup(old(self).cows(), v@.name.url) is None && final(self).cows()
                    == old(self).cows().insert(v@.name.url, new_cow(v@.name, v@.character)),
                Err(e) => final(self).cows() == old(self).cows() && ((e is Inventory && old(
                    self,
                ).inventory_may_fail()) || e is Download
                    || e is CowIsNotPresent || (e == Error::DuplicateCow && lookup(
                    old(self).cows(),
                    v@.name.url,
                ) is Some)),
            },
    {
        let downloaded = self.downloader.download(v.name());
        take_in_downloaded(&mut self.inventory, v, downloaded, self.cow_body.as_str())
    }
}

} // verus!
