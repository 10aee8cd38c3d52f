//! An inventory that keeps its cows in memory.

use crate::app::{lookup, option_view, stored, Inventory};
use crate::domain::cow::{Cow, CowView};
use crate::domain::name::VisibleName;
use crate::errors::Error;
use crate::text;
use vstd::prelude::*;

verus! {

/// One cow and the text under which it is kept.
#[derive(Debug)]
struct Entry {
    key: String,
    cow: Cow,
}

/// Whether `i` is the first position at which `entries` keep something
/// under `key`.
spec fn is_first(entries: Seq<Entry>, key: Seq<char>, i: int) -> bool {
    &&& 0 <= i < entries.len()
    &&& entries[i].key@ == key
    &&& forall|j: int| 0 <= j < i ==> entries[j].key@ != key
}

/// Whether `entries` keep something under `key`.
spec fn keeps(entries: Seq<Entry>, key: Seq<char>) -> bool {
    exists|i: int| is_first(entries, key, i)
}

/// The first position at which `entries` keep something under `key`.
spec fn position(entries: Seq<Entry>, key: Seq<char>) -> int {
    choose|i: int| is_first(entries, key, i)
}

/// What the entries keep, by key: under each key the first that has it.
spec fn kept_by(entries: Seq<Entry>) -> Map<Seq<char>, CowView> {
    Map::new(
        |key: Seq<char>| keeps(entries, key),
        |key: Seq<char>| entries[position(entries, key)].cow@,
    )
}

/// Where a key is kept at all, it is kept at a first position, at or
/// before `i`.
proof fn lemma_first_exists(entries: Seq<Entry>, key: Seq<char>, i: int)
    requires
        0 <= i < entries.len(),
        entries[i].key@ == key,
    ensures
        keeps(entries, key),
        position(entries, key) <= i,
        is_first(entries, key, position(entries, key)),
    decreases i,
{
    if exists|j: int| 0 <= j < i && entries[j].key@ == key {
        let j = choose|j: int| 0 <= j < i && entries[j].key@ == key;
        lemma_first_exists(entries, key, j);
    } else {
        assert(is_first(entries, key, i));
    }
}

/// An inventory in memory. It never fails of its own: reading always
/// succeeds, and an update fails only with what the update itself decides.
/// What it keeps is lost with it.
#[derive(Debug)]
pub struct MemoryInventory {
    entries: Vec<Entry>,
}

impl MemoryInventory {
    /// What the inventory keeps.
    pub closed spec fn kept(&self) -> Map<Seq<char>, CowView> {
        kept_by(self.entries@)
    }

    /// An inventory that keeps nothing.
    pub fn new() -> (inventory: MemoryInventory)
        ensures
            inventory.kept() == Map::<Seq<char>, CowView>::empty(),
    {
        let inventory = MemoryInventory { entries: Vec::new() };
        inventory
    }

    /// Where the cow of the key is kept, if it is.
    fn find(&self, key: &str) -> (found: Option<usize>)
        ensures
            match found {
                Some(i) => is_first(self.entries@, key@, i as int) && lookup(self.kept(), key@)
                    == Some(self.entries@[i as int].cow@),
                None => !keeps(self.entries@, key@) && lookup(self.kept(), key@) is None,
            },
    {
        let mut i: usize = 0;
        while i < self.entries.len()
            invariant
                i <= self.entries.len(),
                forall|k: int| 0 <= k < i ==> self.entries@[k].key@ != key@,
            decreases self.entries.len() - i,
        {
            if text::str_eq(self.entries[i].key.as_str(), key) {
                assert(is_first(self.entries@, key@, i as int));
                return Some(i);
            }
            i += 1;
        }
        None
    }
}

impl Inventory for MemoryInventory {
    open spec fn cows(&self) -> Map<Seq<char>, CowView> {
        self.kept()
    }

    open spec fn may_fail(&self) -> bool {
        false
    }

    fn get(&self, name: &VisibleName) -> (res: Result<Option<Cow>, Error>) {
        match self.find(name.url()) {
            Some(i) => Ok(Some(self.entries[i].cow.clone())),
            None => Ok(None),
        }
    }

    fn update<F>(&mut self, name: &VisibleName, f: F) -> (res: Result<(), Error>) where
        F: FnOnce(Option<Cow>) -> Result<Option<Cow>, Error>,
     {
        let at = self.find(name.url());
        let found = match at {
            Some(i) => Some(self.entries[i].cow.clone()),
            None => None,
        };
        let ghost before = self.entries@;
        let ghost key = name@.url;
        assert(option_view(found) == lookup(old(self).cows(), name@.url));
        match f(found) {
            Ok(Some(cow)) => {
                let entry = Entry { key: name.url().to_owned(), cow };
                match at {
                    Some(i) => {
                        self.entries.set(i, entry);
                    },
                    None => {
                        self.entries.push(entry);
                    },
                }
                proof {
                    let after = self.entries@;
                    let place = match at {
                        Some(i) => i as int,
                        None => before.len() as int,
                    };
                    assert forall|n: int| 0 <= n < place implies after[n].key@ != key by {
                        if before[n].key@ == key {
                            lemma_first_exists(before, key, n);
                        }
                    }
                    assert(is_first(after, key, place));
                    assert forall|k: Seq<char>, j: int| k != key implies is_first(after, k, j)
                        == is_first(before, k, j) by {
                        if is_first(before, k, j) {
                            assert forall|n: int| 0 <= n < j implies after[n].key@ != k by {
                                assert(before[n].key@ != k);
                            }
                        }
                        if is_first(after, k, j) {
                            assert forall|n: int| 0 <= n < j implies before[n].key@ != k by {
                                assert(after[n].key@ != k);
                            }
                        }
                    }
                    assert forall|k: Seq<char>| k != key implies keeps(after, k) == keeps(
                        before,
                        k,
                    ) && (keeps(after, k) ==> after[position(after, k)].cow@ == before[position(
                        before,
                        k,
                    )].cow@) by {
                        if keeps(before, k) {
                            assert(is_first(after, k, position(before, k)));
                        }
                        if keeps(after, k) {
                            assert(is_first(before, k, position(after, k)));
                            assert(position(after, k) == position(before, k));
                        }
                    }
                    assert(position(after, key) == place);
                    assert(kept_by(after) =~= stored(kept_by(before), key, Some(cow@)));
                }
                Ok(())
            },
            Ok(None) => Ok(()),
            Err(e) => Err(e),
        }
    }
}

} // verus!
