use moooodotfarm::app::add_cow::{take_in, take_in_downloaded, AddCow, AddCowHandler};
use moooodotfarm::app::change_cow_character::{
    change_character, ChangeCowCharacter, ChangeCowCharacterHandler,
};
use moooodotfarm::app::check_cow::{look_at, CheckCow, CheckCowHandler};
use moooodotfarm::app::get_herd::{get_or_create, show_herd, GetHerdHandler};
use moooodotfarm::app::update::{is_present, keep_check, mark, UpdateHandler};
use moooodotfarm::app::{
    ApplicationHandlerCallResult, CowStatus, CowTxtDownloader, Herd as ShownHerd, HerdNumbers,
    Inventory, Metrics,
};
use moooodotfarm::adapters::memory::MemoryInventory as KeptInMemory;
use moooodotfarm::domain::time::DateTime;
use moooodotfarm::domain::{Character, Cow, Herd, VisibleName};
use moooodotfarm::errors::Error;
use std::collections::{BTreeMap, BTreeSet};

const COW: &str = "        \\   ^__^\n         \\  (oo)\\_______\n            (__)\\       )\\/\\\n                ||----w |\n                ||     ||\nThis cow grazes here and the farm comes by to see whether it is still around.\n";

const A: &str = "https://a.example.com/cow.txt";
const B: &str = "https://b.example.com/cow.txt";
const C: &str = "https://c.example.com/cow.txt";

fn name(url: &str) -> VisibleName {
    VisibleName::new(url).unwrap()
}

fn at(timestamp: i64) -> DateTime {
    DateTime::new(timestamp)
}

#[derive(Default)]
struct MemoryInventory {
    cows: BTreeMap<String, Cow>,
    broken: BTreeSet<String>,
    frozen: BTreeSet<String>,
    updates: Vec<String>,
}

impl MemoryInventory {
    fn with(cows: Vec<Cow>) -> Self {
        let mut inventory = MemoryInventory::default();
        for cow in cows {
            inventory.cows.insert(cow.name().url().to_string(), cow);
        }
        inventory
    }
}

impl Inventory for MemoryInventory {
    fn get(&self, name: &VisibleName) -> Result<Option<Cow>, Error> {
        if self.broken.contains(name.url()) {
            return Err(Error::Inventory("broken".to_string()));
        }
        Ok(self.cows.get(name.url()).cloned())
    }

    fn update<F>(&mut self, name: &VisibleName, f: F) -> Result<(), Error>
    where
        F: FnOnce(Option<Cow>) -> Result<Option<Cow>, Error>,
    {
        if self.broken.contains(name.url()) {
            return Err(Error::Inventory("broken".to_string()));
        }
        if self.frozen.contains(name.url()) {
            return Err(Error::Inventory("frozen".to_string()));
        }
        self.updates.push(name.url().to_string());
        if let Some(cow) = f(self.cows.get(name.url()).cloned())? {
            self.cows.insert(name.url().to_string(), cow);
        }
        Ok(())
    }
}

#[derive(Default)]
struct Pasture {
    texts: BTreeMap<String, String>,
    visits: Vec<String>,
}

impl Pasture {
    fn with(texts: &[(&str, &str)]) -> Self {
        Pasture {
            texts: texts.iter().map(|(url, text)| (url.to_string(), text.to_string())).collect(),
            visits: Vec::new(),
        }
    }
}

impl CowTxtDownloader for Pasture {
    fn download(&mut self, name: &VisibleName) -> Result<String, Error> {
        self.visits.push(name.url().to_string());
        match self.texts.get(name.url()) {
            Some(text) => Ok(text.clone()),
            None => Err(Error::Download("not found".to_string())),
        }
    }
}

#[derive(Default)]
struct Counters {
    numbers: Vec<HerdNumbers>,
}

impl Metrics for Counters {
    fn update_herd_numbers(&mut self, herd: &ShownHerd) {
        self.numbers.push(herd.numbers());
    }
}

fn herd(cows: &[(&str, Character)]) -> Herd {
    Herd::new(cows.iter().map(|(url, character)| Cow::new(name(url), *character)).collect())
        .unwrap()
}

#[test]
fn a_pass_marks_the_cows_that_are_due() {
    let mut seen_lately = Cow::new(name(B), Character::Shy);
    seen_lately.mark_as_ok(&at(990));
    let mut handler = UpdateHandler::new(
        herd(&[(A, Character::Brave), (B, Character::Shy), (C, Character::Brave)]),
        MemoryInventory::with(vec![seen_lately]),
        Pasture::with(&[(A, COW), (B, COW), (C, "not a cow")]),
        Counters::default(),
        COW.to_string(),
    );
    assert_eq!(handler.handle(&at(1000)), Ok(()));
    let kept = &handler.inventory().cows;
    assert_eq!(kept.len(), 3);
    let a = &kept[A];
    assert_eq!(a.first_seen(), Some(&at(1000)));
    assert_eq!(a.last_seen(), Some(&at(1000)));
    assert_eq!(a.last_checked(), Some(&at(1000)));
    assert_eq!(*a.character(), Character::Brave);
    let b = &kept[B];
    assert_eq!(b.first_seen(), Some(&at(990)));
    assert_eq!(b.last_checked(), Some(&at(990)));
    assert_eq!(*b.character(), Character::Shy);
    let c = &kept[C];
    assert_eq!(c.first_seen(), None);
    assert_eq!(c.last_seen(), None);
    assert_eq!(c.last_checked(), Some(&at(1000)));
    assert_eq!(handler.inventory().updates, [A, C]);
    assert_eq!(
        handler.metrics().numbers,
        [HerdNumbers { happily_grazing: 2, ran_away: 1, have_not_checked_yet: 0 }]
    );
}

#[test]
fn a_pass_keeps_first_seen_and_obeys_the_backoff() {
    let mut handler = UpdateHandler::new(
        herd(&[(A, Character::Brave), (B, Character::Brave)]),
        MemoryInventory::default(),
        Pasture::with(&[(A, COW)]),
        Counters::default(),
        COW.to_string(),
    );
    assert_eq!(handler.handle(&at(0)), Ok(()));
    // five minutes later nothing is due
    assert_eq!(handler.handle(&at(300)), Ok(()));
    assert_eq!(handler.inventory().updates, [A, B]);
    // after fifteen minutes the cow never seen is due again, the other is not
    assert_eq!(handler.handle(&at(901)), Ok(()));
    assert_eq!(handler.inventory().updates, [A, B, B]);
    assert_eq!(handler.handle(&at(7201)), Ok(()));
    assert_eq!(handler.inventory().updates, [A, B, B, A, B]);
    let a = &handler.inventory().cows[A];
    assert_eq!(a.first_seen(), Some(&at(0)));
    assert_eq!(a.last_seen(), Some(&at(7201)));
    let b = &handler.inventory().cows[B];
    assert_eq!(b.first_seen(), None);
    assert_eq!(b.last_checked(), Some(&at(7201)));
    assert_eq!(handler.metrics().numbers.len(), 4);
    assert_eq!(
        handler.metrics().numbers[3],
        HerdNumbers { happily_grazing: 1, ran_away: 1, have_not_checked_yet: 0 }
    );
}

#[test]
fn a_pass_goes_on_when_the_inventory_fails_for_a_cow() {
    let mut inventory = MemoryInventory::default();
    inventory.broken.insert(B.to_string());
    let mut handler = UpdateHandler::new(
        herd(&[(A, Character::Brave), (B, Character::Brave), (C, Character::Shy)]),
        inventory,
        Pasture::with(&[(A, COW), (B, COW), (C, COW)]),
        Counters::default(),
        COW.to_string(),
    );
    assert_eq!(handler.handle(&at(50)), Err(Error::UpdateIncomplete(vec![B.to_string()])));
    let kept = &handler.inventory().cows;
    assert_eq!(kept.len(), 2);
    assert_eq!(kept[A].last_seen(), Some(&at(50)));
    assert_eq!(kept[C].last_seen(), Some(&at(50)));
    assert!(handler.metrics().numbers.is_empty());
}

#[test]
fn a_pass_leaves_other_cows_alone() {
    let mut stranger = Cow::new(name(C), Character::Shy);
    stranger.mark_as_missing(&at(1));
    let mut handler = UpdateHandler::new(
        herd(&[(A, Character::Brave)]),
        MemoryInventory::with(vec![stranger]),
        Pasture::default(),
        Counters::default(),
        COW.to_string(),
    );
    assert_eq!(handler.handle(&at(100000)), Ok(()));
    let kept = &handler.inventory().cows;
    assert_eq!(kept[C].last_checked(), Some(&at(1)));
    assert_eq!(kept[A].last_checked(), Some(&at(100000)));
    assert_eq!(kept[A].first_seen(), None);
    assert_eq!(
        handler.metrics().numbers,
        [HerdNumbers { happily_grazing: 0, ran_away: 1, have_not_checked_yet: 0 }]
    );
}

#[test]
fn a_pass_fails_when_the_herd_cannot_be_shown() {
    let mut handler = UpdateHandler::new(
        herd(&[("http://localhost/cow.txt", Character::Shy)]),
        MemoryInventory::default(),
        Pasture::default(),
        Counters::default(),
        COW.to_string(),
    );
    assert_eq!(handler.handle(&at(0)), Err(Error::NoTld));
    assert_eq!(
        handler.inventory().cows["http://localhost/cow.txt"].last_checked(),
        Some(&at(0))
    );
}

#[test]
fn marking_starts_from_what_is_kept() {
    let fresh = Cow::new(name(A), Character::Shy);
    let marked = mark(None, &fresh, true, &at(5)).unwrap().unwrap();
    assert_eq!(marked.first_seen(), Some(&at(5)));
    assert_eq!(*marked.character(), Character::Shy);
    let mut kept = Cow::new(name(A), Character::Brave);
    kept.mark_as_ok(&at(1));
    let marked = mark(Some(kept), &fresh, false, &at(9)).unwrap().unwrap();
    assert_eq!(marked.first_seen(), Some(&at(1)));
    assert_eq!(marked.last_seen(), Some(&at(1)));
    assert_eq!(marked.last_checked(), Some(&at(9)));
    assert_eq!(*marked.character(), Character::Brave);
    let mut with_history = Cow::new(name(A), Character::Brave);
    with_history.mark_as_ok(&at(3));
    let marked = mark(None, &with_history, false, &at(9)).unwrap().unwrap();
    assert_eq!(marked.first_seen(), None);
    assert_eq!(marked.last_checked(), Some(&at(9)));
}

#[test]
fn a_download_shows_a_cow_if_it_is_close_to_the_expected_text() {
    assert!(is_present(&Ok(COW.to_string()), COW));
    assert!(is_present(&Ok(format!("  {}  \n", COW)), COW));
    assert!(!is_present(&Ok("not a cow".to_string()), COW));
    assert!(!is_present(&Err(Error::Download("down".to_string())), COW));
}

#[test]
fn the_herd_is_shown_as_the_inventory_knows_it() {
    let mut a = Cow::new(name(A), Character::Shy);
    a.mark_as_ok(&at(100));
    let mut stranger = Cow::new(name(C), Character::Brave);
    stranger.mark_as_ok(&at(100));
    let handler = GetHerdHandler::new(
        herd(&[(B, Character::Brave), (A, Character::Brave)]),
        MemoryInventory::with(vec![a, stranger]),
        Counters::default(),
    );
    let shown = handler.get_herd(&at(200)).unwrap();
    let rows = shown.cows();
    assert_eq!(rows.len(), 2);
    assert_eq!(rows[0].name().url(), B);
    assert_eq!(*rows[0].status(), CowStatus::HaveNotCheckedYet);
    assert_eq!(rows[0].last_seen(), None);
    assert_eq!(*rows[0].character(), Character::Brave);
    assert_eq!(rows[1].name().url(), "https://*.*******.com/cow.txt");
    assert_eq!(*rows[1].status(), CowStatus::HappilyGrazing);
    assert_eq!(rows[1].last_seen(), Some(&at(100)));
    assert_eq!(*rows[1].character(), Character::Shy);
    assert!(handler.inventory().updates.is_empty());
    assert_eq!(handler.inventory().cows.len(), 2);
    assert!(handler.metrics().numbers.is_empty());
}

#[test]
fn showing_the_herd_fails_with_the_inventory() {
    let mut inventory = MemoryInventory::default();
    inventory.broken.insert(A.to_string());
    let the_herd = herd(&[(B, Character::Brave), (A, Character::Brave)]);
    assert_eq!(
        show_herd(&the_herd, &inventory, &at(0)).unwrap_err(),
        Error::Inventory("broken".to_string())
    );
    assert_eq!(
        get_or_create(&inventory, &the_herd.cows()[1]).unwrap_err(),
        Error::Inventory("broken".to_string())
    );
    let found = get_or_create(&inventory, &the_herd.cows()[0]).unwrap();
    assert_eq!(found, Cow::new(name(B), Character::Brave));
    let no_host = herd(&[("unix:/run/cow.txt", Character::Shy)]);
    assert_eq!(show_herd(&no_host, &MemoryInventory::default(), &at(0)).unwrap_err(), Error::NoHost);
}

#[test]
fn a_cow_is_taken_in_once() {
    let mut handler = AddCowHandler::new(
        MemoryInventory::default(),
        Pasture::with(&[(A, COW), (B, "not a cow")]),
        Counters::default(),
        COW.to_string(),
    );
    assert_eq!(handler.add_cow(&AddCow::new(name(A), Character::Shy)), Ok(()));
    assert_eq!(handler.inventory().cows[A], Cow::new(name(A), Character::Shy));
    assert_eq!(
        handler.add_cow(&AddCow::new(name(A), Character::Brave)),
        Err(Error::DuplicateCow)
    );
    assert_eq!(handler.inventory().cows[A], Cow::new(name(A), Character::Shy));
    assert_eq!(
        handler.add_cow(&AddCow::new(name(B), Character::Brave)),
        Err(Error::CowIsNotPresent("not a cow".to_string()))
    );
    assert_eq!(
        handler.add_cow(&AddCow::new(name(C), Character::Brave)),
        Err(Error::Download("not found".to_string()))
    );
    assert_eq!(handler.inventory().cows.len(), 1);
    assert_eq!(handler.inventory().updates, [A, A]);
}

#[test]
fn taking_in_fails_with_the_inventory() {
    let mut inventory = MemoryInventory::default();
    inventory.broken.insert(A.to_string());
    let mut handler = AddCowHandler::new(
        inventory,
        Pasture::with(&[(A, COW)]),
        Counters::default(),
        COW.to_string(),
    );
    let order = AddCow::new(name(A), Character::Shy);
    assert_eq!(order.name().url(), A);
    assert_eq!(*order.character(), Character::Shy);
    assert_eq!(handler.add_cow(&order), Err(Error::Inventory("broken".to_string())));
    assert!(handler.inventory().cows.is_empty());
    assert_eq!(take_in(Some(Cow::new(name(A), Character::Shy)), &name(A), Character::Shy), Err(Error::DuplicateCow));
    assert_eq!(take_in(None, &name(A), Character::Shy), Ok(Some(Cow::new(name(A), Character::Shy))));
}

#[test]
fn a_character_is_changed_in_the_inventory() {
    let mut a = Cow::new(name(A), Character::Shy);
    a.mark_as_ok(&at(7));
    let mut handler =
        ChangeCowCharacterHandler::new(MemoryInventory::with(vec![a]), Counters::default());
    assert_eq!(
        handler.change_cow_character(&ChangeCowCharacter::new(name(A), Character::Shy)),
        Err(Error::CharacterAlreadySet)
    );
    assert_eq!(*handler.inventory().cows[A].character(), Character::Shy);
    let order = ChangeCowCharacter::new(name(A), Character::Brave);
    assert_eq!(order.name().url(), A);
    assert_eq!(*order.character(), Character::Brave);
    assert_eq!(handler.change_cow_character(&order), Ok(()));
    assert_eq!(*handler.inventory().cows[A].character(), Character::Brave);
    assert_eq!(handler.inventory().cows[A].first_seen(), Some(&at(7)));
    assert_eq!(
        handler.change_cow_character(&ChangeCowCharacter::new(name(B), Character::Brave)),
        Err(Error::CowDoesNotExist)
    );
    assert_eq!(handler.inventory().cows.len(), 1);
    assert_eq!(change_character(None, Character::Shy), Err(Error::CowDoesNotExist));
}

#[test]
fn a_cow_is_looked_at() {
    let mut handler = CheckCowHandler::new(
        Pasture::with(&[(A, COW), (B, "not a cow")]),
        Counters::default(),
        COW.to_string(),
    );
    let found = handler.check_cow(CheckCow::new(name(A))).unwrap();
    assert_eq!(found.cow_txt().content(), COW);
    assert_eq!(
        handler.check_cow(CheckCow::new(name(B))).unwrap_err(),
        Error::CowIsNotPresent("not a cow".to_string())
    );
    assert_eq!(
        handler.check_cow(CheckCow::new(name(C))).unwrap_err(),
        Error::Download("not found".to_string())
    );
    assert!(handler.metrics().numbers.is_empty());
}

#[test]
fn calls_end_well_or_badly() {
    assert_eq!(ApplicationHandlerCallResult::new(true), ApplicationHandlerCallResult::Success);
    assert_eq!(ApplicationHandlerCallResult::new(false), ApplicationHandlerCallResult::Error);
    assert_eq!(ApplicationHandlerCallResult::Success.as_str(), "ok");
    assert_eq!(ApplicationHandlerCallResult::Error.as_str(), "error");
}

#[test]
fn an_inventory_in_memory_keeps_what_it_is_given() {
    let mut inventory = KeptInMemory::new();
    assert_eq!(inventory.get(&name(A)), Ok(None));
    assert_eq!(inventory.update(&name(A), |found| Ok(found)), Ok(()));
    assert_eq!(inventory.get(&name(A)), Ok(None));
    assert_eq!(
        inventory.update(&name(A), |found| {
            assert_eq!(found, None);
            Ok(Some(Cow::new(name(A), Character::Shy)))
        }),
        Ok(())
    );
    assert_eq!(inventory.get(&name(A)), Ok(Some(Cow::new(name(A), Character::Shy))));
    assert_eq!(inventory.get(&name(B)), Ok(None));
    assert_eq!(
        inventory.update(&name(B), |_| Ok(Some(Cow::new(name(B), Character::Brave)))),
        Ok(())
    );
    assert_eq!(
        inventory.update(&name(A), |found| {
            let mut cow = found.unwrap();
            cow.mark_as_ok(&at(3));
            Ok(Some(cow))
        }),
        Ok(())
    );
    assert_eq!(inventory.update(&name(A), |_| Err(Error::DuplicateCow)), Err(Error::DuplicateCow));
    assert_eq!(inventory.update(&name(B), |_| Ok(None)), Ok(()));
    assert_eq!(inventory.get(&name(A)).unwrap().unwrap().last_seen(), Some(&at(3)));
    assert_eq!(inventory.get(&name(B)), Ok(Some(Cow::new(name(B), Character::Brave))));
    assert_eq!(inventory.get(&name(C)), Ok(None));
}

#[test]
fn updates_of_one_name_are_applied_one_after_the_other() {
    let mut inventory = KeptInMemory::new();
    for second in 0..100 {
        let result = inventory.update(&name(A), |found| {
            let mut cow = found.unwrap_or(Cow::new(name(A), Character::Brave));
            let checked = cow.last_checked().map(|t| t.timestamp());
            assert_eq!(checked, if second == 0 { None } else { Some(second - 1) });
            if second % 2 == 0 {
                cow.mark_as_ok(&at(second));
            } else {
                cow.mark_as_missing(&at(second));
            }
            Ok(Some(cow))
        });
        assert_eq!(result, Ok(()));
    }
    let cow = inventory.get(&name(A)).unwrap().unwrap();
    assert_eq!(cow.first_seen(), Some(&at(0)));
    assert_eq!(cow.last_seen(), Some(&at(98)));
    assert_eq!(cow.last_checked(), Some(&at(99)));
}

#[test]
fn the_handlers_work_on_an_inventory_in_memory() {
    let mut add = AddCowHandler::new(
        KeptInMemory::new(),
        Pasture::with(&[(A, COW), (B, COW)]),
        Counters::default(),
        COW.to_string(),
    );
    assert_eq!(add.add_cow(&AddCow::new(name(A), Character::Shy)), Ok(()));
    assert_eq!(add.add_cow(&AddCow::new(name(A), Character::Shy)), Err(Error::DuplicateCow));
    assert_eq!(add.inventory().get(&name(A)), Ok(Some(Cow::new(name(A), Character::Shy))));
    let mut update = UpdateHandler::new(
        herd(&[(B, Character::Brave), (A, Character::Brave)]),
        KeptInMemory::new(),
        Pasture::with(&[(A, COW)]),
        Counters::default(),
        COW.to_string(),
    );
    assert_eq!(update.handle(&at(77)), Ok(()));
    assert_eq!(update.inventory().get(&name(A)).unwrap().unwrap().last_seen(), Some(&at(77)));
    assert_eq!(update.inventory().get(&name(B)).unwrap().unwrap().last_seen(), None);
    assert_eq!(update.inventory().get(&name(B)).unwrap().unwrap().last_checked(), Some(&at(77)));
    assert_eq!(
        update.metrics().numbers,
        [HerdNumbers { happily_grazing: 1, ran_away: 1, have_not_checked_yet: 0 }]
    );
}

#[test]
fn a_pass_counts_the_herd_even_when_a_cow_could_not_be_kept() {
    let mut inventory = MemoryInventory::default();
    inventory.frozen.insert(B.to_string());
    let mut handler = UpdateHandler::new(
        herd(&[(A, Character::Brave), (B, Character::Brave), (C, Character::Shy)]),
        inventory,
        Pasture::with(&[(A, COW), (B, COW)]),
        Counters::default(),
        COW.to_string(),
    );
    assert_eq!(handler.handle(&at(50)), Err(Error::UpdateIncomplete(vec![B.to_string()])));
    let kept = &handler.inventory().cows;
    assert_eq!(kept.len(), 2);
    assert_eq!(kept[A].last_seen(), Some(&at(50)));
    assert_eq!(kept[C].last_seen(), None);
    assert_eq!(kept[C].last_checked(), Some(&at(50)));
    assert_eq!(
        handler.metrics().numbers,
        [HerdNumbers { happily_grazing: 1, ran_away: 1, have_not_checked_yet: 1 }]
    );
}

#[test]
fn a_check_is_kept_as_the_download_shows_it() {
    let mut inventory = KeptInMemory::new();
    let cow = Cow::new(name(A), Character::Shy);
    assert_eq!(keep_check(&mut inventory, &cow, &Ok(COW.to_string()), COW, &at(10)), Ok(()));
    let kept = inventory.get(&name(A)).unwrap().unwrap();
    assert_eq!(kept.first_seen(), Some(&at(10)));
    assert_eq!(kept.last_seen(), Some(&at(10)));
    assert_eq!(kept.last_checked(), Some(&at(10)));
    assert_eq!(*kept.character(), Character::Shy);
    assert_eq!(
        keep_check(&mut inventory, &cow, &Ok("not a cow".to_string()), COW, &at(20)),
        Ok(())
    );
    let kept = inventory.get(&name(A)).unwrap().unwrap();
    assert_eq!(kept.first_seen(), Some(&at(10)));
    assert_eq!(kept.last_seen(), Some(&at(10)));
    assert_eq!(kept.last_checked(), Some(&at(20)));
    let other = Cow::new(name(B), Character::Brave);
    assert_eq!(
        keep_check(&mut inventory, &other, &Err(Error::Download("down".to_string())), COW, &at(30)),
        Ok(())
    );
    let kept = inventory.get(&name(B)).unwrap().unwrap();
    assert_eq!(kept.first_seen(), None);
    assert_eq!(kept.last_seen(), None);
    assert_eq!(kept.last_checked(), Some(&at(30)));
    let mut broken = MemoryInventory::default();
    broken.broken.insert(A.to_string());
    assert_eq!(
        keep_check(&mut broken, &cow, &Ok(COW.to_string()), COW, &at(10)),
        Err(Error::Inventory("broken".to_string()))
    );
    assert!(broken.cows.is_empty());
}

#[test]
fn a_cow_is_taken_in_as_the_download_shows_it() {
    let mut inventory = KeptInMemory::new();
    let order = AddCow::new(name(A), Character::Shy);
    assert_eq!(
        take_in_downloaded(&mut inventory, &order, Err(Error::Download("down".to_string())), COW),
        Err(Error::Download("down".to_string()))
    );
    assert_eq!(
        take_in_downloaded(&mut inventory, &order, Ok("not a cow".to_string()), COW),
        Err(Error::CowIsNotPresent("not a cow".to_string()))
    );
    assert_eq!(inventory.get(&name(A)), Ok(None));
    assert_eq!(take_in_downloaded(&mut inventory, &order, Ok(COW.to_string()), COW), Ok(()));
    assert_eq!(inventory.get(&name(A)), Ok(Some(Cow::new(name(A), Character::Shy))));
    assert_eq!(
        take_in_downloaded(&mut inventory, &order, Ok(COW.to_string()), COW),
        Err(Error::DuplicateCow)
    );
    assert_eq!(
        take_in_downloaded(&mut inventory, &order, Ok("not a cow".to_string()), COW),
        Err(Error::CowIsNotPresent("not a cow".to_string()))
    );
}

#[test]
fn a_download_is_looked_at() {
    assert_eq!(look_at(Ok(COW.to_string()), COW).unwrap().cow_txt().content(), COW);
    let spaced = format!("{}   \n", COW);
    assert_eq!(look_at(Ok(spaced.clone()), COW).unwrap().cow_txt().content(), spaced);
    assert_eq!(
        look_at(Ok("not a cow".to_string()), COW).unwrap_err(),
        Error::CowIsNotPresent("not a cow".to_string())
    );
    assert_eq!(
        look_at(Err(Error::Download("down".to_string())), COW).unwrap_err(),
        Error::Download("down".to_string())
    );
}
