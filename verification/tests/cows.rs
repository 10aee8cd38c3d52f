use moooodotfarm::app::{cow_status_as_str, CowStatus, Herd as ShownHerd};
use moooodotfarm::domain::cow::parse_character;
use moooodotfarm::domain::time::{DateTime, Duration};
use moooodotfarm::domain::{CensoredCow, CensoredHerd, Character, Cow, Herd, Name, VisibleName};
use moooodotfarm::errors::Error;

const HOUR: i64 = 3600;

fn name(url: &str) -> VisibleName {
    VisibleName::new(url).unwrap()
}

fn at(timestamp: i64) -> DateTime {
    DateTime::new(timestamp)
}

fn status(cow: &Cow, now: i64) -> CowStatus {
    CowStatus::new(&CensoredCow::new(cow).unwrap(), &at(now))
}

#[test]
fn a_new_cow_has_no_history() {
    let cow = Cow::new(name("https://example.com/cow.txt"), Character::Brave);
    assert_eq!(cow.name().url(), "https://example.com/cow.txt");
    assert_eq!(*cow.character(), Character::Brave);
    assert_eq!(cow.first_seen(), None);
    assert_eq!(cow.last_seen(), None);
    assert_eq!(cow.last_checked(), None);
    assert_eq!(cow.to_string(), "https://example.com/cow.txt");
}

#[test]
fn a_cow_never_checked_is_due() {
    let cow = Cow::new(name("https://example.com/cow.txt"), Character::Brave);
    assert!(cow.should_check(&at(0)));
    assert!(cow.should_check(&at(i64::MIN)));
    assert!(cow.should_check(&at(i64::MAX)));
}

#[test]
fn a_cow_never_seen_is_due_after_fifteen_minutes() {
    let mut cow = Cow::new(name("https://example.com/cow.txt"), Character::Brave);
    cow.mark_as_missing(&at(1000));
    assert!(!cow.should_check(&at(1000)));
    assert!(!cow.should_check(&at(1000 + 15 * 60)));
    assert!(cow.should_check(&at(1000 + 15 * 60 + 1)));
    assert!(!cow.should_check(&at(0)));
}

#[test]
fn a_cow_once_seen_is_due_after_two_hours() {
    let mut cow = Cow::new(name("https://example.com/cow.txt"), Character::Brave);
    cow.mark_as_ok(&at(1000));
    assert!(!cow.should_check(&at(1000 + 15 * 60 + 1)));
    assert!(!cow.should_check(&at(1000 + 2 * HOUR)));
    assert!(cow.should_check(&at(1000 + 2 * HOUR + 1)));
    cow.mark_as_missing(&at(20000));
    assert!(!cow.should_check(&at(20000 + 15 * 60 + 1)));
    assert!(cow.should_check(&at(20000 + 2 * HOUR + 1)));
}

#[test]
fn the_backoff_does_not_overflow() {
    let cow = Cow::new_from_history(
        name("https://example.com/cow.txt"),
        Character::Brave,
        None,
        None,
        Some(at(i64::MIN)),
    );
    assert!(cow.should_check(&at(i64::MAX)));
    let cow = Cow::new_from_history(
        name("https://example.com/cow.txt"),
        Character::Brave,
        None,
        None,
        Some(at(i64::MAX)),
    );
    assert!(!cow.should_check(&at(i64::MIN)));
}

#[test]
fn first_seen_is_set_once() {
    let mut cow = Cow::new(name("https://example.com/cow.txt"), Character::Shy);
    cow.mark_as_missing(&at(5));
    assert_eq!(cow.first_seen(), None);
    assert_eq!(cow.last_seen(), None);
    assert_eq!(cow.last_checked(), Some(&at(5)));
    cow.mark_as_ok(&at(10));
    assert_eq!(cow.first_seen(), Some(&at(10)));
    assert_eq!(cow.last_seen(), Some(&at(10)));
    assert_eq!(cow.last_checked(), Some(&at(10)));
    cow.mark_as_missing(&at(20));
    cow.mark_as_ok(&at(30));
    cow.mark_as_ok(&at(7));
    cow.mark_as_missing(&at(40));
    assert_eq!(cow.first_seen(), Some(&at(10)));
    assert_eq!(cow.last_seen(), Some(&at(7)));
    assert_eq!(cow.last_checked(), Some(&at(40)));
}

#[test]
fn a_character_cannot_be_changed_to_itself() {
    let mut cow = Cow::new(name("https://example.com/cow.txt"), Character::Shy);
    assert_eq!(cow.change_character(Character::Shy), Err(Error::CharacterAlreadySet));
    assert_eq!(*cow.character(), Character::Shy);
    assert_eq!(cow.change_character(Character::Brave), Ok(()));
    assert_eq!(*cow.character(), Character::Brave);
    assert_eq!(cow.change_character(Character::Brave), Err(Error::CharacterAlreadySet));
}

#[test]
fn characters_have_names() {
    assert_eq!(parse_character("brave"), Ok(Character::Brave));
    assert_eq!(parse_character("shy"), Ok(Character::Shy));
    assert_eq!(parse_character("Brave"), Err(Error::InvalidCharacter));
    assert_eq!(parse_character(""), Err(Error::InvalidCharacter));
    assert_eq!(parse_character("shy "), Err(Error::InvalidCharacter));
    assert_eq!(Character::Brave.as_str(), "brave");
    assert_eq!(Character::Shy.as_str(), "shy");
    assert_eq!(parse_character(Character::Shy.as_str()), Ok(Character::Shy));
}

#[test]
fn status_follows_the_history() {
    let mut cow = Cow::new(name("https://example.com/cow.txt"), Character::Brave);
    assert_eq!(status(&cow, 0), CowStatus::HaveNotCheckedYet);
    assert_eq!(status(&cow, i64::MAX), CowStatus::HaveNotCheckedYet);
    cow.mark_as_missing(&at(100));
    assert_eq!(status(&cow, 100), CowStatus::RanAway);
    assert_eq!(status(&cow, 0), CowStatus::RanAway);
    cow.mark_as_ok(&at(200));
    assert_eq!(status(&cow, 200), CowStatus::HappilyGrazing);
    assert_eq!(status(&cow, 200 + 24 * HOUR - 1), CowStatus::HappilyGrazing);
    assert_eq!(status(&cow, 200 + 24 * HOUR), CowStatus::RanAway);
    cow.mark_as_missing(&at(300));
    assert_eq!(status(&cow, 300), CowStatus::HappilyGrazing);
    assert_eq!(status(&cow, 200 + 24 * HOUR), CowStatus::RanAway);
}

#[test]
fn every_status_is_listed_once() {
    assert_eq!(
        CowStatus::all_variants(),
        vec![CowStatus::HappilyGrazing, CowStatus::RanAway, CowStatus::HaveNotCheckedYet]
    );
    assert_eq!(cow_status_as_str(&CowStatus::HappilyGrazing), "happily_grazing");
    assert_eq!(cow_status_as_str(&CowStatus::RanAway), "ran_away");
    assert_eq!(cow_status_as_str(&CowStatus::HaveNotCheckedYet), "have_not_checked_yet");
}

#[test]
fn durations_are_counted_in_seconds() {
    assert_eq!(Duration::new_from_minutes(15).seconds(), 900);
    assert_eq!(Duration::new_from_hours(2).seconds(), 7200);
    assert_eq!(Duration::new_from_hours(u64::MAX).seconds(), (u64::MAX as i128) * 3600);
    assert_eq!(at(10).since(&at(25)).seconds(), -15);
    assert_eq!(at(i64::MAX).since(&at(i64::MIN)).seconds(), (i64::MAX as i128) - (i64::MIN as i128));
    assert!(Duration::new_from_minutes(61).is_longer_than(&Duration::new_from_hours(1)));
    assert!(!Duration::new_from_minutes(60).is_longer_than(&Duration::new_from_hours(1)));
    assert!(Duration::new_from_minutes(59).is_shorter_than(&Duration::new_from_hours(1)));
    assert!(!Duration::new_from_minutes(60).is_shorter_than(&Duration::new_from_hours(1)));
}

fn cow(url: &str, character: Character) -> Cow {
    Cow::new(name(url), character)
}

#[test]
fn a_herd_has_no_two_cows_of_one_name() {
    let a = || cow("https://a.example.com/cow.txt", Character::Brave);
    let b = || cow("https://b.example.com/cow.txt", Character::Shy);
    assert_eq!(Herd::new(vec![a(), b(), a()]).unwrap_err(), Error::DuplicateCow);
    assert_eq!(Herd::new(vec![a(), a(), b()]).unwrap_err(), Error::DuplicateCow);
    assert_eq!(Herd::new(vec![b(), a(), a()]).unwrap_err(), Error::DuplicateCow);
    assert_eq!(Herd::new(vec![a(), a()]).unwrap_err(), Error::DuplicateCow);
    let shy_a = cow("https://a.example.com/cow.txt", Character::Shy);
    assert_eq!(Herd::new(vec![a(), b(), shy_a]).unwrap_err(), Error::DuplicateCow);
    let same_a = cow("HTTPS://A.example.com:443/cow.txt", Character::Brave);
    assert_eq!(Herd::new(vec![b(), same_a, a()]).unwrap_err(), Error::DuplicateCow);
}

#[test]
fn a_herd_keeps_its_cows_in_order() {
    let urls = [
        "https://c.example.com/cow.txt",
        "https://a.example.com/cow.txt",
        "https://b.example.com/cow.txt",
        "https://a.example.com/x/cow.txt",
    ];
    let herd = Herd::new(urls.iter().map(|u| cow(u, Character::Brave)).collect()).unwrap();
    let kept: Vec<&str> = herd.cows().iter().map(|c| c.name().url()).collect();
    assert_eq!(kept, urls);
    let copy = herd.clone();
    let copied: Vec<&str> = copy.cows().iter().map(|c| c.name().url()).collect();
    assert_eq!(copied, urls);
    assert!(Herd::new(vec![cow(urls[0], Character::Shy)]).is_ok());
}

#[test]
fn a_herd_is_not_empty() {
    assert_eq!(Herd::new(vec![]).unwrap_err(), Error::EmptyHerd);
}

fn shown_urls(herd: &CensoredHerd) -> Vec<String> {
    herd.cows().iter().map(|c| c.name().url().to_string()).collect()
}

#[test]
fn brave_cows_come_first_and_by_name() {
    let cows = vec![
        cow("https://zebra.example.com/cow.txt", Character::Shy),
        cow("https://c.example.com/cow.txt", Character::Brave),
        cow("https://a.example.com/cow.txt", Character::Brave),
        cow("https://yak.example.org/cow.txt", Character::Shy),
        cow("https://b.example.com/cow.txt", Character::Brave),
        cow("https://a.example.com/a/cow.txt", Character::Brave),
    ];
    for _ in 0..20 {
        let censored = cows.iter().map(|c| CensoredCow::new(c).unwrap()).collect();
        let herd = CensoredHerd::new(censored);
        let urls = shown_urls(&herd);
        assert_eq!(
            urls[..4],
            [
                "https://a.example.com/a/cow.txt",
                "https://a.example.com/cow.txt",
                "https://b.example.com/cow.txt",
                "https://c.example.com/cow.txt",
            ]
        );
        let mut shy = urls[4..].to_vec();
        shy.sort();
        assert_eq!(shy, ["https://*****.*******.com/cow.txt", "https://***.*******.org/cow.txt"]);
        for c in &herd.cows()[4..] {
            assert!(matches!(c.name(), Name::Censored(_)));
            assert_eq!(*c.character(), Character::Shy);
        }
    }
}

#[test]
fn shy_cows_stand_where_chance_puts_them() {
    let mut cows = Vec::new();
    for i in 0..8 {
        let mut c = cow(&format!("https://farm{}.example.com/cow.txt", i), Character::Shy);
        c.mark_as_missing(&at(i));
        cows.push(c);
    }
    let stamps = |herd: &CensoredHerd| -> Vec<i64> {
        herd.cows().iter().map(|c| c.last_checked().unwrap().timestamp()).collect()
    };
    let first = stamps(&CensoredHerd::new(cows.iter().map(|c| CensoredCow::new(c).unwrap()).collect()));
    let mut moved = false;
    for _ in 0..50 {
        let next = stamps(&CensoredHerd::new(cows.iter().map(|c| CensoredCow::new(c).unwrap()).collect()));
        let mut sorted = next.clone();
        sorted.sort();
        assert_eq!(sorted, [0, 1, 2, 3, 4, 5, 6, 7]);
        if next != first {
            moved = true;
        }
    }
    assert!(moved);
}

#[test]
fn sorting_for_display_keeps_shy_cows_as_they_stood() {
    let mut cows = Vec::new();
    for (i, (url, character)) in [
        ("https://s1.example.com/cow.txt", Character::Shy),
        ("https://b.example.com/cow.txt", Character::Brave),
        ("https://s2.example.com/cow.txt", Character::Shy),
        ("https://a.example.com/cow.txt", Character::Brave),
        ("https://s3.example.com/cow.txt", Character::Shy),
    ]
    .iter()
    .enumerate()
    {
        let mut c = cow(url, *character);
        c.mark_as_missing(&at(i as i64));
        cows.push(CensoredCow::new(&c).unwrap());
    }
    moooodotfarm::domain::censored_herd::sort_for_display(&mut cows);
    let stamps: Vec<i64> = cows.iter().map(|c| c.last_checked().unwrap().timestamp()).collect();
    assert_eq!(stamps, [3, 1, 0, 2, 4]);
}

#[test]
fn a_shown_herd_counts_its_cows() {
    let mut grazing = cow("https://a.example.com/cow.txt", Character::Brave);
    grazing.mark_as_ok(&at(1000));
    let mut away = cow("https://b.example.com/cow.txt", Character::Shy);
    away.mark_as_missing(&at(1000));
    let mut long_gone = cow("https://c.example.com/cow.txt", Character::Brave);
    long_gone.mark_as_ok(&at(1000 - 24 * HOUR));
    let unchecked = cow("https://d.example.com/cow.txt", Character::Brave);
    let censored = [&grazing, &away, &long_gone, &unchecked]
        .iter()
        .map(|c| CensoredCow::new(c).unwrap())
        .collect();
    let herd = ShownHerd::new(&CensoredHerd::new(censored), &at(1000));
    let numbers = herd.numbers();
    assert_eq!(numbers.happily_grazing, 1);
    assert_eq!(numbers.ran_away, 2);
    assert_eq!(numbers.have_not_checked_yet, 1);
    assert_eq!(numbers.of(&CowStatus::RanAway), 2);
    assert_eq!(numbers.of(&CowStatus::HappilyGrazing), 1);
    assert_eq!(numbers.of(&CowStatus::HaveNotCheckedYet), 1);
    let rows = herd.cows();
    assert_eq!(rows.len(), 4);
    assert_eq!(rows[0].name().url(), "https://a.example.com/cow.txt");
    assert_eq!(*rows[0].status(), CowStatus::HappilyGrazing);
    assert_eq!(rows[0].last_seen(), Some(&at(1000)));
    assert_eq!(*rows[0].character(), Character::Brave);
    assert_eq!(rows[1].name().url(), "https://c.example.com/cow.txt");
    assert_eq!(*rows[1].status(), CowStatus::RanAway);
    assert_eq!(rows[2].name().url(), "https://d.example.com/cow.txt");
    assert_eq!(*rows[2].status(), CowStatus::HaveNotCheckedYet);
    assert_eq!(rows[2].last_seen(), None);
    assert_eq!(rows[3].name().url(), "https://*.*******.com/cow.txt");
    assert_eq!(*rows[3].status(), CowStatus::RanAway);
}
