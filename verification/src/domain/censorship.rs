//! What may be shown of a cow: the names of shy cows are censored, and a
//! herd is put in an order that gives away none of them.

use crate::domain::cow::{Character, Cow, CowView};
use crate::domain::name::{cow_suffix_chars, UrlRecord, VisibleName};
use crate::domain::time::DateTime;
use crate::errors::Error;
use crate::text;
use vstd::prelude::*;

verus! {

/// The character that stands for a censored one.
pub const CENSORSHIP_CHARACTER: char = '*';

/// The separator of the segments of a path, which censoring keeps.
pub const PATH_SEPARATOR: char = '/';

/// The separator of the labels of a host, which censoring keeps.
pub const DOMAIN_SEPARATOR: char = '.';

/// What is shown of the character `c`: itself if it is the separator, the
/// censorship character if not.
pub open spec fn censored_char(c: char, separator: char) -> char {
    if c == separator {
        separator
    } else {
        CENSORSHIP_CHARACTER
    }
}

/// `s` with every character censored but the separators.
pub open spec fn censored(s: Seq<char>, separator: char) -> Seq<char> {
    Seq::new(s.len(), |i: int| censored_char(s[i], separator))
}

/// The position of the last `c` in `s`.
pub open spec fn last_position(s: Seq<char>, c: char) -> Option<int>
    decreases s.len(),
{
    if s.len() == 0 {
        None
    } else if s.last() == c {
        Some(s.len() - 1)
    } else {
        last_position(s.drop_last(), c)
    }
}

/// The host with all censored that stands before its last label; the last
/// label stays, with the separator before it.
pub open spec fn censored_host(host: Option<Seq<char>>) -> Result<Seq<char>, Error> {
    match host {
        None => Err(Error::NoHost),
        Some(host) => match last_position(host, DOMAIN_SEPARATOR) {
            None => Err(Error::NoTld),
            Some(dot) => Ok(censored(host.take(dot), DOMAIN_SEPARATOR) + host.skip(dot)),
        },
    }
}

/// The path with all censored that stands before the tail of every cow.
pub open spec fn censored_path(path: Seq<char>) -> Seq<char>
    recommends
        crate::domain::name::has_tail(path),
{
    censored(path.take(path.len() - crate::domain::name::cow_suffix().len()), PATH_SEPARATOR)
        + crate::domain::name::cow_suffix()
}

/// The decimal digit that stands for `d`.
pub open spec fn digit(d: nat) -> char
    recommends
        d < 10,
{
    if d == 0 {
        '0'
    } else if d == 1 {
        '1'
    } else if d == 2 {
        '2'
    } else if d == 3 {
        '3'
    } else if d == 4 {
        '4'
    } else if d == 5 {
        '5'
    } else if d == 6 {
        '6'
    } else if d == 7 {
        '7'
    } else if d == 8 {
        '8'
    } else {
        '9'
    }
}

/// `n` in decimal digits, without leading zeros.
pub open spec fn decimal(n: nat) -> Seq<char>
    decreases n,
{
    if n < 10 {
        seq![digit(n)]
    } else {
        decimal(n / 10).push(digit(n % 10))
    }
}

/// The port as it stands in a URL: nothing, or a colon and the number.
pub open spec fn port_with_colon(port: Option<u16>) -> Seq<char> {
    match port {
        None => Seq::empty(),
        Some(port) => seq![':'] + decimal(port as nat),
    }
}

/// The censored form of a name: scheme, censored host, port, censored path.
pub open spec fn censored_url(name: UrlRecord) -> Result<Seq<char>, Error> {
    match censored_host(name.host) {
        Err(e) => Err(e),
        Ok(host) => Ok(
            name.scheme + seq![':', '/', '/'] + host + port_with_colon(name.port) + censored_path(
                name.path,
            ),
        ),
    }
}

/// What is shown in place of a cow's name: the name itself for a brave cow,
/// its censored form for a shy one.
pub open spec fn shown_url(cow: CowView) -> Result<Seq<char>, Error> {
    if cow.character == Character::Brave {
        Ok(cow.name.url)
    } else {
        censored_url(cow.name)
    }
}

/// Appends `s[from..to]` to `out`, censored.
fn push_censored(out: &mut Vec<char>, s: &Vec<char>, from: usize, to: usize, separator: char)
    requires
        from <= to <= s.len(),
    ensures
        final(out)@ == old(out)@ + censored(s@.subrange(from as int, to as int), separator),
{
    let mut i: usize = from;
    while i < to
        invariant
            from <= i <= to <= s.len(),
            out@ == old(out)@ + censored(s@.subrange(from as int, i as int), separator),
        decreases to - i,
    {
        let c = s[i];
        if c == separator {
            out.push(separator);
        } else {
            out.push(CENSORSHIP_CHARACTER);
        }
        i += 1;
    }
}

/// The position of the last `c` in `s`.
fn find_last(s: &Vec<char>, c: char) -> (found: Option<usize>)
    ensures
        match found {
            Some(i) => last_position(s@, c) == Some(i as int) && i < s.len(),
            None => last_position(s@, c) is None,
        },
{
    let mut i: usize = s.len();
    assert(s@.take(i as int) =~= s@);
    while i > 0
        invariant
            i <= s.len(),
            last_position(s@, c) == last_position(s@.take(i as int), c),
        decreases i,
    {
        assert(s@.take(i as int).drop_last() =~= s@.take(i - 1));
        if s[i - 1] == c {
            return Some(i - 1);
        }
        i -= 1;
    }
    None
}

fn digit_char(d: u16) -> (c: char)
    requires
        d < 10,
    ensures
        c == digit(d as nat),
{
    if d == 0 {
        '0'
    } else if d == 1 {
        '1'
    } else if d == 2 {
        '2'
    } else if d == 3 {
        '3'
    } else if d == 4 {
        '4'
    } else if d == 5 {
        '5'
    } else if d == 6 {
        '6'
    } else if d == 7 {
        '7'
    } else if d == 8 {
        '8'
    } else {
        '9'
    }
}

/// Appends `n` in decimal digits to `out`.
fn push_decimal(out: &mut Vec<char>, n: u16)
    ensures
        final(out)@ == old(out)@ + decimal(n as nat),
    decreases n,
{
    if n >= 10 {
        push_decimal(out, n / 10);
    }
    out.push(digit_char(n % 10));
}

/// The censored form of `name`.
pub fn censor(name: &VisibleName) -> (res: Result<String, Error>)
    ensures
        match res {
            Ok(url) => censored_url(name@) == Ok::<Seq<char>, Error>(url@),
            Err(e) => censored_url(name@) == Err::<Seq<char>, Error>(e),
        },
{
    let host = match name.host() {
        Some(host) => text::to_chars(host),
        None => {
            return Err(Error::NoHost);
        },
    };
    let dot = match find_last(&host, DOMAIN_SEPARATOR) {
        Some(dot) => dot,
        None => {
            return Err(Error::NoTld);
        },
    };
    let path = text::to_chars(name.path());
    let suffix = cow_suffix_chars();
    let mut out = text::to_chars(name.scheme());
    out.push(':');
    out.push('/');
    out.push('/');
    push_censored(&mut out, &host, 0, dot, DOMAIN_SEPARATOR);
    text::push_range(&mut out, &host, dot, host.len());
    match name.port() {
        Some(port) => {
            out.push(':');
            push_decimal(&mut out, port);
        },
        None => {},
    }
    let before = path.len() - suffix.len();
    push_censored(&mut out, &path, 0, before, PATH_SEPARATOR);
    text::push_range(&mut out, &suffix, 0, suffix.len());
    proof {
        assert(out@ =~= censored_url(name@)->Ok_0);
    }
    Ok(text::from_chars(&out))
}

/// Censoring keeps the length, keeps every separator where it stands and
/// makes no new one.
pub proof fn lemma_censoring_keeps_separators(s: Seq<char>, separator: char)
    requires
        separator != CENSORSHIP_CHARACTER,
    ensures
        censored(s, separator).len() == s.len(),
        forall|i: int|
            0 <= i < s.len() ==> (#[trigger] censored(s, separator)[i] == separator <==> s[i]
                == separator),
{
}

/// Censoring what is censored already changes nothing.
pub proof fn lemma_censoring_is_idempotent(s: Seq<char>, separator: char)
    ensures
        censored(censored(s, separator), separator) == censored(s, separator),
{
}

/// `last_position` gives the position of a `c` after which no `c` stands.
pub proof fn lemma_last_position(s: Seq<char>, c: char)
    ensures
        match last_position(s, c) {
            Some(i) => 0 <= i < s.len() && s[i] == c && forall|j: int|
                i < j < s.len() ==> s[j] != c,
            None => forall|j: int| 0 <= j < s.len() ==> s[j] != c,
        },
    decreases s.len(),
{
    if s.len() > 0 && s.last() != c {
        let front = s.drop_last();
        lemma_last_position(front, c);
        assert forall|j: int| 0 <= j < front.len() implies front[j] == s[j] by {}
        match last_position(front, c) {
            Some(i) => {
                assert forall|j: int| i < j < s.len() implies s[j] != c by {
                    if j < front.len() {
                        assert(front[j] != c);
                    }
                }
            },
            None => {
                assert forall|j: int| 0 <= j < s.len() implies s[j] != c by {
                    if j < front.len() {
                        assert(front[j] != c);
                    }
                }
            },
        }
    }
}

/// A position of `c` after which no `c` stands is what `last_position` gives.
pub proof fn lemma_last_position_is(s: Seq<char>, c: char, i: int)
    requires
        0 <= i < s.len(),
        s[i] == c,
        forall|j: int| i < j < s.len() ==> s[j] != c,
    ensures
        last_position(s, c) == Some(i),
{
    lemma_last_position(s, c);
}

/// Censoring a censored host changes nothing: the separators and the last
/// label are where they were.
pub proof fn lemma_censored_host_is_stable(host: Seq<char>)
    ensures
        censored_host(Some(host)) matches Ok(once) ==> censored_host(Some(once)) == Ok::<
            Seq<char>,
            Error,
        >(once),
{
    if let Some(dot) = last_position(host, DOMAIN_SEPARATOR) {
        lemma_last_position(host, DOMAIN_SEPARATOR);
        let once = censored(host.take(dot), DOMAIN_SEPARATOR) + host.skip(dot);
        assert forall|j: int| dot < j < once.len() implies once[j] != DOMAIN_SEPARATOR by {
            assert(once[j] == host[j]);
        }
        lemma_last_position_is(once, DOMAIN_SEPARATOR, dot);
        assert(once.take(dot) =~= censored(host.take(dot), DOMAIN_SEPARATOR));
        assert(once.skip(dot) =~= host.skip(dot));
        lemma_censoring_is_idempotent(host.take(dot), DOMAIN_SEPARATOR);
    }
}

/// A censored path still ends with the tail of every cow, and censoring it
/// again changes nothing.
pub proof fn lemma_censored_path_is_stable(path: Seq<char>)
    requires
        crate::domain::name::has_tail(path),
    ensures
        crate::domain::name::has_tail(censored_path(path)),
        censored_path(censored_path(path)) == censored_path(path),
{
    let suffix = crate::domain::name::cow_suffix();
    let before = path.take(path.len() - suffix.len());
    let once = censored_path(path);
    lemma_censoring_is_idempotent(before, PATH_SEPARATOR);
}

/// Censoring is stable on the whole name: the name put together from the
/// scheme, the censored host, the port and the censored path has the same
/// censored form as the name itself.
pub proof fn lemma_censoring_is_stable(name: UrlRecord)
    requires
        crate::domain::name::has_tail(name.path),
    ensures
        censored_url(name) matches Ok(once) ==> censored_url(
            UrlRecord {
                url: once,
                scheme: name.scheme,
                host: Some(censored_host(name.host)->Ok_0),
                port: name.port,
                path: censored_path(name.path),
            },
        ) == Ok::<Seq<char>, Error>(once),
{
    if let Some(host) = name.host {
        lemma_censored_host_is_stable(host);
    }
    lemma_censored_path_is_stable(name.path);
}

/// Whether `read` has the parts of which the censored form of `name` was
/// put together: its scheme, its censored host, its port and its censored
/// path.
pub open spec fn read_as_censored(name: UrlRecord, read: UrlRecord) -> bool {
    &&& censored_host(name.host) matches Ok(host)
    &&& read.scheme == name.scheme
    &&& read.host == Some(host)
    &&& read.port == name.port
    &&& read.path == censored_path(name.path)
}

/// A censored name that is read as it was written is a name again, and
/// censoring it gives the same text once more. Whether a parser reads a
/// censored text as it was written is its own affair, and nothing is said
/// of it here.
pub proof fn lemma_censored_name_is_censored_the_same(name: UrlRecord, read: UrlRecord)
    requires
        crate::domain::name::has_tail(name.path),
        read_as_censored(name, read),
    ensures
        crate::domain::name::has_tail(read.path),
        censored_url(read) == censored_url(name),
        censored_url(name) is Ok,
{
    if let Some(host) = name.host {
        lemma_censored_host_is_stable(host);
    }
    lemma_censored_path_is_stable(name.path);
}

/// The name of a cow as it is shown where the cow's owner must stay
/// unknown.
#[derive(Debug, PartialEq, Eq)]
pub struct CensoredName {
    url: String,
}

impl View for CensoredName {
    type V = Seq<char>;

    closed spec fn view(&self) -> Seq<char> {
        self.url@
    }
}

impl Clone for CensoredName {
    fn clone(&self) -> (res: Self)
        ensures
            res@ == self@,
    {
        CensoredName { url: self.url.clone() }
    }
}

impl CensoredName {
    /// What is shown in place of the name of `cow`. Refused for a shy cow
    /// whose URL has no host, or whose host has no separator.
    pub fn new(cow: &Cow) -> (res: Result<CensoredName, Error>)
        ensures
            match res {
                Ok(name) => shown_url(cow@) == Ok::<Seq<char>, Error>(name@),
                Err(e) => shown_url(cow@) == Err::<Seq<char>, Error>(e),
            },
    {
        match cow.character() {
            Character::Brave => Ok(CensoredName { url: cow.name().url().to_owned() }),
            Character::Shy => match censor(cow.name()) {
                Ok(url) => Ok(CensoredName { url }),
                Err(e) => Err(e),
            },
        }
    }

    pub fn url(&self) -> (url: &str)
        ensures
            url@ == self@,
    {
        self.url.as_str()
    }
}

/// A name as plain values.
pub enum NameView {
    Visible(UrlRecord),
    Censored(Seq<char>),
}

impl NameView {
    /// The text that is shown for the name.
    pub open spec fn url(self) -> Seq<char> {
        match self {
            NameView::Visible(name) => name.url,
            NameView::Censored(url) => url,
        }
    }
}

/// The name under which a cow is shown.
#[derive(Debug)]
pub enum Name {
    Visible(VisibleName),
    Censored(CensoredName),
}

impl View for Name {
    type V = NameView;

    open spec fn view(&self) -> NameView {
        match self {
            Name::Visible(name) => NameView::Visible(name@),
            Name::Censored(name) => NameView::Censored(name@),
        }
    }
}

impl Clone for Name {
    fn clone(&self) -> (res: Self)
        ensures
            res@ == self@,
    {
        match self {
            Name::Visible(name) => Name::Visible(name.clone()),
            Name::Censored(name) => Name::Censored(name.clone()),
        }
    }
}

/// The name under which `cow` is shown.
pub open spec fn shown_name(cow: CowView) -> Result<NameView, Error> {
    match cow.character {
        Character::Brave => Ok(NameView::Visible(cow.name)),
        Character::Shy => match censored_url(cow.name) {
            Ok(url) => Ok(NameView::Censored(url)),
            Err(e) => Err(e),
        },
    }
}

impl Name {
    /// The name under which `cow` is shown: its own if it is brave, the
    /// censored one if it is shy.
    pub fn new(cow: &Cow) -> (res: Result<Name, Error>)
        ensures
            match res {
                Ok(name) => shown_name(cow@) == Ok::<NameView, Error>(name@),
                Err(e) => shown_name(cow@) == Err::<NameView, Error>(e),
            },
    {
        match cow.character() {
            Character::Brave => Ok(Name::Visible(cow.name().clone())),
            Character::Shy => match CensoredName::new(cow) {
                Ok(name) => Ok(Name::Censored(name)),
                Err(e) => Err(e),
            },
        }
    }

    /// The text that is shown for the name.
    pub fn url(&self) -> (url: &str)
        ensures
            url@ == self@.url(),
    {
        match self {
            Name::Visible(name) => name.url(),
            Name::Censored(name) => name.url(),
        }
    }
}

/// A censored cow as plain values.
pub struct CensoredCowView {
    pub name: NameView,
    pub character: Character,
    pub first_seen: Option<DateTime>,
    pub last_seen: Option<DateTime>,
    pub last_checked: Option<DateTime>,
}

/// What is shown of `cow`.
pub open spec fn shown_cow(cow: CowView) -> Result<CensoredCowView, Error> {
    match shown_name(cow) {
        Ok(name) => Ok(
            CensoredCowView {
                name,
                character: cow.character,
                first_seen: cow.first_seen,
                last_seen: cow.last_seen,
                last_checked: cow.last_checked,
            },
        ),
        Err(e) => Err(e),
    }
}

/// A cow as it may be shown: with its history, under the name that its
/// character allows.
#[derive(Debug)]
pub struct CensoredCow {
    name: Name,
    character: Character,
    first_seen: Option<DateTime>,
    last_seen: Option<DateTime>,
    last_checked: Option<DateTime>,
}

impl View for CensoredCow {
    type V = CensoredCowView;

    closed spec fn view(&self) -> CensoredCowView {
        CensoredCowView {
            name: self.name@,
            character: self.character,
            first_seen: self.first_seen,
            last_seen: self.last_seen,
            last_checked: self.last_checked,
        }
    }
}

impl Clone for CensoredCow {
    fn clone(&self) -> (res: Self)
        ensures
            res@ == self@,
    {
        CensoredCow {
            name: self.name.clone(),
            character: self.character,
            first_seen: self.first_seen,
            last_seen: self.last_seen,
            last_checked: self.last_checked,
        }
    }
}

impl CensoredCow {
    /// What is shown of `cow`. Refused where its name cannot be censored.
    pub fn new(cow: &Cow) -> (res: Result<CensoredCow, Error>)
        ensures
            match res {
                Ok(censored) => shown_cow(cow@) == Ok::<CensoredCowView, Error>(censored@),
                Err(e) => shown_cow(cow@) == Err::<CensoredCowView, Error>(e),
            },
    {
        let name = match Name::new(cow) {
            Ok(name) => name,
            Err(e) => {
                return Err(e);
            },
        };
        Ok(
            CensoredCow {
                name,
                character: *cow.character(),
                first_seen: DateTime::copy_of(cow.first_seen()),
                last_seen: DateTime::copy_of(cow.last_seen()),
                last_checked: DateTime::copy_of(cow.last_checked()),
            },
        )
    }

    pub fn name(&self) -> (name: &Name)
        ensures
            name@ == self@.name,
    {
        &self.name
    }

    pub fn character(&self) -> (character: &Character)
        ensures
            *character == self@.character,
    {
        &self.character
    }

    pub fn first_seen(&self) -> (first_seen: Option<&DateTime>)
        ensures
            first_seen.is_some() == self@.first_seen.is_some(),
            first_seen matches Some(t) ==> self@.first_seen == Some(*t),
    {
        self.first_seen.as_ref()
    }

    pub fn last_seen(&self) -> (last_seen: Option<&DateTime>)
        ensures
            last_seen.is_some() == self@.last_seen.is_some(),
            last_seen matches Some(t) ==> self@.last_seen == Some(*t),
    {
        self.last_seen.as_ref()
    }

    pub fn last_checked(&self) -> (last_checked: Option<&DateTime>)
        ensures
            last_checked.is_some() == self@.last_checked.is_some(),
            last_checked matches Some(t) ==> self@.last_checked == Some(*t),
    {
        self.last_checked.as_ref()
    }
}

} // verus!
