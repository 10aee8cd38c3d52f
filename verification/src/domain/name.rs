//! Names of cows: validated URLs that end with the tail every cow has.

use crate::errors::Error;
use crate::text;
use vstd::prelude::*;

verus! {

/// `url::ParseError`, the reason why `url::Url::parse` refuses a text.
/// Nothing is known of its values.
#[verifier::external_type_specification]
#[verifier::external_body]
pub struct ExUrlParseError(url::ParseError);

/// What the library reads of a parsed URL.
pub struct UrlRecord {
    /// The URL as the parser serialises it.
    pub url: Seq<char>,
    pub scheme: Seq<char>,
    pub host: Option<Seq<char>>,
    pub port: Option<u16>,
    pub path: Seq<char>,
}

/// The record that `url::Url::parse` makes of `input`; `None` where it
/// refuses `input`.
pub uninterp spec fn parsed_url(input: Seq<char>) -> Option<UrlRecord>;

/// Parsing the serialisation of `record` gives `record` again. The parser
/// does not see to this: there are URLs that it serialises to a text which
/// it then reads as another URL. `VisibleName::parses_to_itself` tests it.
pub open spec fn parses_to_itself(record: UrlRecord) -> bool {
    parsed_url(record.url) == Some(record)
}

/// The tail of every cow's path.
pub const COW_SUFFIX: &'static str = "/cow.txt";

/// The tail of every cow's path, as characters.
pub open spec fn cow_suffix() -> Seq<char> {
    seq!['/', 'c', 'o', 'w', '.', 't', 'x', 't']
}

/// Whether `path` ends with the tail of every cow's path.
pub open spec fn has_tail(path: Seq<char>) -> bool {
    cow_suffix().is_suffix_of(path)
}

/// The name that `input` stands for, or the reason why it is none: it must
/// be a URL, and the path of the URL must end with the tail of every cow.
pub open spec fn name_of(input: Seq<char>) -> Result<UrlRecord, Error> {
    match parsed_url(input) {
        None => Err(Error::InvalidUrl),
        Some(record) => if has_tail(record.path) {
            Ok(record)
        } else {
            Err(Error::MissingTail)
        },
    }
}

/// The canonical text of a name is itself a name, and the same one, where
/// the parser reads the canonical text as the URL that it stands for.
pub proof fn lemma_canonical_text_is_the_same_name(input: Seq<char>, name: UrlRecord)
    requires
        name_of(input) == Ok::<UrlRecord, Error>(name),
        parses_to_itself(name),
    ensures
        name_of(name.url) == Ok::<UrlRecord, Error>(name),
{
}

/// The parts of a parsed URL, as owned plain values.
#[derive(Debug, PartialEq, Eq, PartialOrd, Ord, Hash)]
struct UrlParts {
    url: String,
    scheme: String,
    host: Option<String>,
    port: Option<u16>,
    path: String,
}

impl UrlParts {
    spec fn record(&self) -> UrlRecord {
        UrlRecord {
            url: self.url@,
            scheme: self.scheme@,
            host: match self.host {
                Some(host) => Some(host@),
                None => None,
            },
            port: self.port,
            path: self.path@,
        }
    }
}

/// Calls `url::Url::parse` and copies out, through `Url::as_str`,
/// `Url::scheme`, `Url::host_str`, `Url::port` and `Url::path`, what the
/// library reads of the result. Trusted: that the outcome is a function of
/// `input` alone. Nothing is claimed of what the parser makes of its own
/// serialisations.
#[verifier::external_body]
fn parse_url(input: &str) -> (res: Result<UrlParts, url::ParseError>)
    ensures
        match res {
            Ok(parts) => parsed_url(input@) == Some(parts.record()),
            Err(_) => parsed_url(input@) is None,
        },
{
    let url = url::Url::parse(input)?;
    Ok(
        UrlParts {
            url: url.as_str().to_string(),
            scheme: url.scheme().to_string(),
            host: url.host_str().map(|host| host.to_string()),
            port: url.port(),
            path: url.path().to_string(),
        },
    )
}

/// The tail of every cow's path, as characters.
pub fn cow_suffix_chars() -> (suffix: Vec<char>)
    ensures
        suffix@ == cow_suffix(),
{
    proof {
        reveal_strlit("/cow.txt");
    }
    let suffix = text::to_chars(COW_SUFFIX);
    suffix
}

/// The name of a cow as its owner wrote it: an absolute URL whose path ends
/// with `/cow.txt`.
#[derive(Debug, PartialEq, Eq, PartialOrd, Ord, Hash)]
pub struct VisibleName {
    parts: UrlParts,
}

impl View for VisibleName {
    type V = UrlRecord;

    closed spec fn view(&self) -> UrlRecord {
        self.parts.record()
    }
}

impl UrlParts {
    /// Whether the two hold the same values.
    fn same_as(&self, other: &UrlParts) -> (same: bool)
        ensures
            same == (self.record() == other.record()),
    {
        let same_host = match (&self.host, &other.host) {
            (Some(a), Some(b)) => text::str_eq(a.as_str(), b.as_str()),
            (None, None) => true,
            _ => false,
        };
        let same_port = match (self.port, other.port) {
            (Some(a), Some(b)) => a == b,
            (None, None) => true,
            _ => false,
        };
        text::str_eq(self.url.as_str(), other.url.as_str()) && text::str_eq(
            self.scheme.as_str(),
            other.scheme.as_str(),
        ) && same_host && same_port && text::str_eq(self.path.as_str(), other.path.as_str())
    }

    /// Whether parsing the serialisation gives the same parts again.
    fn parses_to_itself(&self) -> (stable: bool)
        ensures
            stable == parses_to_itself(self.record()),
    {
        match parse_url(self.url.as_str()) {
            Ok(again) => again.same_as(self),
            Err(_) => false,
        }
    }

    fn duplicate(&self) -> (res: Self)
        ensures
            res.record() == self.record(),
    {
        UrlParts {
            url: self.url.clone(),
            scheme: self.scheme.clone(),
            host: match &self.host {
                Some(host) => Some(host.clone()),
                None => None,
            },
            port: self.port,
            path: self.path.clone(),
        }
    }
}

impl Clone for VisibleName {
    fn clone(&self) -> (res: Self)
        ensures
            res@ == self@,
    {
        proof {
            use_type_invariant(self);
        }
        VisibleName { parts: self.parts.duplicate() }
    }
}

impl VisibleName {
    #[verifier::type_invariant]
    spec fn valid(self) -> bool {
        has_tail(self.parts.record().path)
    }

    /// Parses and validates a name: `s` must be an absolute URL, and the
    /// path of the URL must end with `/cow.txt`.
    pub fn new(s: &str) -> (res: Result<VisibleName, Error>)
        ensures
            match res {
                Ok(name) => name_of(s@) == Ok::<UrlRecord, Error>(name@),
                Err(e) => name_of(s@) == Err::<UrlRecord, Error>(e),
            },
    {
        match parse_url(s) {
            Err(_) => Err(Error::InvalidUrl),
            Ok(parts) => {
                let path = text::to_chars(parts.path.as_str());
                let suffix = cow_suffix_chars();
                if text::ends_with(&path, &suffix) {
                    Ok(VisibleName { parts })
                } else {
                    Err(Error::MissingTail)
                }
            },
        }
    }

    /// Whether the canonical text of the name is read as this name again.
    /// It is for all but a few names; who keeps names by their canonical
    /// text finds the others again under another name.
    pub fn parses_to_itself(&self) -> (stable: bool)
        ensures
            stable == parses_to_itself(self@),
    {
        self.parts.parses_to_itself()
    }

    /// The canonical text of the name. Where the parser reads it as the URL
    /// that it stands for, it is itself accepted as a name, and stands for
    /// this one.
    pub fn url(&self) -> (url: &str)
        ensures
            url@ == self@.url,
            parses_to_itself(self@) ==> name_of(url@) == Ok::<UrlRecord, Error>(self@),
    {
        proof {
            use_type_invariant(self);
        }
        self.parts.url.as_str()
    }

    /// The scheme of the URL.
    pub fn scheme(&self) -> (scheme: &str)
        ensures
            scheme@ == self@.scheme,
    {
        self.parts.scheme.as_str()
    }

    /// The host of the URL, if it has one.
    pub fn host(&self) -> (host: Option<&str>)
        ensures
            match host {
                Some(host) => self@.host == Some(host@),
                None => self@.host is None,
            },
    {
        match &self.parts.host {
            Some(host) => Some(host.as_str()),
            None => None,
        }
    }

    /// The port of the URL, if it names one that is not the default of its
    /// scheme.
    pub fn port(&self) -> (port: Option<u16>)
        ensures
            port == self@.port,
    {
        self.parts.port
    }

    /// The path of the URL, which ends with the tail of every cow.
    pub fn path(&self) -> (path: &str)
        ensures
            path@ == self@.path,
            has_tail(path@),
    {
        proof {
            use_type_invariant(self);
        }
        self.parts.path.as_str()
    }
}

} // verus!
