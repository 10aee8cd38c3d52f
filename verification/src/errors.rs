//! The ways in which the library's operations fail.

use vstd::prelude::*;

verus! {

/// Why an operation of the library was refused or could not be completed.
#[derive(Debug, Clone, PartialEq, Eq)]
pub enum Error {
    /// The downloaded text, held here, is too far from the expected cow.
    CowIsNotPresent(String),
    /// The name is invalid: it is not a well-formed absolute URL.
    InvalidUrl,
    /// The name is invalid: the path of its URL does not end with the tail
    /// that every cow has.
    MissingTail,
    /// The name cannot be censored: its URL has no host.
    NoHost,
    /// The name cannot be censored: its host has no top-level domain.
    NoTld,
    /// A herd needs at least one cow.
    EmptyHerd,
    /// Two cows share a name: two of one herd, or one to be taken in and one
    /// that the inventory holds already.
    DuplicateCow,
    /// The inventory holds no cow of that name.
    CowDoesNotExist,
    /// The cow already has the character it was asked to take.
    CharacterAlreadySet,
    /// The text names no character.
    InvalidCharacter,
    /// The text names no environment.
    InvalidEnvironment,
    /// The configuration gives no address for HTTP.
    EmptyHttpAddress,
    /// The configuration gives no address for gRPC.
    EmptyGrpcAddress,
    /// The configuration gives no path for the database.
    EmptyDatabasePath,
    /// The text is not a point in time in the format asked for.
    InvalidDateTime,
    /// The point in time cannot be written in the format asked for.
    CannotFormatDateTime,
    /// The inventory could not be read or written; the adapter's message.
    Inventory(String),
    /// The cow could not be downloaded; the adapter's message.
    Download(String),
    /// An update pass could not persist the cows of these names.
    UpdateIncomplete(Vec<String>),
}

} // verus!
