//! Looking at a cow without keeping anything.

use crate::app::{CowTxtDownloader, Metrics};
use crate::domain::cow_txt::{cow_is_present, CowTxt};
use crate::domain::name::VisibleName;
use crate::errors::Error;
use vstd::prelude::*;

verus! {

/// The order to look at the cow of a name.
#[derive(Debug)]
pub struct CheckCow {
    name: VisibleName,
}

impl CheckCow {
    pub fn new(name: VisibleName) -> (v: CheckCow)
        ensures
            v.spec_name() == name@,
    {
        CheckCow { name }
    }

    /// The name of the cow to look at.
    pub closed spec fn spec_name(&self) -> crate::domain::name::UrlRecord {
        self.name@
    }

    pub fn name(&self) -> (name: &VisibleName)
        ensures
            name@ == self.spec_name(),
    {
        &self.name
    }
}

/// What was found when a cow was looked at: its text.
#[derive(Debug)]
pub struct CheckCowResult {
    cow_txt: CowTxt,
}

impl CheckCowResult {
    pub fn new(cow_txt: CowTxt) -> (result: CheckCowResult)
        ensures
            result.spec_cow_txt() == cow_txt@,
    {
        CheckCowResult { cow_txt }
    }

    /// The text that was found.
    pub closed spec fn spec_cow_txt(&self) -> Seq<char> {
        self.cow_txt@
    }

    pub fn cow_txt(&self) -> (cow_txt: &CowTxt)
        ensures
            cow_txt@ == self.spec_cow_txt(),
    {
        &self.cow_txt
    }
}

/// What a download shows: the text if it is a cow, the text in
/// `Error::CowIsNotPresent` if it is none, and the failure of the download
/// if it failed.
pub fn look_at(downloaded: Result<String, Error>, cow_body: &str) -> (res: Result<
    CheckCowResult,
    Error,
>)
    ensures
        match downloaded {
            Err(e) => res == Err::<CheckCowResult, Error>(e),
            Ok(body) => if cow_is_present(body@, cow_body@) {
                res matches Ok(result) && result.spec_cow_txt() == body@
            } else {
                res == Err::<CheckCowResult, Error>(Error::CowIsNotPresent(body))
            },
        },
{
    let body = match downloaded {
        Ok(body) => body,
        Err(e) => {
            return Err(e);
        },
    };
    match CowTxt::new(body, cow_body) {
        Ok(cow_txt) => Ok(CheckCowResult::new(cow_txt)),
        Err(e) => Err(e),
    }
}

/// Looks at cows.
pub struct CheckCowHandler<D, M> {
    downloader: D,
    metrics: M,
    cow_body: String,
}

impl<D, M> CheckCowHandler<D, M> where D: CowTxtDownloader, M: Metrics {
    /// A handler that takes for a cow what is close enough to `cow_body`.
    pub fn new(downloader: D, metrics: M, cow_body: String) -> (handler: Self)
        ensures
            handler.numbers() == metrics.herd_numbers(),
            handler.cow_body() == cow_body@,
    {
        Self { downloader, metrics, cow_body }
    }

    /// The text that the handler expects of a cow.
    pub closed spec fn cow_body(&self) -> Seq<char> {
        self.cow_body@
    }

    /// The numbers that the handler's metrics hold.
    pub closed spec fn numbers(&self) -> crate::app::HerdNumbers {
        self.metrics.herd_numbers()
    }

    pub fn metrics(&self) -> (metrics: &M)
        ensures
            metrics.herd_numbers() == self.numbers(),
    {
        &self.metrics
    }

    /// Downloads the text found under the name and hands it back if it is
    /// a cow.
    pub fn check_cow(&mut self, v: CheckCow) -> (res: Result<CheckCowResult, Error>)
        ensures
            final(self).cow_body() == old(self).cow_body(),
            final(self).numbers() == old(self).numbers(),
            match res {
                Ok(result) => cow_is_present(result.spec_cow_txt(), old(self).cow_body()),
                Err(e) => e is Download || e is CowIsNotPresent,
            },
    {
        let downloaded = self.downloader.download(v.name());
        look_at(downloaded, self.cow_body.as_str())
    }
}

} // verus!
