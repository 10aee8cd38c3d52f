//! What the pages of the farm show.

use crate::app;
use crate::domain::censorship::{Name, NameView};
use crate::text;
use vstd::prelude::*;

verus! {

/// The media type of a file of the farm, by the end of its path.
pub open spec fn mime_type_of(path: Seq<char>) -> Option<Seq<char>> {
    if ".png"@.is_suffix_of(path) {
        Some("image/png"@)
    } else if ".ico"@.is_suffix_of(path) {
        Some("image/x-icon"@)
    } else if ".txt"@.is_suffix_of(path) {
        Some("text/plain; charset=utf-8"@)
    } else {
        None
    }
}

/// The media type under which the file of the path is served; none for a
/// file of a kind that the farm does not serve.
pub fn get_mime_type(path: &str) -> (res: Result<&'static str, ()>)
    ensures
        match res {
            Ok(mime_type) => mime_type_of(path@) == Some(mime_type@),
            Err(_) => mime_type_of(path@) is None,
        },
{
    let path = text::to_chars(path);
    if text::ends_with(&path, &text::to_chars(".png")) {
        Ok("image/png")
    } else if text::ends_with(&path, &text::to_chars(".ico")) {
        Ok("image/x-icon")
    } else if text::ends_with(&path, &text::to_chars(".txt")) {
        Ok("text/plain; charset=utf-8")
    } else {
        Err(())
    }
}

/// Whether a name is shown as it is or censored.
#[derive(Debug, Clone, Copy, PartialEq, Eq, Structural)]
pub enum TemplateCowNameKind {
    Visible,
    Censored,
}

impl TemplateCowNameKind {
    /// The kind of the name.
    pub fn new(name: &Name) -> (kind: TemplateCowNameKind)
        ensures
            kind == match name@ {
                NameView::Visible(_) => TemplateCowNameKind::Visible,
                NameView::Censored(_) => TemplateCowNameKind::Censored,
            },
    {
        match name {
            Name::Visible(_) => TemplateCowNameKind::Visible,
            Name::Censored(_) => TemplateCowNameKind::Censored,
        }
    }
}

/// How a cow is doing, as a page says it.
#[derive(Debug, Clone, Copy, PartialEq, Eq, Structural)]
pub enum CowStatus {
    HappilyGrazing,
    RanAway,
    HaveNotCheckedYet,
}

/// The words for a status on a page.
pub open spec fn status_text(status: CowStatus) -> Seq<char> {
    match status {
        CowStatus::HappilyGrazing => "happily-grazing"@,
        CowStatus::RanAway => "ran-away"@,
        CowStatus::HaveNotCheckedYet => "have-not-checked-yet"@,
    }
}

impl CowStatus {
    /// The status as a page says it.
    pub fn new(status: &app::CowStatus) -> (shown: CowStatus)
        ensures
            shown == match *status {
                app::CowStatus::HappilyGrazing => CowStatus::HappilyGrazing,
                app::CowStatus::RanAway => CowStatus::RanAway,
                app::CowStatus::HaveNotCheckedYet => CowStatus::HaveNotCheckedYet,
            },
    {
        match status {
            app::CowStatus::HappilyGrazing => CowStatus::HappilyGrazing,
            app::CowStatus::RanAway => CowStatus::RanAway,
            app::CowStatus::HaveNotCheckedYet => CowStatus::HaveNotCheckedYet,
        }
    }

    /// The words for the status.
    pub fn to_string(&self) -> (text: String)
        ensures
            text@ == status_text(*self),
    {
        match self {
            CowStatus::HappilyGrazing => "happily-grazing".to_owned(),
            CowStatus::RanAway => "ran-away".to_owned(),
            CowStatus::HaveNotCheckedYet => "have-not-checked-yet".to_owned(),
        }
    }
}

} // verus!
