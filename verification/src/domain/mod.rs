//! The herd's domain: names, cows, their history and what may be shown of
//! them.

pub mod censored_herd;
pub mod censorship;
pub mod cow;
pub mod cow_txt;
pub mod herd;
pub mod name;
pub mod order;
pub mod time;
pub mod trailing_space;

pub use censored_herd::CensoredHerd;
pub use censorship::{CensoredCow, CensoredName, Name};
pub use cow::{Character, Cow};
pub use cow_txt::CowTxt;
pub use herd::Herd;
pub use name::VisibleName;
