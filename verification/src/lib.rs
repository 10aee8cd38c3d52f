//! A farm that looks after cows. A cow is a text file that someone serves
//! under a URL ending with `/cow.txt`. The farm keeps a herd of such URLs,
//! comes by every now and then to see whether each cow is still there,
//! remembers when it first saw it, last saw it and last looked, and tells
//! from that how the cow is doing. The owner of a shy cow stays unknown:
//! wherever the herd is shown, the name of a shy cow is censored, and the
//! order of the herd gives nothing away.
//!
//! [`domain`] holds the names, the cows, the herd, the test that tells a
//! cow from any other text, and what may be shown of a cow. [`app`] holds
//! the ports through which cows are kept, downloaded and counted, and the
//! handlers that work through them, the update pass first of all.
//! [`adapters`] holds the records in which cows are kept and an inventory
//! in memory, [`config`] the configuration, [`ports`] what the pages of the
//! farm say, and [`errors`] the ways in which all of this fails.
//!
//! The time is never read here: whoever calls says what time it is.

pub mod adapters;
pub mod app;
pub mod config;
pub mod domain;
pub mod errors;
pub mod ports;
pub mod text;
