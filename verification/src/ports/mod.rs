//! What the ports of the farm show of it.

pub mod http;
