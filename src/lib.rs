//! Length-prefixed binary framing for typed messages between peer nodes.

pub mod frame;
pub mod net;
pub mod payload;
pub mod protocol;
pub mod wire;
