//! Logic of a small console tool that finds audio playback devices, lets the
//! user pick one and follows the connection that is opened to it.
//!
//! Everything here works on plain values: the console and the device framework
//! stay with the caller, who hands in what happened and carries out what is
//! handed back.

pub mod device;
pub mod labels;
pub mod laws;
pub mod messages;
pub mod select;
pub mod session;
pub mod text;
