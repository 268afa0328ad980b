//! Self-update protocol for a command-line tool.
//!
//! The library decides every step of an update attempt: whether the running
//! build is current, how the downloaded archive must look, when the staged
//! binary may replace the installed one, and how leftovers of an earlier
//! update are cleaned up. The surrounding process performs the filesystem,
//! network and process work and feeds each outcome back into the protocol.

pub mod digits;
pub mod errors;
pub mod identity;
pub mod laws;
pub mod paths;
pub mod update;
