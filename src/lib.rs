//! A per-host container orchestration agent: the command-line argument
//! plans and output readers for the local container tool, the control
//! channel's connection state machine, the command dispatcher, the log
//! follower registry and the boot-time host provisioning sequence.

pub mod bytes;
pub mod channel;
pub mod followers;
pub mod protocol;
pub mod provision;
pub mod runtime;
pub mod text;
