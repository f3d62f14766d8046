//! Verified core of a SIP2 protocol gateway: connection admission,
//! per-connection protocol state machine, payment allocation, and the
//! monitor-to-dispatcher coordination channel.

pub mod actor;
pub mod conf;
pub mod init;
pub mod method;
pub mod monitor;
pub mod payment;
pub mod reactor;
pub mod server;
pub mod session;
pub mod sipmsg;
pub mod text;
pub mod values;
pub mod wire;
