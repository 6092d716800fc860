//! Focus-session blocker: hosts-file blocking, duration parsing and the
//! decision logic of the session daemon, verified with Verus.

pub mod text;
pub mod host;
pub mod duration;
pub mod non_empty_vec;
pub mod model;
pub mod fs_error;
pub mod order;
pub mod policy;
pub mod protocol;
pub mod session;
pub mod store;
pub mod daemon;
pub mod dispatch;
pub mod extension;
pub mod cli;
pub mod config;
pub mod framing;
pub mod gui;
