//! Watch-and-notify core: change classification, the subscriber registry and
//! the per-connection event-stream session.
pub mod config;
pub mod dispatch;
pub mod registry;
pub mod session;

pub use config::{validate_minmax, Event, VerboseInfo};
