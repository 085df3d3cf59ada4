//! Both roles of the desktop-notification protocol, as verified logic over
//! typed wire values: the codec for hints and actions, the auto-close
//! policy, the server's per-request lifecycle and the client's correlation
//! of signals with the notification they belong to.

pub mod actions;
pub mod client;
pub mod guard;
pub mod hints;
pub mod lifecycle;
pub mod names;
pub mod notification;
pub mod server;
pub mod signals;
pub mod timeout;
pub mod wire;
