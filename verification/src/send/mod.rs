//! Sending through Messages.app.
pub mod apple;
pub mod laws;
pub mod script;
pub mod stub;

pub use apple::{send, send_with_db};
