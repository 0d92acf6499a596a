//! `rs_imessage`: an agent-first iMessage toolkit for macOS. It reads
//! Messages' `chat.db`, follows new messages, and sends through Messages.app.
//! This crate holds the toolkit's decisions, each proved against its
//! contract; reading the database, watching files and running processes are
//! left to its caller, which hands the outcomes back.
pub mod cli;
pub mod client;
pub mod db;
pub mod env;
pub mod error;
pub mod http;
pub mod json;
pub mod paths;
pub mod private_api;
pub mod rpc;
pub mod send;
pub mod stub_store;
pub mod text;
pub mod time;
pub mod types;
pub mod watch;

pub use client::{Client, ClientConfig};

use vstd::prelude::*;

verus! {

/// The name of the platform the toolkit runs on: `macos` there, and
/// `unsupported` anywhere else.
pub fn platform_name(is_macos: bool) -> (res: &'static str)
    ensures
        res@ == if is_macos {
            "macos"@
        } else {
            "unsupported"@
        },
{
    if is_macos {
        "macos"
    } else {
        "unsupported"
    }
}

} // verus!
