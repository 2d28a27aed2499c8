//! Verified core of the MemeMeow desktop helper: the preference store, the
//! hotkey mapping, the decisions of the fallback download and the rules
//! around the search service and the community's meme libraries.
//!
//! Nothing here touches the disk, the network or the window system. The
//! application around this crate does that, and hands plain values in.

use vstd::prelude::*;
use vstd::string::StringExecFns;

pub mod community;
pub mod config_manager;
pub mod endpoints;
pub mod error;
pub mod fetch;
pub mod hotkey;
pub mod meme_server;
pub mod preferences;
pub mod shortcut;
pub mod text;

verus! {

/// The greeting for `name`.
pub open spec fn greeting(name: Seq<char>) -> Seq<char> {
    "Hello, "@ + name + "! You've been greeted from Rust!"@
}

/// Greets `name`.
pub fn greet(name: &str) -> (r: String)
    ensures
        r@ == greeting(name@),
{
    let mut text = "Hello, ".to_string();
    text.append(name);
    text.append("! You've been greeted from Rust!");
    text
}

} // verus!
