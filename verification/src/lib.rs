//! Bookkeeping core of a multi-client session server: a registry of open
//! channels keyed by (client, channel), a per-connection session handler
//! with an accept-all public-key policy, and a broadcast rule that fans
//! every inbound payload out to every registered channel.
pub mod factory;
pub mod handler;
pub mod registry;

use vstd::prelude::*;

verus! {

/// Stub entry point with no behaviour of its own.
pub fn fake_server() {
}

} // verus!
