//! Peer discovery for a gossip-based cluster: watches a plain-text file of
//! peer addresses and turns its lines into cluster member descriptors.

pub mod error;
pub mod launcher_client;
pub mod member;
pub mod watch_loop;
pub mod watcher;

pub use error::Error;
pub use member::Member;
pub use watch_loop::{BackendKind, WatchEvent};
pub use watcher::{PeerCallbacks, PeerWatcher, Resolution};

use vstd::prelude::*;

verus! {

/// The default gossip port, appended to a peer line that names no port of
/// its own.
pub const DEFAULT_GOSSIP_PORT: u16 = 9638;

} // verus!
