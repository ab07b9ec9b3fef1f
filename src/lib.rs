//! Watches files for modification events and drives a persistent child shell
//! through a fixed-capacity byte buffer.
//!
//! The library holds the logic: the bounded buffer, the registry of watch
//! handles, the resolution of raw notification records into paths, and the
//! dispatch state machine that orders execution before re-arming. The
//! notification queue and the child process themselves live with the caller.
use vstd::prelude::*;

pub mod buffer;
pub mod registry;
pub mod events;
pub mod watcher;

verus! {

} // verus!
