//! Verified core of a presence bridge: it observes a mutable "current
//! activity" snapshot, detects when that snapshot changes, and forwards each
//! detected change as exactly one update call to an external presence client,
//! while lifecycle events emitted by that client's background connection are
//! collected in a shared, lock-guarded queue that the foreground drains in
//! arrival order.

/// Immutable startup parameters.
pub mod config;
/// The closed set of connection-lifecycle event kinds.
pub mod events;
/// The ordered event queue and its shared, lock-guarded handle.
pub mod queue;
/// The change-tracked activity snapshot.
pub mod state;
/// The per-tick synchronization routine and its laws.
pub mod sync;
/// The external presence client and the startup routine.
pub mod presence;

pub use config::{RPCConfig, RPCPlugin};
pub use events::EventKind;
pub use presence::{Client, StartupError};
pub use queue::{EventQueue, SharedEventQueue};
pub use state::{ActivityPayload, ActivityState, ActivityTimestamps, Mutation};
pub use sync::SyncOutcome;
