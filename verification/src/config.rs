use vstd::prelude::*;

verus! {

/// Immutable startup parameters, read once when the connection is brought up.
#[derive(Clone, Copy, Debug, PartialEq, Eq, Structural)]
pub struct RPCConfig {
    /// The external application identifier the client connects on behalf of.
    pub app_id: u64,
    /// Whether to seed the activity with an elapsed-time start timestamp.
    pub show_time: bool,
}

/// The startup surface handed to the host environment: it carries the
/// configuration for the run-once startup routine and the per-tick sync check.
#[derive(Clone, Copy, Debug, PartialEq, Eq, Structural)]
pub struct RPCPlugin {
    /// The connection configuration.
    pub config: RPCConfig,
}

impl RPCPlugin {
    /// The name under which the host environment lists this bridge.
    pub fn name(&self) -> (n: &'static str)
        ensures
            n@ == "Discord Presence"@,
    {
        "Discord Presence"
    }
}

} // verus!
