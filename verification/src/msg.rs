use vstd::prelude::*;

verus! {

/// Configuration payload accepted by the initializer: the initial percentage
/// of collected rewards to auto-convert.
#[derive(Clone, Copy, Debug, PartialEq, Eq, Structural)]
pub struct InstantiateMsg {
    pub convert_fraction: u128,
}

/// Tagged action message; the action dispatcher routes each variant to its
/// handler. Unknown tags never reach the dispatcher: the host's codec rejects
/// them first.
#[derive(Clone, Copy, Debug, PartialEq, Eq, Structural)]
pub enum ExecuteMsg {
    /// Overwrite the convert-fraction parameter.
    UpdateConvertFraction { percentage: u128 },
    /// Trigger a collect-and-convert cycle.
    CollectAndConvert {},
}

/// Tagged read-only query message.
#[derive(Clone, Copy, Debug, PartialEq, Eq, Structural)]
pub enum QueryMsg {
    /// Return the full persistent record.
    GetState {},
}

/// Ambient context of one invocation: the caller identity, carried
/// unforgeably by the host. No normalization is applied to it.
#[derive(Debug)]
pub struct MessageInfo {
    pub sender: String,
}

/// Ambient environment of one invocation: block height and block time.
/// The present handlers never read it; it is carried so that the entry
/// points keep the shape the host dispatches to, and for the
/// reward-collection engine to consume once it lands.
#[derive(Clone, Copy, Debug, PartialEq, Eq, Structural)]
pub struct Env {
    pub block_height: u64,
    pub block_time_seconds: u64,
}

} // verus!
