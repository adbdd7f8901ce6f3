//! The ways in which preparing or submitting a swap can fail.

use vstd::prelude::*;

verus! {

/// A value of the configuration that is read once at startup.
#[derive(Clone, Copy, Debug, PartialEq, Eq, Structural)]
pub enum ConfigField {
    /// The URL of the node's WebSocket endpoint.
    Endpoint,
    /// The address of the sending account.
    AccountAddress,
    /// The private key of the sending account.
    PrivateKey,
}

/// Why a step failed. No failure is retried or recovered from: the first one
/// ends the run.
#[derive(Clone, Copy, Debug, PartialEq, Eq, Structural)]
pub enum SwapError {
    /// A configuration value is absent.
    ConfigMissing(ConfigField),
    /// A configuration value is present but not well formed.
    ConfigMalformed(ConfigField),
    /// The system clock reports a time before the Unix epoch.
    ClockBeforeEpoch,
    /// A sum does not fit in the width of its integer type.
    ArithmeticOverflow,
    /// A swap path names fewer than two tokens.
    PathTooShort,
    /// A swap path names more tokens than a call can hold.
    PathTooLong,
    /// The call could not be encoded against the interface definition.
    Encoding,
    /// The node or the connection to it failed.
    Network,
    /// An event arrived that the current stage does not take.
    UnexpectedEvent,
}

} // verus!
