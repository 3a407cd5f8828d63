use vstd::prelude::*;

verus! {

/// Why the connection pipeline stopped before it reached the listening stage.
#[derive(Clone, Copy, Debug, PartialEq, Eq, Structural)]
pub enum PipelineError {
    /// The configured characteristic identifier is not a valid identifier.
    InvalidIdentifier,
    /// The host exposes no adapter.
    NoAdapterFound,
    /// No visible peripheral advertises a matching name.
    DeviceNotFound,
    /// Opening the connection to the peripheral failed.
    ConnectError,
    /// Service and characteristic discovery failed.
    DiscoveryError,
    /// The discovered topology holds no characteristic with the identifier.
    CharacteristicNotFound,
    /// The transport rejected the subscribe request.
    SubscribeError,
    /// Any other failure of the underlying stack.
    Transport,
}

} // verus!
