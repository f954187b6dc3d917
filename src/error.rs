use vstd::prelude::*;

use crate::gatt::CharacteristicRole;

verus! {

/// Every way an operation on the device can fail.
#[derive(Clone, Copy, Debug, PartialEq, Eq, Structural)]
pub enum FlowerError {
    /// The link-level connect or the service discovery failed.
    TransportError,
    /// Every allowed connection attempt failed.
    ConnectionTimeout,
    /// A characteristic the driver needs is not offered by the device.
    CharacteristicNotFound(CharacteristicRole),
    /// Reading a characteristic failed.
    ReadError,
    /// A read value does not have the expected shape.
    DecodeError,
    /// A notification frame is too short to decode.
    MalformedFrame,
    /// Writing the mode-switch command failed.
    ModeSwitchError,
    /// Enabling notifications failed.
    SubscriptionError,
    /// The transport reported a failure while tearing the link down.
    DisconnectError,
}

} // verus!
