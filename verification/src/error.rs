//! What can go wrong in a heart-rate session or a compaction.

use vstd::prelude::*;

verus! {

/// A failure that ends a session attempt or a command, never the process.
#[derive(Clone, Copy, Debug, PartialEq, Eq, Structural)]
pub enum SessionError {
    /// The radio adapter refused to scan; the scan counts as empty.
    AdapterUnavailable,
    /// The configured address is not a hardware address.
    InvalidAddress,
    /// No scanned peripheral advertises the configured address.
    DeviceNotFound,
    /// The peripheral refused the connection.
    ConnectFailed,
    /// The peripheral's services could not be enumerated.
    DiscoverFailed,
    /// The peripheral refused the subscription.
    SubscribeFailed,
    /// The peripheral does not offer the heart-rate measurement.
    CharacteristicNotFound,
    /// A notification was too short to hold a reading.
    MalformedNotification,
    /// The sample store refused an operation.
    PersistenceFailure,
}

impl SessionError {
    /// The line shown to the operator for this failure.
    pub open spec fn spec_message(self) -> Seq<char> {
        match self {
            SessionError::AdapterUnavailable => "Adapter is not ready"@,
            SessionError::InvalidAddress => "Invalid device MAC"@,
            SessionError::DeviceNotFound => "Failed to find device"@,
            SessionError::ConnectFailed => "Failed to connect to device"@,
            SessionError::DiscoverFailed => "Failed to discover services"@,
            SessionError::SubscribeFailed => "Failed to subscribe to characteristic"@,
            SessionError::CharacteristicNotFound => "Characteristic not found"@,
            SessionError::MalformedNotification => "Notification is too short to hold a reading"@,
            SessionError::PersistenceFailure => "Failed to write heartrate data"@,
        }
    }

    /// The line shown to the operator for this failure.
    pub fn message(&self) -> (r: &'static str)
        ensures
            r@ == self.spec_message(),
    {
        match self {
            SessionError::AdapterUnavailable => "Adapter is not ready",
            SessionError::InvalidAddress => "Invalid device MAC",
            SessionError::DeviceNotFound => "Failed to find device",
            SessionError::ConnectFailed => "Failed to connect to device",
            SessionError::DiscoverFailed => "Failed to discover services",
            SessionError::SubscribeFailed => "Failed to subscribe to characteristic",
            SessionError::CharacteristicNotFound => "Characteristic not found",
            SessionError::MalformedNotification => "Notification is too short to hold a reading",
            SessionError::PersistenceFailure => "Failed to write heartrate data",
        }
    }
}

} // verus!
