//! The failures that the bridge reports to its caller.

use vstd::prelude::*;

verus! {

/// Why an operation on the adapter, a connection or a characteristic was refused.
#[derive(Debug, Clone, Copy, PartialEq, Eq, Structural)]
pub enum BluetoothError {
    /// The native stack has not finished its own initialization.
    AdapterNotReady,
    /// The device is not in the registry of the current scan, or does not offer
    /// what was asked of it.
    DeviceUnavailable,
    /// The connection that the operation belongs to is closed.
    DeviceDisconnected,
}

impl BluetoothError {
    /// The variant's name as text.
    pub open spec fn spec_name(self) -> Seq<char> {
        match self {
            BluetoothError::AdapterNotReady => "AdapterNotReady"@,
            BluetoothError::DeviceUnavailable => "DeviceUnavailable"@,
            BluetoothError::DeviceDisconnected => "DeviceDisconnected"@,
        }
    }

    /// The variant's name, as the error is shown to a user.
    pub fn to_string(&self) -> (text: String)
        ensures
            text@ == self.spec_name(),
    {
        match self {
            BluetoothError::AdapterNotReady => "AdapterNotReady".to_owned(),
            BluetoothError::DeviceUnavailable => "DeviceUnavailable".to_owned(),
            BluetoothError::DeviceDisconnected => "DeviceDisconnected".to_owned(),
        }
    }
}

} // verus!
