//! The boundary with the native stack: the events that it reports and the
//! requests that are made of it.

use vstd::prelude::*;
use crate::device::{Device, DeviceView};

verus! {

/// The power state of the native Bluetooth manager.
#[derive(Debug, Clone, Copy, PartialEq, Eq, Structural)]
pub enum ManagerState {
    Unknown,
    Resetting,
    Unsupported,
    Unauthorized,
    PoweredOff,
    PoweredOn,
}

impl ManagerState {
    /// The state that the native stack encodes as `raw`.
    pub open spec fn spec_from_raw(raw: usize) -> ManagerState {
        if raw == 1 {
            ManagerState::Resetting
        } else if raw == 2 {
            ManagerState::Unsupported
        } else if raw == 3 {
            ManagerState::Unauthorized
        } else if raw == 4 {
            ManagerState::PoweredOff
        } else if raw == 5 {
            ManagerState::PoweredOn
        } else {
            ManagerState::Unknown
        }
    }

    /// Decodes the number under which the native stack reports a state. A
    /// number that stands for no state is read as `Unknown`.
    pub fn from_raw(raw: usize) -> (state: ManagerState)
        ensures
            state == ManagerState::spec_from_raw(raw),
    {
        if raw == 1 {
            ManagerState::Resetting
        } else if raw == 2 {
            ManagerState::Unsupported
        } else if raw == 3 {
            ManagerState::Unauthorized
        } else if raw == 4 {
            ManagerState::PoweredOff
        } else if raw == 5 {
            ManagerState::PoweredOn
        } else {
            ManagerState::Unknown
        }
    }
}

/// What a native callback reports.
#[derive(Debug)]
pub enum NativeEvent {
    /// The scan found a device.
    DeviceFound(Device),
    /// Service discovery found a characteristic with this raw property bitmask.
    CharacteristicDiscovered { id: String, properties: i32 },
    /// A characteristic's value arrived.
    DataReceived(Vec<u8>),
    GattConnected,
    GattDisconnected,
    /// The native manager changed its power state.
    AdapterStateChanged(ManagerState),
}

/// What a `NativeEvent` holds, as plain values.
pub enum NativeEventView {
    DeviceFound(DeviceView),
    CharacteristicDiscovered { id: Seq<char>, properties: i32 },
    DataReceived(Seq<u8>),
    GattConnected,
    GattDisconnected,
    AdapterStateChanged(ManagerState),
}

impl View for NativeEvent {
    type V = NativeEventView;

    open spec fn view(&self) -> NativeEventView {
        match self {
            NativeEvent::DeviceFound(device) => NativeEventView::DeviceFound(device@),
            NativeEvent::CharacteristicDiscovered { id, properties } => {
                NativeEventView::CharacteristicDiscovered { id: id@, properties: *properties }
            },
            NativeEvent::DataReceived(bytes) => NativeEventView::DataReceived(bytes@),
            NativeEvent::GattConnected => NativeEventView::GattConnected,
            NativeEvent::GattDisconnected => NativeEventView::GattDisconnected,
            NativeEvent::AdapterStateChanged(state) => NativeEventView::AdapterStateChanged(
                *state,
            ),
        }
    }
}

/// What the caller has to ask of the native stack after an operation.
#[derive(Debug)]
pub enum NativeRequest {
    StartScan,
    /// Connect to the device with this address.
    Connect { address: String },
    Disconnect,
    /// Write `data` to a characteristic, with or without a response.
    WriteCharacteristic { session: usize, characteristic: String, data: Vec<u8>, with_response: bool },
    SetNotification { session: usize, characteristic: String, enabled: bool },
    SetIndication { session: usize, characteristic: String, enabled: bool },
}

/// What a `NativeRequest` holds, as plain values.
pub enum NativeRequestView {
    StartScan,
    Connect { address: Seq<char> },
    Disconnect,
    WriteCharacteristic {
        session: nat,
        characteristic: Seq<char>,
        data: Seq<u8>,
        with_response: bool,
    },
    SetNotification { session: nat, characteristic: Seq<char>, enabled: bool },
    SetIndication { session: nat, characteristic: Seq<char>, enabled: bool },
}

impl View for NativeRequest {
    type V = NativeRequestView;

    open spec fn view(&self) -> NativeRequestView {
        match self {
            NativeRequest::StartScan => NativeRequestView::StartScan,
            NativeRequest::Connect { address } => NativeRequestView::Connect { address: address@ },
            NativeRequest::Disconnect => NativeRequestView::Disconnect,
            NativeRequest::WriteCharacteristic { session, characteristic, data, with_response } => {
                NativeRequestView::WriteCharacteristic {
                    session: *session as nat,
                    characteristic: characteristic@,
                    data: data@,
                    with_response: *with_response,
                }
            },
            NativeRequest::SetNotification { session, characteristic, enabled } => {
                NativeRequestView::SetNotification {
                    session: *session as nat,
                    characteristic: characteristic@,
                    enabled: *enabled,
                }
            },
            NativeRequest::SetIndication { session, characteristic, enabled } => {
                NativeRequestView::SetIndication {
                    session: *session as nat,
                    characteristic: characteristic@,
                    enabled: *enabled,
                }
            },
        }
    }
}

} // verus!
