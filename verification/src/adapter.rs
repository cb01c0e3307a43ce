//! The adapter: the one value that owns the registry of devices and the
//! event bridge, and that decides what each operation asks of the native
//! stack.

use vstd::prelude::*;
use crate::bridge::{session_of, BridgeState, EventBridge};
use crate::characteristic::{Characteristic, CharacteristicView};
use crate::connection::{Connection, ConnectionState, ConnectionView};
use crate::device::{text_of, Device, DeviceId, DeviceView};
use crate::error::BluetoothError;
use crate::laws::{step, Step};
use crate::message::{Message, MessageView};
use crate::native::{ManagerState, NativeEvent, NativeEventView, NativeRequest, NativeRequestView};
use crate::properties::Properties;
use crate::registry::{
    distinct_addresses, known, lookup, upsert, with_fetched_name, DeviceRegistry,
};

verus! {

/// The number of data messages that a channel retains, unless the adapter
/// is made with another.
pub const DEFAULT_RETENTION: usize = 20;

/// The adapter as a plain value.
pub struct AdapterState {
    /// Whether the native stack has finished its initialization.
    pub ready: bool,
    /// The devices that the current scan has found.
    pub devices: Seq<DeviceView>,
    /// The sessions and what waits for them.
    pub bridge: BridgeState,
}

impl AdapterState {
    /// The adapter as it is made: not ready, without devices or sessions.
    pub open spec fn init(retention: nat) -> AdapterState {
        AdapterState { ready: false, devices: Seq::empty(), bridge: BridgeState::init(retention) }
    }

    /// What holds of every adapter.
    pub open spec fn wf(self) -> bool {
        distinct_addresses(self.devices) && self.bridge.wf()
    }

    /// The message that an event of a session becomes for the session that
    /// is bound; events that belong to no session become none.
    pub open spec fn message_of(self, event: NativeEventView) -> Option<MessageView> {
        match event {
            NativeEventView::GattConnected => Some(MessageView::Connected),
            NativeEventView::GattDisconnected => Some(MessageView::Disconnected),
            NativeEventView::DataReceived(bytes) => Some(MessageView::Data(bytes)),
            NativeEventView::CharacteristicDiscovered { id, properties } => {
                match self.bridge.binding {
                    Some(session) => Some(
                        MessageView::CharacteristicDiscovered(
                            CharacteristicView {
                                id,
                                properties: Properties::spec_from_mask(properties),
                                session,
                            },
                        ),
                    ),
                    None => None,
                }
            },
            _ => None,
        }
    }

    /// The adapter after a native callback reported `event`.
    pub open spec fn after_event(self, event: NativeEventView) -> AdapterState {
        match event {
            NativeEventView::DeviceFound(device) => AdapterState {
                ready: self.ready,
                devices: upsert(self.devices, device),
                bridge: self.bridge,
            },
            NativeEventView::AdapterStateChanged(state) => AdapterState {
                ready: self.ready || state == ManagerState::PoweredOn,
                devices: self.devices,
                bridge: self.bridge,
            },
            _ => match self.message_of(event) {
                Some(message) => AdapterState {
                    ready: self.ready,
                    devices: self.devices,
                    bridge: self.bridge.deliver(message),
                },
                None => self,
            },
        }
    }

    /// The adapter after a scan was started: the registry begins anew.
    pub open spec fn scanning(self) -> AdapterState {
        AdapterState { ready: self.ready, devices: Seq::empty(), bridge: self.bridge }
    }

    /// Why a connect to `address` is refused, if it is.
    pub open spec fn connect_error(self, address: Seq<char>) -> Option<BluetoothError> {
        if !self.ready {
            Some(BluetoothError::AdapterNotReady)
        } else if !known(self.devices, address) {
            Some(BluetoothError::DeviceUnavailable)
        } else {
            None
        }
    }

    /// The adapter after a connect succeeded.
    pub open spec fn connected(self) -> AdapterState {
        AdapterState { ready: self.ready, devices: self.devices, bridge: self.bridge.open() }
    }

    /// The adapter after `session` was handed its next message.
    pub open spec fn received(self, session: nat) -> AdapterState {
        AdapterState { ready: self.ready, devices: self.devices, bridge: self.bridge.take(session) }
    }

    /// The adapter after `session` was given up.
    pub open spec fn released(self, session: nat) -> AdapterState {
        AdapterState {
            ready: self.ready,
            devices: self.devices,
            bridge: self.bridge.release(session),
        }
    }

    /// The adapter after a name was fetched for the device at `address`.
    pub open spec fn named(self, address: Seq<char>, fetched: Option<Seq<char>>) -> AdapterState {
        AdapterState {
            ready: self.ready,
            devices: with_fetched_name(self.devices, address, fetched),
            bridge: self.bridge,
        }
    }
}

/// The entry point of the library: owns the registry and the event bridge.
pub struct Adapter {
    ready: bool,
    registry: DeviceRegistry,
    bridge: EventBridge,
}

impl View for Adapter {
    type V = AdapterState;

    closed spec fn view(&self) -> AdapterState {
        AdapterState { ready: self.ready, devices: self.registry@, bridge: self.bridge@ }
    }
}

impl Adapter {
    /// An adapter that is not ready yet, with the default retention bound.
    pub fn new() -> (adapter: Result<Adapter, BluetoothError>)
        ensures
            adapter matches Ok(a) && a@ == AdapterState::init(DEFAULT_RETENTION as nat) && a@.wf(),
    {
        Ok(Adapter::with_retention(DEFAULT_RETENTION))
    }

    /// An adapter whose channels retain at most `retention` data messages.
    pub fn with_retention(retention: usize) -> (adapter: Adapter)
        ensures
            adapter@ == AdapterState::init(retention as nat),
            adapter@.wf(),
    {
        Adapter {
            ready: false,
            registry: DeviceRegistry::new(),
            bridge: EventBridge::new(retention),
        }
    }

    /// Whether the native stack has finished its initialization.
    pub fn is_ready(&self) -> (ready: bool)
        ensures
            ready == self@.ready,
            self@.wf(),
    {
        proof {
            use_type_invariant(&self.registry);
            use_type_invariant(&self.bridge);
            self.bridge.lemma_state_wf();
        }
        self.ready
    }

    /// The session that the native callbacks feed, if there is one.
    pub fn bound_session(&self) -> (session: Option<usize>)
        ensures
            session_of(session) == self@.bridge.binding,
    {
        self.bridge.binding()
    }

    /// How many sessions were opened so far.
    pub fn sessions_opened(&self) -> (opened: usize)
        ensures
            opened == self@.bridge.opened,
    {
        self.bridge.opened()
    }

    /// Starts a scan. The registry of the scan before is cleared, and the
    /// native stack has to be asked to scan.
    pub fn start_scan(&mut self) -> (outcome: Result<NativeRequest, BluetoothError>)
        ensures
            final(self)@.wf(),
            final(self)@ == step(old(self)@, Step::StartScan),
            match outcome {
                Ok(request) => {
                    &&& old(self)@.ready
                    &&& request@ == NativeRequestView::StartScan
                    &&& final(self)@ == old(self)@.scanning()
                },
                Err(e) => {
                    &&& !old(self)@.ready
                    &&& e == BluetoothError::AdapterNotReady
                    &&& final(self)@ == old(self)@
                },
            },
    {
        proof {
            use_type_invariant(&self.registry);
            use_type_invariant(&self.bridge);
            self.bridge.lemma_state_wf();
        }
        if !self.ready {
            return Err(BluetoothError::AdapterNotReady);
        }
        self.registry.clear();
        Ok(NativeRequest::StartScan)
    }

    /// A copy of every device that the scan has found so far.
    pub fn walk_devices(&self) -> (devices: Vec<Device>)
        ensures
            devices@.map_values(|d: Device| d@) == self@.devices,
    {
        self.registry.snapshot()
    }

    /// The name of a device, if the device and its name are known.
    pub fn get_device_name(&self, device_id: &DeviceId) -> (name: Option<String>)
        ensures
            text_of(name) == match lookup(self@.devices, device_id@) {
                Some(device) => device.name,
                None => None,
            },
    {
        match self.registry.get(device_id) {
            Some(device) => device.name,
            None => None,
        }
    }

    /// Takes in the name that the native stack gave for a device. A name
    /// that is there stays, and no answer changes nothing.
    pub fn resolve_name(&mut self, device_id: &DeviceId, fetched: Option<String>)
        ensures
            final(self)@ == old(self)@.named(device_id@, text_of(fetched)),
            final(self)@ == step(old(self)@, Step::ResolveName(device_id@, text_of(fetched))),
            final(self)@.wf(),
    {
        proof {
            use_type_invariant(&self.bridge);
            self.bridge.lemma_state_wf();
        }
        self.registry.resolve_name(device_id, fetched);
    }

    /// Opens a session with a device of the current scan and binds the
    /// native callbacks to it. The native stack has to be asked to connect;
    /// whether it did arrives later, as a message.
    pub fn connect(&mut self, device_id: DeviceId) -> (outcome: Result<
        (Connection, NativeRequest),
        BluetoothError,
    >)
        ensures
            final(self)@.wf(),
            final(self)@ == step(old(self)@, Step::Connect(device_id@)),
            match outcome {
                Ok((connection, request)) => {
                    &&& old(self)@.connect_error(device_id@) is None
                    &&& final(self)@ == old(self)@.connected()
                    &&& connection@ == (ConnectionView {
                        device: device_id@,
                        session: old(self)@.bridge.opened,
                        state: ConnectionState::Pending,
                    })
                    &&& request@ == (NativeRequestView::Connect { address: device_id@ })
                },
                Err(e) => {
                    &&& old(self)@.connect_error(device_id@) == Some(e)
                    &&& final(self)@ == old(self)@
                },
            },
    {
        proof {
            use_type_invariant(&self.registry);
            use_type_invariant(&self.bridge);
            self.bridge.lemma_state_wf();
        }
        if !self.ready {
            return Err(BluetoothError::AdapterNotReady);
        }
        if !self.registry.contains(&device_id) {
            return Err(BluetoothError::DeviceUnavailable);
        }
        let session = self.bridge.open();
        proof {
            use_type_invariant(&self.bridge);
            self.bridge.lemma_state_wf();
        }
        let address = device_id.address().to_owned();
        Ok((Connection::pending(device_id, session), NativeRequest::Connect { address }))
    }

    /// Hands out the next message that waits for `session`.
    pub(crate) fn receive(&mut self, session: usize) -> (message: Option<Message>)
        ensures
            final(self)@ == old(self)@.received(session as nat),
            final(self)@.wf(),
            match message {
                Some(m) => old(self)@.bridge.queue(session as nat).len() > 0 && m@ == old(
                    self,
                )@.bridge.queue(session as nat)[0],
                None => old(self)@.bridge.queue(session as nat).len() == 0,
            },
    {
        proof {
            use_type_invariant(&self.registry);
        }
        let message = self.bridge.try_recv(session);
        proof {
            use_type_invariant(&self.bridge);
            self.bridge.lemma_state_wf();
        }
        message
    }

    /// Gives up a connection: what still waited for it is dropped, and the
    /// native callbacks no longer feed it.
    pub fn release(&mut self, connection: &Connection)
        ensures
            final(self)@ == old(self)@.released(connection@.session),
            final(self)@ == step(old(self)@, Step::Release(connection@.session)),
            final(self)@.wf(),
    {
        proof {
            use_type_invariant(&self.registry);
        }
        self.bridge.release(connection.session());
        proof {
            use_type_invariant(&self.bridge);
            self.bridge.lemma_state_wf();
        }
    }

    /// Takes in a device that the scan found.
    pub fn on_device_found(&mut self, device: Device)
        ensures
            final(self)@ == old(self)@.after_event(NativeEventView::DeviceFound(device@)),
            final(self)@.wf(),
    {
        proof {
            use_type_invariant(&self.bridge);
            self.bridge.lemma_state_wf();
        }
        self.registry.insert(device);
    }

    /// Takes in a change of the native manager's power state. Once the
    /// manager was powered on, the adapter is ready for good.
    pub fn on_state_changed(&mut self, state: ManagerState)
        ensures
            final(self)@ == old(self)@.after_event(NativeEventView::AdapterStateChanged(state)),
            final(self)@.wf(),
    {
        proof {
            use_type_invariant(&self.registry);
            use_type_invariant(&self.bridge);
            self.bridge.lemma_state_wf();
        }
        if state == ManagerState::PoweredOn {
            self.ready = true;
        }
    }

    /// Takes in a message for the session that is bound.
    fn deliver(&mut self, message: Message)
        ensures
            final(self)@ == (AdapterState {
                ready: old(self)@.ready,
                devices: old(self)@.devices,
                bridge: old(self)@.bridge.deliver(message@),
            }),
            final(self)@.wf(),
    {
        proof {
            use_type_invariant(&self.registry);
        }
        self.bridge.deliver(message);
        proof {
            use_type_invariant(&self.bridge);
            self.bridge.lemma_state_wf();
        }
    }

    /// The device of the bound session connected.
    pub fn on_gatt_connected(&mut self)
        ensures
            final(self)@ == old(self)@.after_event(NativeEventView::GattConnected),
            final(self)@.wf(),
    {
        self.deliver(Message::Connected);
    }

    /// The device of the bound session disconnected.
    pub fn on_gatt_disconnected(&mut self)
        ensures
            final(self)@ == old(self)@.after_event(NativeEventView::GattDisconnected),
            final(self)@.wf(),
    {
        self.deliver(Message::Disconnected);
    }

    /// A characteristic's value arrived for the bound session.
    pub fn on_data_available(&mut self, data: Vec<u8>)
        ensures
            final(self)@ == old(self)@.after_event(NativeEventView::DataReceived(data@)),
            final(self)@.wf(),
    {
        self.deliver(Message::Data(data));
    }

    /// Service discovery found a characteristic for the bound session. Its
    /// raw property bitmask is decoded here, once.
    pub fn on_characteristic_discovered(&mut self, id: String, properties: i32)
        ensures
            final(self)@ == old(self)@.after_event(
                NativeEventView::CharacteristicDiscovered { id: id@, properties },
            ),
            final(self)@.wf(),
    {
        match self.bridge.binding() {
            Some(session) => {
                self.deliver(
                    Message::CharacteristicDiscovered(
                        Characteristic::discovered(id, properties, session),
                    ),
                );
            },
            None => {
                proof {
                    use_type_invariant(&self.registry);
                }
            },
        }
    }

    /// Takes in what a native callback reported.
    pub fn handle_event(&mut self, event: NativeEvent)
        ensures
            final(self)@ == old(self)@.after_event(event@),
            final(self)@ == step(old(self)@, Step::Event(event@)),
            final(self)@.wf(),
    {
        match event {
            NativeEvent::DeviceFound(device) => self.on_device_found(device),
            NativeEvent::CharacteristicDiscovered { id, properties } => {
                self.on_characteristic_discovered(id, properties)
            },
            NativeEvent::DataReceived(data) => self.on_data_available(data),
            NativeEvent::GattConnected => self.on_gatt_connected(),
            NativeEvent::GattDisconnected => self.on_gatt_disconnected(),
            NativeEvent::AdapterStateChanged(state) => self.on_state_changed(state),
        }
    }
}

} // verus!
