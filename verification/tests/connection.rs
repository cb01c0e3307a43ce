use quad_bt::{
    Adapter, BluetoothError, Characteristic, Connection, ConnectionState, Device, ManagerState,
    Message, NativeRequest,
};

fn session_with(address: &str) -> (Adapter, Connection) {
    let mut adapter = Adapter::new().unwrap();
    adapter.on_state_changed(ManagerState::PoweredOn);
    let device = Device { address: address.to_string(), name: None };
    let id = device.id();
    adapter.on_device_found(device);
    let (connection, _) = adapter.connect(id).unwrap();
    (adapter, connection)
}

fn discover(adapter: &mut Adapter, connection: &mut Connection, id: &str, mask: i32) -> Characteristic {
    adapter.on_characteristic_discovered(id.to_string(), mask);
    loop {
        match connection.try_recv(adapter) {
            Ok(Some(Message::CharacteristicDiscovered(c))) => return c,
            Ok(Some(_)) => {}
            _ => panic!("the characteristic did not arrive"),
        }
    }
}

#[test]
fn connected_makes_a_pending_connection_active() {
    let (mut adapter, mut connection) = session_with("AA");
    assert_eq!(connection.state(), ConnectionState::Pending);
    assert!(matches!(connection.try_recv(&mut adapter), Ok(None)));
    assert_eq!(connection.state(), ConnectionState::Pending);
    adapter.on_gatt_connected();
    assert_eq!(connection.state(), ConnectionState::Pending);
    assert!(matches!(connection.try_recv(&mut adapter), Ok(Some(Message::Connected))));
    assert_eq!(connection.state(), ConnectionState::Active);
}

#[test]
fn a_first_characteristic_makes_a_pending_connection_active() {
    let (mut adapter, mut connection) = session_with("AA");
    let _ = discover(&mut adapter, &mut connection, "c1", 0x02);
    assert_eq!(connection.state(), ConnectionState::Active);
}

#[test]
fn data_alone_leaves_the_state_as_it_is() {
    let (mut adapter, mut connection) = session_with("AA");
    adapter.on_data_available(vec![1]);
    assert!(matches!(connection.try_recv(&mut adapter), Ok(Some(Message::Data(_)))));
    assert_eq!(connection.state(), ConnectionState::Pending);
    adapter.on_gatt_connected();
    adapter.on_data_available(vec![2]);
    let _ = connection.try_recv(&mut adapter);
    let _ = connection.try_recv(&mut adapter);
    assert_eq!(connection.state(), ConnectionState::Active);
}

#[test]
fn disconnected_closes_the_connection_for_good() {
    let (mut adapter, mut connection) = session_with("AA");
    adapter.on_gatt_connected();
    adapter.on_gatt_disconnected();
    adapter.on_gatt_connected();
    let _ = connection.try_recv(&mut adapter);
    assert_eq!(connection.state(), ConnectionState::Active);
    assert!(matches!(connection.try_recv(&mut adapter), Ok(Some(Message::Disconnected))));
    assert_eq!(connection.state(), ConnectionState::Closed);
    assert!(matches!(connection.try_recv(&mut adapter), Ok(Some(Message::Connected))));
    assert_eq!(connection.state(), ConnectionState::Closed);
    assert!(matches!(connection.try_recv(&mut adapter), Ok(None)));
    assert_eq!(connection.state(), ConnectionState::Closed);
}

#[test]
fn disconnect_closes_and_asks_the_native_stack_once() {
    let (mut adapter, mut connection) = session_with("AA");
    adapter.on_gatt_connected();
    assert!(matches!(connection.disconnect(), Ok(Some(NativeRequest::Disconnect))));
    assert_eq!(connection.state(), ConnectionState::Closed);
    assert!(matches!(connection.disconnect(), Ok(None)));
    assert_eq!(connection.state(), ConnectionState::Closed);
    adapter.on_gatt_disconnected();
    assert!(matches!(connection.try_recv(&mut adapter), Ok(Some(Message::Connected))));
    assert!(matches!(connection.try_recv(&mut adapter), Ok(Some(Message::Disconnected))));
    assert!(matches!(connection.try_recv(&mut adapter), Ok(None)));
    assert_eq!(connection.state(), ConnectionState::Closed);
}

#[test]
fn observe_follows_the_state_machine() {
    let c = Message::Connected;
    let d = Message::Disconnected;
    let data = Message::Data(vec![1]);
    assert_eq!(ConnectionState::Pending.observe(&c), ConnectionState::Active);
    assert_eq!(ConnectionState::Pending.observe(&d), ConnectionState::Closed);
    assert_eq!(ConnectionState::Pending.observe(&data), ConnectionState::Pending);
    assert_eq!(ConnectionState::Active.observe(&c), ConnectionState::Active);
    assert_eq!(ConnectionState::Active.observe(&d), ConnectionState::Closed);
    assert_eq!(ConnectionState::Active.observe(&data), ConnectionState::Active);
    assert_eq!(ConnectionState::Closed.observe(&c), ConnectionState::Closed);
    assert_eq!(ConnectionState::Closed.observe(&d), ConnectionState::Closed);
    assert_eq!(ConnectionState::Closed.observe(&data), ConnectionState::Closed);
}

#[test]
fn device_id_is_stable() {
    let (mut adapter, mut connection) = session_with("AA:BB");
    assert_eq!(connection.device_id().address(), "AA:BB");
    adapter.on_gatt_disconnected();
    let _ = connection.try_recv(&mut adapter);
    let _ = connection.disconnect();
    assert_eq!(connection.device_id().address(), "AA:BB");
}

#[test]
fn send_bytes_asks_for_a_write_with_the_given_mode() {
    let (mut adapter, mut connection) = session_with("AA");
    let c = discover(&mut adapter, &mut connection, "c1", 0x08);
    match c.send_bytes(&connection, &[1, 2, 3], true) {
        Ok(NativeRequest::WriteCharacteristic { session, characteristic, data, with_response }) => {
            assert_eq!(session, connection.session());
            assert_eq!(characteristic, "c1");
            assert_eq!(data, vec![1, 2, 3]);
            assert!(with_response);
        }
        _ => panic!("a write was expected"),
    }
    assert!(matches!(
        c.send_bytes(&connection, &[], false),
        Ok(NativeRequest::WriteCharacteristic { data, with_response: false, .. }) if data.is_empty()
    ));
}

#[test]
fn send_string_writes_utf8_without_response() {
    let (mut adapter, mut connection) = session_with("AA");
    let c = discover(&mut adapter, &mut connection, "c1", 0x08);
    match c.send_string(&connection, "Uxx") {
        Ok(NativeRequest::WriteCharacteristic { characteristic, data, with_response, .. }) => {
            assert_eq!(characteristic, "c1");
            assert_eq!(data, vec![0x55, 0x78, 0x78]);
            assert!(!with_response);
        }
        _ => panic!("a write was expected"),
    }
    assert!(matches!(
        c.send_string(&connection, "\u{e9}\u{20ac}"),
        Ok(NativeRequest::WriteCharacteristic { data, .. }) if data == vec![0xc3, 0xa9, 0xe2, 0x82, 0xac]
    ));
}

#[test]
fn notification_and_indication_requests_carry_the_switch() {
    let (mut adapter, mut connection) = session_with("AA");
    let c = discover(&mut adapter, &mut connection, "c1", 0x30);
    assert!(matches!(
        c.set_notification(&connection, true),
        Ok(NativeRequest::SetNotification { characteristic, enabled: true, session: 0 }) if characteristic == "c1"
    ));
    assert!(matches!(
        c.set_notification(&connection, false),
        Ok(NativeRequest::SetNotification { enabled: false, .. })
    ));
    assert!(matches!(
        c.set_indication(&connection, true),
        Ok(NativeRequest::SetIndication { characteristic, enabled: true, session: 0 }) if characteristic == "c1"
    ));
    assert!(matches!(
        c.set_indication(&connection, false),
        Ok(NativeRequest::SetIndication { enabled: false, .. })
    ));
}

#[test]
fn a_missing_capability_is_reported() {
    let (mut adapter, mut connection) = session_with("AA");
    let read_only = discover(&mut adapter, &mut connection, "c1", 0x02);
    assert!(matches!(
        read_only.send_bytes(&connection, &[1], true),
        Err(BluetoothError::DeviceUnavailable)
    ));
    assert!(matches!(
        read_only.send_string(&connection, "x"),
        Err(BluetoothError::DeviceUnavailable)
    ));
    assert!(matches!(
        read_only.set_notification(&connection, true),
        Err(BluetoothError::DeviceUnavailable)
    ));
    assert!(matches!(
        read_only.set_indication(&connection, true),
        Err(BluetoothError::DeviceUnavailable)
    ));
    let notify_only = discover(&mut adapter, &mut connection, "c2", 0x10);
    assert!(notify_only.set_notification(&connection, true).is_ok());
    assert!(matches!(
        notify_only.set_indication(&connection, true),
        Err(BluetoothError::DeviceUnavailable)
    ));
    let indicate_only = discover(&mut adapter, &mut connection, "c3", 0x20);
    assert!(indicate_only.set_indication(&connection, true).is_ok());
    assert!(matches!(
        indicate_only.set_notification(&connection, true),
        Err(BluetoothError::DeviceUnavailable)
    ));
}

#[test]
fn a_characteristic_of_a_closed_connection_is_refused() {
    let (mut adapter, mut connection) = session_with("AA");
    let c = discover(&mut adapter, &mut connection, "c1", 0x38);
    assert!(c.send_bytes(&connection, &[1], false).is_ok());
    adapter.on_gatt_disconnected();
    assert!(c.send_bytes(&connection, &[1], false).is_ok());
    let _ = connection.try_recv(&mut adapter);
    assert_eq!(connection.state(), ConnectionState::Closed);
    assert!(matches!(c.send_bytes(&connection, &[1], false), Err(BluetoothError::DeviceDisconnected)));
    assert!(matches!(c.send_string(&connection, "x"), Err(BluetoothError::DeviceDisconnected)));
    assert!(matches!(c.set_notification(&connection, true), Err(BluetoothError::DeviceDisconnected)));
    assert!(matches!(c.set_indication(&connection, true), Err(BluetoothError::DeviceDisconnected)));
}

#[test]
fn a_characteristic_is_refused_after_disconnect_was_called() {
    let (mut adapter, mut connection) = session_with("AA");
    let c = discover(&mut adapter, &mut connection, "c1", 0x08);
    let _ = connection.disconnect();
    assert!(matches!(c.send_bytes(&connection, &[1], true), Err(BluetoothError::DeviceDisconnected)));
}

#[test]
fn a_closed_connection_comes_before_a_missing_capability() {
    let (mut adapter, mut connection) = session_with("AA");
    let c = discover(&mut adapter, &mut connection, "c1", 0x02);
    let _ = connection.disconnect();
    assert!(matches!(c.send_bytes(&connection, &[1], true), Err(BluetoothError::DeviceDisconnected)));
}

#[test]
fn a_characteristic_is_refused_on_another_connection() {
    let (mut adapter, mut first) = session_with("AA");
    let c = discover(&mut adapter, &mut first, "c1", 0x08);
    let device = Device { address: "AA".to_string(), name: None };
    let (second, _) = adapter.connect(device.id()).unwrap();
    assert!(matches!(c.send_bytes(&second, &[1], true), Err(BluetoothError::DeviceDisconnected)));
    assert!(c.send_bytes(&first, &[1], true).is_ok());
}

#[test]
fn a_characteristic_tells_its_identifier() {
    let (mut adapter, mut connection) = session_with("AA");
    let c = discover(&mut adapter, &mut connection, "6e400003-b5a3", 0x10);
    assert_eq!(c.id(), "6e400003-b5a3");
    assert_eq!(c.id(), c.id);
}

#[test]
fn a_characteristic_keeps_its_flags_when_cloned() {
    let (mut adapter, mut connection) = session_with("AA");
    let c = discover(&mut adapter, &mut connection, "c1", 0x3b);
    let copy = c.clone();
    assert_eq!(copy.id, "c1");
    assert_eq!(copy.properties(), c.properties());
    assert!(copy.read && copy.write && copy.notify && copy.indicate && copy.broadcast);
    assert_eq!(copy.session(), c.session());
}
