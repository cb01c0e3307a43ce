//! A characteristic of a connected device, with what it declares it can do.

use vstd::prelude::*;
use vstd::slice::slice_to_vec;
use vstd::utf8::encode_utf8;
use crate::connection::{Connection, ConnectionState, ConnectionView};
use crate::error::BluetoothError;
use crate::native::{NativeRequest, NativeRequestView};
use crate::properties::Properties;

verus! {

/// A characteristic that service discovery reported on one connection.
///
/// The flags are decoded once, when the characteristic is discovered. The
/// session names the connection that discovered it.
#[derive(Debug)]
pub struct Characteristic {
    pub id: String,
    pub write: bool,
    pub read: bool,
    pub notify: bool,
    pub indicate: bool,
    pub broadcast: bool,
    session: usize,
}

/// What a `Characteristic` holds, as plain values.
pub struct CharacteristicView {
    pub id: Seq<char>,
    pub properties: Properties,
    pub session: nat,
}

impl CharacteristicView {
    /// Whether `connection` is the one that discovered this characteristic,
    /// and is not closed.
    pub open spec fn usable_on(self, connection: ConnectionView) -> bool {
        connection.session == self.session && connection.state != ConnectionState::Closed
    }

    /// Why an operation that needs a capability is refused, if it is. A
    /// connection that is closed, or is not the owner, comes first.
    pub open spec fn refusal(self, connection: ConnectionView, capable: bool) -> Option<
        BluetoothError,
    > {
        if !self.usable_on(connection) {
            Some(BluetoothError::DeviceDisconnected)
        } else if !capable {
            Some(BluetoothError::DeviceUnavailable)
        } else {
            None
        }
    }
}

impl View for Characteristic {
    type V = CharacteristicView;

    closed spec fn view(&self) -> CharacteristicView {
        CharacteristicView {
            id: self.id@,
            properties: Properties {
                read: self.read,
                write: self.write,
                notify: self.notify,
                indicate: self.indicate,
                broadcast: self.broadcast,
            },
            session: self.session as nat,
        }
    }
}

impl Clone for Characteristic {
    fn clone(&self) -> (copy: Self)
        ensures
            copy@ == self@,
    {
        Characteristic {
            id: self.id.clone(),
            write: self.write,
            read: self.read,
            notify: self.notify,
            indicate: self.indicate,
            broadcast: self.broadcast,
            session: self.session,
        }
    }
}

impl Characteristic {
    /// The characteristic that `session` discovered under `id`, with the
    /// capabilities that its raw bitmask declares.
    pub(crate) fn discovered(id: String, mask: i32, session: usize) -> (found: Characteristic)
        ensures
            found@ == (CharacteristicView {
                id: id@,
                properties: Properties::spec_from_mask(mask),
                session: session as nat,
            }),
    {
        let flags = Properties::from_mask(mask);
        Characteristic {
            id,
            write: flags.write,
            read: flags.read,
            notify: flags.notify,
            indicate: flags.indicate,
            broadcast: flags.broadcast,
            session,
        }
    }

    /// The identifier under which the device offers this characteristic.
    pub fn id(&self) -> (id: &str)
        ensures
            id@ == self@.id,
    {
        self.id.as_str()
    }

    /// The session of the connection that discovered this characteristic.
    pub fn session(&self) -> (session: usize)
        ensures
            session == self@.session,
    {
        self.session
    }

    /// The capability flags as one value.
    pub fn properties(&self) -> (flags: Properties)
        ensures
            flags == self@.properties,
    {
        Properties {
            read: self.read,
            write: self.write,
            notify: self.notify,
            indicate: self.indicate,
            broadcast: self.broadcast,
        }
    }

    /// Decides whether an operation goes to the native stack.
    fn check(&self, connection: &Connection, capable: bool) -> (outcome: Result<
        (),
        BluetoothError,
    >)
        ensures
            match outcome {
                Ok(_) => self@.refusal(connection@, capable) is None,
                Err(e) => self@.refusal(connection@, capable) == Some(e),
            },
    {
        if connection.session() != self.session || connection.state()
            == ConnectionState::Closed {
            Err(BluetoothError::DeviceDisconnected)
        } else if !capable {
            Err(BluetoothError::DeviceUnavailable)
        } else {
            Ok(())
        }
    }

    /// Writes `data` to the characteristic. With `verify` the device has to
    /// acknowledge the write. Needs the `write` capability.
    pub fn send_bytes(&self, connection: &Connection, data: &[u8], verify: bool) -> (outcome:
        Result<NativeRequest, BluetoothError>)
        ensures
            match outcome {
                Ok(request) => {
                    &&& self@.refusal(connection@, self@.properties.write) is None
                    &&& request@ == (NativeRequestView::WriteCharacteristic {
                        session: self@.session,
                        characteristic: self@.id,
                        data: data@,
                        with_response: verify,
                    })
                },
                Err(e) => self@.refusal(connection@, self@.properties.write) == Some(e),
            },
    {
        match self.check(connection, self.write) {
            Ok(_) => Ok(
                NativeRequest::WriteCharacteristic {
                    session: self.session,
                    characteristic: self.id.clone(),
                    data: slice_to_vec(data),
                    with_response: verify,
                },
            ),
            Err(e) => Err(e),
        }
    }

    /// Writes `data` as UTF-8, without asking for an acknowledgement.
    pub fn send_string(&self, connection: &Connection, data: &str) -> (outcome: Result<
        NativeRequest,
        BluetoothError,
    >)
        ensures
            match outcome {
                Ok(request) => {
                    &&& self@.refusal(connection@, self@.properties.write) is None
                    &&& request@ == (NativeRequestView::WriteCharacteristic {
                        session: self@.session,
                        characteristic: self@.id,
                        data: encode_utf8(data@),
                        with_response: false,
                    })
                },
                Err(e) => self@.refusal(connection@, self@.properties.write) == Some(e),
            },
    {
        self.send_bytes(connection, data.as_bytes(), false)
    }

    /// Turns notifications of the characteristic's value on or off. Needs
    /// the `notify` capability.
    pub fn set_notification(&self, connection: &Connection, enabled: bool) -> (outcome: Result<
        NativeRequest,
        BluetoothError,
    >)
        ensures
            match outcome {
                Ok(request) => {
                    &&& self@.refusal(connection@, self@.properties.notify) is None
                    &&& request@ == (NativeRequestView::SetNotification {
                        session: self@.session,
                        characteristic: self@.id,
                        enabled,
                    })
                },
                Err(e) => self@.refusal(connection@, self@.properties.notify) == Some(e),
            },
    {
        match self.check(connection, self.notify) {
            Ok(_) => Ok(
                NativeRequest::SetNotification {
                    session: self.session,
                    characteristic: self.id.clone(),
                    enabled,
                },
            ),
            Err(e) => Err(e),
        }
    }

    /// Turns indications of the characteristic's value on or off. Needs the
    /// `indicate` capability.
    pub fn set_indication(&self, connection: &Connection, enabled: bool) -> (outcome: Result<
        NativeRequest,
        BluetoothError,
    >)
        ensures
            match outcome {
                Ok(request) => {
                    &&& self@.refusal(connection@, self@.properties.indicate) is None
                    &&& request@ == (NativeRequestView::SetIndication {
                        session: self@.session,
                        characteristic: self@.id,
                        enabled,
                    })
                },
                Err(e) => self@.refusal(connection@, self@.properties.indicate) == Some(e),
            },
    {
        match self.check(connection, self.indicate) {
            Ok(_) => Ok(
                NativeRequest::SetIndication {
                    session: self.session,
                    characteristic: self.id.clone(),
                    enabled,
                },
            ),
            Err(e) => Err(e),
        }
    }
}

} // verus!
