//! The core of a Bluetooth Low Energy binding: the event bridge between the
//! callbacks of a native stack and an application that polls once per frame.
//!
//! The library owns no thread and calls no native code. Native callbacks are
//! handed to the [`Adapter`] as events; the operations of the adapter, of a
//! [`Connection`] and of a [`Characteristic`] decide what is to be asked of the
//! native stack and return it as a [`NativeRequest`]. Everything in between,
//! the registry of devices, the channels of the sessions and the state of
//! each connection, is plain data with a verified contract.

pub mod adapter;
pub mod bridge;
pub mod channel;
pub mod characteristic;
pub mod connection;
pub mod device;
pub mod error;
pub mod laws;
pub mod message;
pub mod native;
pub mod properties;
pub mod registry;

pub use adapter::{Adapter, DEFAULT_RETENTION};
pub use characteristic::Characteristic;
pub use connection::{Connection, ConnectionState};
pub use device::{Device, DeviceId};
pub use error::BluetoothError;
pub use message::Message;
pub use native::{ManagerState, NativeEvent, NativeRequest};
pub use properties::Properties;
