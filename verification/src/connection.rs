//! One session with a device: the state that its caller has observed, and the
//! receiving end of its channel.

use vstd::prelude::*;
use crate::adapter::Adapter;
use crate::device::DeviceId;
use crate::error::BluetoothError;
use crate::laws::{step, Step};
use crate::message::{Message, MessageView};
use crate::native::{NativeRequest, NativeRequestView};

verus! {

/// How far a session has come, as far as its caller has seen.
#[derive(Debug, Clone, Copy, PartialEq, Eq, Structural)]
pub enum ConnectionState {
    /// The native connect was asked for, and nothing was heard of it yet.
    Pending,
    /// The device answered: it connected, or a characteristic was discovered.
    Active,
    /// The device disconnected, or the caller asked it to.
    Closed,
}

impl ConnectionState {
    /// The state after the caller has seen `message`. A closed session stays
    /// closed, and data alone says nothing new.
    pub open spec fn spec_observe(self, message: MessageView) -> ConnectionState {
        match self {
            ConnectionState::Closed => ConnectionState::Closed,
            _ => match message {
                MessageView::Disconnected => ConnectionState::Closed,
                MessageView::Connected => ConnectionState::Active,
                MessageView::CharacteristicDiscovered(_) => ConnectionState::Active,
                MessageView::Data(_) => self,
            },
        }
    }

    /// How far a state is along the way from pending to closed.
    pub open spec fn rank(self) -> nat {
        match self {
            ConnectionState::Pending => 0,
            ConnectionState::Active => 1,
            ConnectionState::Closed => 2,
        }
    }

    /// The state after the caller has seen `message`.
    pub fn observe(self, message: &Message) -> (next: ConnectionState)
        ensures
            next == self.spec_observe(message@),
    {
        match self {
            ConnectionState::Closed => ConnectionState::Closed,
            _ => match message {
                Message::Disconnected => ConnectionState::Closed,
                Message::Connected => ConnectionState::Active,
                Message::CharacteristicDiscovered(_) => ConnectionState::Active,
                Message::Data(_) => self,
            },
        }
    }
}

/// A connection never goes back: no message reopens a closed connection or
/// makes an active one pending, and a disconnect closes whatever state.
pub proof fn lemma_state_moves_forward(state: ConnectionState, message: MessageView)
    ensures
        state.rank() <= state.spec_observe(message).rank(),
        state == ConnectionState::Closed ==> state.spec_observe(message) == ConnectionState::Closed,
        message == MessageView::Disconnected ==> state.spec_observe(message)
            == ConnectionState::Closed,
{
}

/// The session that a connect opened.
#[derive(Debug)]
pub struct Connection {
    device_id: DeviceId,
    session: usize,
    state: ConnectionState,
}

/// What a `Connection` holds, as plain values.
pub struct ConnectionView {
    pub device: Seq<char>,
    pub session: nat,
    pub state: ConnectionState,
}

impl View for Connection {
    type V = ConnectionView;

    closed spec fn view(&self) -> ConnectionView {
        ConnectionView { device: self.device_id@, session: self.session as nat, state: self.state }
    }
}

impl Connection {
    /// The connection that `session` stands for, before anything was heard
    /// of the device.
    pub(crate) fn pending(device_id: DeviceId, session: usize) -> (connection: Connection)
        ensures
            connection@ == (ConnectionView {
                device: device_id@,
                session: session as nat,
                state: ConnectionState::Pending,
            }),
    {
        Connection { device_id, session, state: ConnectionState::Pending }
    }

    /// The device that this connection is with.
    pub fn device_id(&self) -> (id: DeviceId)
        ensures
            id@ == self@.device,
    {
        self.device_id.clone()
    }

    /// The number of this connection's session.
    pub fn session(&self) -> (session: usize)
        ensures
            session == self@.session,
    {
        self.session
    }

    /// How far the session has come.
    pub fn state(&self) -> (state: ConnectionState)
        ensures
            state == self@.state,
    {
        self.state
    }

    /// Hands out the next message of this session, if one waits, and never
    /// blocks or fails. The connection's state follows what was handed out.
    pub fn try_recv(&mut self, adapter: &mut Adapter) -> (outcome: Result<
        Option<Message>,
        BluetoothError,
    >)
        ensures
            final(self)@.device == old(self)@.device,
            final(self)@.session == old(self)@.session,
            final(adapter)@ == old(adapter)@.received(old(self)@.session),
            final(adapter)@ == step(old(adapter)@, Step::Receive(old(self)@.session)),
            final(adapter)@.wf(),
            match outcome {
                Ok(Some(message)) => {
                    &&& old(adapter)@.bridge.queue(old(self)@.session).len() > 0
                    &&& message@ == old(adapter)@.bridge.queue(old(self)@.session)[0]
                    &&& final(self)@.state == old(self)@.state.spec_observe(message@)
                },
                Ok(None) => {
                    &&& old(adapter)@.bridge.queue(old(self)@.session).len() == 0
                    &&& final(self)@.state == old(self)@.state
                },
                Err(_) => false,
            },
    {
        match adapter.receive(self.session) {
            Some(message) => {
                self.state = self.state.observe(&message);
                Ok(Some(message))
            },
            None => Ok(None),
        }
    }

    /// Closes the connection. Unless it was closed already, the native stack
    /// has to be asked to disconnect; what the device answers still arrives
    /// through `try_recv`.
    pub fn disconnect(&mut self) -> (outcome: Result<Option<NativeRequest>, BluetoothError>)
        ensures
            final(self)@ == (ConnectionView {
                device: old(self)@.device,
                session: old(self)@.session,
                state: ConnectionState::Closed,
            }),
            match outcome {
                Ok(Some(request)) => old(self)@.state != ConnectionState::Closed && request@
                    == NativeRequestView::Disconnect,
                Ok(None) => old(self)@.state == ConnectionState::Closed,
                Err(_) => false,
            },
    {
        let was = self.state;
        self.state = ConnectionState::Closed;
        match was {
            ConnectionState::Closed => Ok(None),
            _ => Ok(Some(NativeRequest::Disconnect)),
        }
    }
}

} // verus!
