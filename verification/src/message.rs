//! What a connection hands to its caller, one message per native event.

use vstd::prelude::*;
use crate::characteristic::{Characteristic, CharacteristicView};

verus! {

/// One event of a session, as the caller of `try_recv` sees it.
#[derive(Debug)]
pub enum Message {
    Connected,
    Disconnected,
    Data(Vec<u8>),
    CharacteristicDiscovered(Characteristic),
}

/// What a `Message` holds, as plain values.
pub enum MessageView {
    Connected,
    Disconnected,
    Data(Seq<u8>),
    CharacteristicDiscovered(CharacteristicView),
}

impl MessageView {
    /// Only data messages may be evicted from a channel.
    pub open spec fn is_data(self) -> bool {
        self is Data
    }
}

impl View for Message {
    type V = MessageView;

    open spec fn view(&self) -> MessageView {
        match self {
            Message::Connected => MessageView::Connected,
            Message::Disconnected => MessageView::Disconnected,
            Message::Data(bytes) => MessageView::Data(bytes@),
            Message::CharacteristicDiscovered(c) => MessageView::CharacteristicDiscovered(c@),
        }
    }
}

impl Message {
    /// Whether this is a data message.
    pub fn is_data(&self) -> (data: bool)
        ensures
            data == self@.is_data(),
    {
        match self {
            Message::Data(_) => true,
            _ => false,
        }
    }
}

} // verus!
