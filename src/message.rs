use vstd::prelude::*;

verus! {

/// One WebSocket message, with its payload as raw bytes.
///
/// A text message holds the UTF-8 encoding of its text.
#[derive(Clone, Debug, PartialEq, Eq)]
pub enum WsMessage {
    Text(Vec<u8>),
    Binary(Vec<u8>),
    Ping(Vec<u8>),
    Pong(Vec<u8>),
    Close,
}

impl WsMessage {
    /// Text and binary messages carry data; control messages do not.
    pub open spec fn carries_data(&self) -> bool {
        self is Text || self is Binary
    }

    /// The payload bytes of the message (empty for a close).
    pub open spec fn payload(&self) -> Seq<u8> {
        match self {
            WsMessage::Text(b) => b@,
            WsMessage::Binary(b) => b@,
            WsMessage::Ping(b) => b@,
            WsMessage::Pong(b) => b@,
            WsMessage::Close => Seq::empty(),
        }
    }

    /// The bytes this message contributes to the relayed byte stream.
    pub open spec fn data(&self) -> Seq<u8> {
        if self.carries_data() {
            self.payload()
        } else {
            Seq::empty()
        }
    }

    pub fn is_data(&self) -> (r: bool)
        ensures
            r == self.carries_data(),
    {
        match self {
            WsMessage::Text(_) | WsMessage::Binary(_) => true,
            _ => false,
        }
    }

    pub fn into_data(self) -> (r: Vec<u8>)
        ensures
            r@ == self.payload(),
    {
        match self {
            WsMessage::Text(b) => b,
            WsMessage::Binary(b) => b,
            WsMessage::Ping(b) => b,
            WsMessage::Pong(b) => b,
            WsMessage::Close => Vec::new(),
        }
    }
}

} // verus!
