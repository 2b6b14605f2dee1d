use vstd::prelude::*;

verus! {

/// A WebSocket message as the connection's logic sees it.
#[derive(Debug, PartialEq, Eq)]
pub enum WebSocketMessage {
    Text(String),
    Binary(Vec<u8>),
    Ping(Vec<u8>),
    Pong(Vec<u8>),
    Close,
    /// A raw frame: a message stream never yields one.
    RawFrame,
}

/// The socket failed while reading a message.
#[derive(Copy, Clone, Debug, PartialEq, Eq, Structural)]
pub struct TransportError;

/// Turns the application's items into messages to send; `None` drops the
/// item and the connection goes on.
pub trait InputFormat {
    type Intermediate;

    fn convert(i: Self::Intermediate) -> Option<WebSocketMessage>;
}

/// Turns received text and binary messages into the application's items;
/// `None` drops the message and the connection goes on.
pub trait OutputFormat {
    type External;

    fn convert_text(text: String) -> Option<Self::External>;

    fn convert_binary(bytes: Vec<u8>) -> Option<Self::External>;
}

/// A protocol of text messages.
#[derive(Copy, Clone, Debug)]
pub struct Text;

impl InputFormat for Text {
    type Intermediate = String;

    fn convert(i: String) -> (r: Option<WebSocketMessage>)
        ensures
            r == Some(WebSocketMessage::Text(i)),
    {
        Some(WebSocketMessage::Text(i))
    }
}

impl OutputFormat for Text {
    type External = String;

    fn convert_text(text: String) -> (r: Option<String>)
        ensures
            r == Some(text),
    {
        Some(text)
    }

    /// A binary message has no place in a text protocol: it is dropped.
    fn convert_binary(bytes: Vec<u8>) -> (r: Option<String>)
        ensures
            r is None,
    {
        None
    }
}

/// A protocol of binary messages.
#[derive(Copy, Clone, Debug)]
pub struct Binary;

impl InputFormat for Binary {
    type Intermediate = Vec<u8>;

    fn convert(i: Vec<u8>) -> (r: Option<WebSocketMessage>)
        ensures
            r == Some(WebSocketMessage::Binary(i)),
    {
        Some(WebSocketMessage::Binary(i))
    }
}

impl OutputFormat for Binary {
    type External = Vec<u8>;

    /// A text message has no place in a binary protocol: it is dropped.
    fn convert_text(text: String) -> (r: Option<Vec<u8>>)
        ensures
            r is None,
    {
        None
    }

    fn convert_binary(bytes: Vec<u8>) -> (r: Option<Vec<u8>>)
        ensures
            r == Some(bytes),
    {
        Some(bytes)
    }
}

} // verus!
