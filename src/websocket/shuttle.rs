//! Shuttles: the input shuttle carries the application's items (and pings)
//! to the socket, the output shuttle carries what the socket reads to the
//! application (and pongs to the keepalive).

use vstd::prelude::*;

use crate::exit_status::{ExitStatus, ShouldTerminateWithStatus};
use crate::event_loop::{feed_report, feed_report_clean, stream_end};

use super::io_format::{InputFormat, OutputFormat, TransportError, WebSocketMessage};

verus! {

/// Which output shuttle reads the socket.
#[derive(Copy, Clone, Debug, PartialEq, Eq, Structural)]
pub enum OutputMode {
    /// Decodes text and binary messages for the application.
    Decode,
    /// Decodes them, and hands pongs on to the keepalive.
    DecodeWithPongs,
    /// Only drains the socket: data is superfluous there.
    Drain,
}

/// What the output shuttle does with a message read from the socket.
#[derive(Debug, PartialEq, Eq)]
pub enum OutputRoute {
    DecodeText(String),
    DecodeBinary(Vec<u8>),
    ForwardPong(Vec<u8>),
    /// Nothing to pass on (a ping, which the protocol layer answers, or a
    /// message that this mode ignores); the shuttle goes on.
    Continue,
    Terminate(ExitStatus),
}

/// The route of a message read from the socket: a failed socket or a close
/// before shutdown ends the shuttle as `Spurious`; `None` for a raw frame,
/// which a message stream never yields.
pub open spec fn output_route_of(
    message: Result<WebSocketMessage, TransportError>,
    mode: OutputMode,
) -> Option<OutputRoute> {
    match message {
        Err(_) => Some(OutputRoute::Terminate(ExitStatus::Spurious)),
        Ok(WebSocketMessage::Text(text)) => Some(
            if mode == OutputMode::Drain {
                OutputRoute::Continue
            } else {
                OutputRoute::DecodeText(text)
            },
        ),
        Ok(WebSocketMessage::Binary(bytes)) => Some(
            if mode == OutputMode::Drain {
                OutputRoute::Continue
            } else {
                OutputRoute::DecodeBinary(bytes)
            },
        ),
        Ok(WebSocketMessage::Ping(_)) => Some(OutputRoute::Continue),
        Ok(WebSocketMessage::Pong(payload)) => Some(
            if mode == OutputMode::DecodeWithPongs {
                OutputRoute::ForwardPong(payload)
            } else {
                OutputRoute::Continue
            },
        ),
        Ok(WebSocketMessage::Close) => Some(OutputRoute::Terminate(ExitStatus::Spurious)),
        Ok(WebSocketMessage::RawFrame) => None,
    }
}

/// The route of a message read from the socket.
pub fn route_output(message: Result<WebSocketMessage, TransportError>, mode: OutputMode) -> (r:
    Option<OutputRoute>)
    ensures
        r == output_route_of(message, mode),
{
    match message {
        Err(_) => Some(OutputRoute::Terminate(ExitStatus::Spurious)),
        Ok(WebSocketMessage::Text(text)) => {
            if mode == OutputMode::Drain {
                Some(OutputRoute::Continue)
            } else {
                Some(OutputRoute::DecodeText(text))
            }
        },
        Ok(WebSocketMessage::Binary(bytes)) => {
            if mode == OutputMode::Drain {
                Some(OutputRoute::Continue)
            } else {
                Some(OutputRoute::DecodeBinary(bytes))
            }
        },
        Ok(WebSocketMessage::Ping(_)) => Some(OutputRoute::Continue),
        Ok(WebSocketMessage::Pong(payload)) => {
            if mode == OutputMode::DecodeWithPongs {
                Some(OutputRoute::ForwardPong(payload))
            } else {
                Some(OutputRoute::Continue)
            }
        },
        Ok(WebSocketMessage::Close) => Some(OutputRoute::Terminate(ExitStatus::Spurious)),
        Ok(WebSocketMessage::RawFrame) => None,
    }
}

/// What the output shuttle does next.
#[derive(Debug, PartialEq, Eq)]
pub enum OutputStep<E> {
    /// Feed the item to the application.
    Feed(E),
    /// Feed the pong's payload to the keepalive.
    FeedPong(Vec<u8>),
    Continue,
    Terminate(ExitStatus),
}

/// The step after decoding: a decoded item is fed on; one that failed to
/// decode is dropped and the shuttle goes on.
pub open spec fn decoded_step_of<E>(decoded: Option<E>) -> OutputStep<E> {
    match decoded {
        Some(item) => OutputStep::Feed(item),
        None => OutputStep::Continue,
    }
}

/// The step after decoding.
pub fn decoded_step<E>(decoded: Option<E>) -> (r: OutputStep<E>)
    ensures
        r == decoded_step_of(decoded),
{
    match decoded {
        Some(item) => OutputStep::Feed(item),
        None => OutputStep::Continue,
    }
}

/// What the output shuttle does with a message read from the socket: the
/// route of `route_output`, with text and binary messages decoded by the
/// format.
pub fn shuttle_output_step<F: OutputFormat>(
    message: Result<WebSocketMessage, TransportError>,
    mode: OutputMode,
) -> (r: Option<OutputStep<F::External>>)
    ensures
        r is None <==> message == Ok::<WebSocketMessage, TransportError>(
            WebSocketMessage::RawFrame,
        ),
        r matches Some(step) ==> match output_route_of(message, mode) {
            Some(OutputRoute::ForwardPong(payload)) => step == OutputStep::<F::External>::FeedPong(
                payload,
            ),
            Some(OutputRoute::Continue) => step == OutputStep::<F::External>::Continue,
            Some(OutputRoute::Terminate(status)) => step == OutputStep::<F::External>::Terminate(
                status,
            ),
            Some(OutputRoute::DecodeText(text)) => exists|decoded: Option<F::External>|
                call_ensures(F::convert_text, (text,), decoded) && step == decoded_step_of(
                    decoded,
                ),
            Some(OutputRoute::DecodeBinary(bytes)) => exists|decoded: Option<F::External>|
                call_ensures(F::convert_binary, (bytes,), decoded) && step == decoded_step_of(
                    decoded,
                ),
            None => false,
        },
{
    match route_output(message, mode) {
        None => None,
        Some(OutputRoute::DecodeText(text)) => Some(decoded_step(F::convert_text(text))),
        Some(OutputRoute::DecodeBinary(bytes)) => Some(decoded_step(F::convert_binary(bytes))),
        Some(OutputRoute::ForwardPong(payload)) => Some(OutputStep::FeedPong(payload)),
        Some(OutputRoute::Continue) => Some(OutputStep::Continue),
        Some(OutputRoute::Terminate(status)) => Some(OutputStep::Terminate(status)),
    }
}

/// What the output shuttle reports after feeding an item or a pong: a
/// refused one ends the shuttle cleanly.
pub fn output_fed_report(accepted: bool) -> (r: ShouldTerminateWithStatus)
    ensures
        r.should_terminate_status == (if accepted {
            None
        } else {
            Some(ExitStatus::Clean)
        }),
{
    ShouldTerminateWithStatus::from(feed_report_clean(accepted))
}

/// What the output shuttle reports when the socket's stream ends: the end
/// was not expected.
pub fn output_stream_end() -> (r: ShouldTerminateWithStatus)
    ensures
        r.should_terminate_status == Some(ExitStatus::Spurious),
{
    stream_end(true)
}

/// What the input shuttle does with an item, a ping, or the end of either
/// stream.
#[derive(Debug, PartialEq, Eq)]
pub enum InputStep {
    /// Send the message; where `fallible`, a refusal ends the shuttle as
    /// `Spurious`, otherwise cleanly.
    Send { message: WebSocketMessage, fallible: bool },
    /// Drop the item and go on.
    Skip,
}

/// The step for an item that the format converted: the shuttle with pings
/// sends it so that a refusal is an error, the plain shuttle so that a
/// refusal ends it cleanly.
pub open spec fn route_input_of(converted: Option<WebSocketMessage>, with_pings: bool) -> InputStep {
    match converted {
        Some(message) => InputStep::Send { message, fallible: with_pings },
        None => InputStep::Skip,
    }
}

/// The step for an item that the format converted.
pub fn route_input(converted: Option<WebSocketMessage>, with_pings: bool) -> (r: InputStep)
    ensures
        r == route_input_of(converted, with_pings),
{
    match converted {
        Some(message) => InputStep::Send { message, fallible: with_pings },
        None => InputStep::Skip,
    }
}

/// The step for an application item: converted by the format, then routed
/// by `route_input`.
pub fn shuttle_input_step<F: InputFormat>(item: F::Intermediate, with_pings: bool) -> (r:
    InputStep)
    ensures
        exists|converted: Option<WebSocketMessage>|
            call_ensures(F::convert, (item,), converted) && r == route_input_of(
                converted,
                with_pings,
            ),
{
    route_input(F::convert(item), with_pings)
}

/// The step for a ping payload from the keepalive: a ping message, whose
/// refusal ends the shuttle cleanly.
pub fn route_ping(payload: Vec<u8>) -> (r: InputStep)
    ensures
        r == (InputStep::Send { message: WebSocketMessage::Ping(payload), fallible: false }),
{
    InputStep::Send { message: WebSocketMessage::Ping(payload), fallible: false }
}

/// What the input shuttle reports after sending a message.
pub fn sent_report(accepted: bool, fallible: bool) -> (r: ShouldTerminateWithStatus)
    ensures
        r.should_terminate_status == (if accepted {
            None
        } else if fallible {
            Some(ExitStatus::Spurious)
        } else {
            Some(ExitStatus::Clean)
        }),
{
    if fallible {
        feed_report(accepted)
    } else {
        ShouldTerminateWithStatus::from(feed_report_clean(accepted))
    }
}

/// What the input shuttle reports when the application's items end: the
/// plain shuttle treats it as unexpected, the shuttle with pings as a clean
/// end.
pub fn input_stream_end(with_pings: bool) -> (r: ShouldTerminateWithStatus)
    ensures
        r.should_terminate_status == Some(
            if with_pings {
                ExitStatus::Clean
            } else {
                ExitStatus::Spurious
            },
        ),
{
    stream_end(!with_pings)
}

} // verus!
