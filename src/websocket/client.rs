//! What a WebSocket client decides on its own: how it is configured, and
//! how it retries a connection that failed.

use vstd::prelude::*;

use core::time::Duration;

use tokio_tungstenite::Connector;
use tungstenite::protocol::WebSocketConfig;

verus! {

/// The socket's protocol settings.
#[verifier::external_type_specification]
#[verifier::external_body]
pub struct ExWebSocketConfig(tungstenite::protocol::WebSocketConfig);

/// How the client sets up TLS, if at all.
#[verifier::external_type_specification]
#[verifier::external_body]
pub struct ExConnector(tokio_tungstenite::Connector);

/// How to reach the server.
#[derive(Clone)]
pub struct ConnectionConfig<R> {
    pub request: R,
    pub stream_config: Option<WebSocketConfig>,
    pub disable_nagle: bool,
    pub connector: Option<Connector>,
}

impl<R> ConnectionConfig<R> {
    /// The request, with the transport's own defaults for everything else.
    pub fn new(request: R) -> (r: Self)
        ensures
            r.request == request,
            r.stream_config is None,
            !r.disable_nagle,
            r.connector is None,
    {
        ConnectionConfig { request, stream_config: None, disable_nagle: false, connector: None }
    }

    pub fn with_stream_config(self, stream_config: WebSocketConfig) -> (r: Self)
        ensures
            r.request == self.request,
            r.stream_config == Some(stream_config),
            r.disable_nagle == self.disable_nagle,
            r.connector == self.connector,
    {
        ConnectionConfig { stream_config: Some(stream_config), ..self }
    }

    pub fn disable_nagle(self) -> (r: Self)
        ensures
            r.request == self.request,
            r.stream_config == self.stream_config,
            r.disable_nagle,
            r.connector == self.connector,
    {
        ConnectionConfig { disable_nagle: true, ..self }
    }

    pub fn with_connector(self, connector: Connector) -> (r: Self)
        ensures
            r.request == self.request,
            r.stream_config == self.stream_config,
            r.disable_nagle == self.disable_nagle,
            r.connector == Some(connector),
    {
        ConnectionConfig { connector: Some(connector), ..self }
    }
}

/// How often the keepalive pings, and how long it waits for each pong.
#[derive(Copy, Clone, Debug)]
pub struct PingConfig {
    pub ping_interval: Duration,
    pub ping_timeout: Duration,
}

/// The shortest wait before a new attempt to connect, in milliseconds.
pub const MIN_BACKOFF_MILLIS: u64 = 5000;

/// The longest wait before a new attempt to connect, in milliseconds.
pub const MAX_BACKOFF_MILLIS: u64 = 30000;

/// Relies on rand's `Uniform::new_inclusive`, sampled with the thread's
/// generator from `rand::rng`: a value drawn from the closed range
/// `[low, high]`; `new_inclusive` accepts every such range of integers.
#[verifier::external_body]
fn draw_inclusive(low: u64, high: u64) -> (r: u64)
    requires
        low <= high,
    ensures
        low <= r <= high,
{
    let range = rand::distr::Uniform::new_inclusive(low, high).unwrap();
    rand::distr::Distribution::sample(&range, &mut rand::rng())
}

/// A random wait before the next attempt to connect, in milliseconds.
pub fn backoff_millis() -> (r: u64)
    ensures
        MIN_BACKOFF_MILLIS <= r <= MAX_BACKOFF_MILLIS,
{
    draw_inclusive(MIN_BACKOFF_MILLIS, MAX_BACKOFF_MILLIS)
}

/// What an attempt to connect can come to.
#[derive(Copy, Clone, Debug, PartialEq, Eq, Structural)]
pub enum RetryEvent {
    Connected,
    ConnectFailed,
    /// The shutdown signal arrived while waiting to retry.
    ShutdownReceived,
    /// The wait before the next attempt is over.
    BackoffElapsed,
}

/// What the client does next.
#[derive(Copy, Clone, Debug, PartialEq, Eq, Structural)]
pub enum RetryAction {
    /// Build the connection's services on the new socket.
    UseConnection,
    /// Wait this long, unless the shutdown signal comes first.
    Sleep { millis: u64 },
    /// Give up without a connection.
    GiveUp,
    /// Try to connect again.
    Connect,
}

/// The client's next move: a failed attempt waits a random time between the
/// two bounds, during which a shutdown ends the attempts.
pub fn retry_step(event: RetryEvent) -> (r: RetryAction)
    ensures
        event == RetryEvent::Connected ==> r == RetryAction::UseConnection,
        event == RetryEvent::ConnectFailed ==> (r matches RetryAction::Sleep { millis }
            && MIN_BACKOFF_MILLIS <= millis <= MAX_BACKOFF_MILLIS),
        event == RetryEvent::ShutdownReceived ==> r == RetryAction::GiveUp,
        event == RetryEvent::BackoffElapsed ==> r == RetryAction::Connect,
{
    match event {
        RetryEvent::Connected => RetryAction::UseConnection,
        RetryEvent::ConnectFailed => RetryAction::Sleep { millis: backoff_millis() },
        RetryEvent::ShutdownReceived => RetryAction::GiveUp,
        RetryEvent::BackoffElapsed => RetryAction::Connect,
    }
}

} // verus!
