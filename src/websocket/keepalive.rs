//! The keepalive: a numbered ping at each tick of a clock, and a wait for the
//! pong that echoes it.

use vstd::prelude::*;

use crate::exit_status::ExitStatus;

use super::io_format::{TransportError, WebSocketMessage};

verus! {

/// The payload of the ping with the counter: its four bytes, most
/// significant first.
pub open spec fn ping_payload_of(counter: u32) -> Seq<u8> {
    seq![
        ((counter >> 24u32) & 0xffu32) as u8,
        ((counter >> 16u32) & 0xffu32) as u8,
        ((counter >> 8u32) & 0xffu32) as u8,
        (counter & 0xffu32) as u8,
    ]
}

/// The payload of the ping with the counter.
pub fn ping_payload(counter: u32) -> (r: Vec<u8>)
    ensures
        r@ == ping_payload_of(counter),
{
    let mut payload: Vec<u8> = Vec::new();
    payload.push(((counter >> 24u32) & 0xffu32) as u8);
    payload.push(((counter >> 16u32) & 0xffu32) as u8);
    payload.push(((counter >> 8u32) & 0xffu32) as u8);
    payload.push((counter & 0xffu32) as u8);
    assert(payload@ =~= ping_payload_of(counter));
    payload
}

/// Distinct counters give distinct payloads: a pong that echoes another
/// ping than the current one never matches it.
pub proof fn lemma_ping_payload_injective(a: u32, b: u32)
    ensures
        ping_payload_of(a) == ping_payload_of(b) ==> a == b,
{
    if ping_payload_of(a) == ping_payload_of(b) {
        assert(ping_payload_of(a)[0] == ping_payload_of(b)[0]);
        assert(ping_payload_of(a)[1] == ping_payload_of(b)[1]);
        assert(ping_payload_of(a)[2] == ping_payload_of(b)[2]);
        assert(ping_payload_of(a)[3] == ping_payload_of(b)[3]);
        assert((((a >> 24u32) & 0xffu32) as u8) == (((b >> 24u32) & 0xffu32) as u8) && (((a
            >> 16u32) & 0xffu32) as u8) == (((b >> 16u32) & 0xffu32) as u8) && (((a >> 8u32)
            & 0xffu32) as u8) == (((b >> 8u32) & 0xffu32) as u8) && ((a & 0xffu32) as u8) == ((b
            & 0xffu32) as u8) ==> a == b) by (bit_vector);
    }
}

/// Where the keepalive is.
#[derive(Debug, PartialEq, Eq)]
pub enum KeepalivePhase {
    /// Waiting for the next tick of the ping clock.
    Idle,
    /// Handing the ping with this payload to the socket.
    Feeding(Vec<u8>),
    /// Waiting for the pong that echoes this payload.
    AwaitingPong(Vec<u8>),
    /// Ended with this status.
    Ended(ExitStatus),
}

/// What the keepalive can observe.
#[derive(Debug, PartialEq, Eq)]
pub enum KeepaliveEvent {
    /// The shutdown signal arrived.
    Shutdown,
    /// The ping clock ticked.
    Tick,
    /// The ping was handed on, or refused.
    PingFed { accepted: bool },
    /// A pong with this payload arrived.
    Pong(Vec<u8>),
    /// A message other than a pong arrived while waiting for one.
    Superfluous,
    /// The stream of pongs ended.
    PongsEnded,
    /// The socket failed.
    TransportFailed,
    /// The peer closed the connection.
    ClosedByPeer,
    /// No pong came within the ping timeout.
    TimedOut,
}

/// What the keepalive has to do next.
#[derive(Debug, PartialEq, Eq)]
pub enum KeepaliveAction {
    WaitForTick,
    SendPing(Vec<u8>),
    AwaitPong,
    Terminate(ExitStatus),
}

/// The phase as the contracts see it.
pub enum PhaseView {
    Idle,
    Feeding(Seq<u8>),
    AwaitingPong(Seq<u8>),
    Ended(ExitStatus),
}

pub struct KeepaliveView {
    /// The counter of the next ping.
    pub counter: u32,
    pub phase: PhaseView,
    /// Whether a refused ping ends the keepalive as `Spurious` (pings go
    /// straight to the socket) rather than cleanly (pings go through a
    /// channel to the input shuttle, which has ended).
    pub ping_sink_fallible: bool,
}

pub open spec fn phase_view(phase: KeepalivePhase) -> PhaseView {
    match phase {
        KeepalivePhase::Idle => PhaseView::Idle,
        KeepalivePhase::Feeding(payload) => PhaseView::Feeding(payload@),
        KeepalivePhase::AwaitingPong(payload) => PhaseView::AwaitingPong(payload@),
        KeepalivePhase::Ended(status) => PhaseView::Ended(status),
    }
}

/// The action as the contracts see it.
pub enum ActionView {
    WaitForTick,
    SendPing(Seq<u8>),
    AwaitPong,
    Terminate(ExitStatus),
}

pub open spec fn action_view(action: KeepaliveAction) -> ActionView {
    match action {
        KeepaliveAction::WaitForTick => ActionView::WaitForTick,
        KeepaliveAction::SendPing(payload) => ActionView::SendPing(payload@),
        KeepaliveAction::AwaitPong => ActionView::AwaitPong,
        KeepaliveAction::Terminate(status) => ActionView::Terminate(status),
    }
}

/// The event as the contracts see it: a pong by its payload's bytes.
pub enum EventView {
    Shutdown,
    Tick,
    PingFed { accepted: bool },
    Pong(Seq<u8>),
    Superfluous,
    PongsEnded,
    TransportFailed,
    ClosedByPeer,
    TimedOut,
}

pub open spec fn event_view(event: KeepaliveEvent) -> EventView {
    match event {
        KeepaliveEvent::Shutdown => EventView::Shutdown,
        KeepaliveEvent::Tick => EventView::Tick,
        KeepaliveEvent::PingFed { accepted } => EventView::PingFed { accepted },
        KeepaliveEvent::Pong(payload) => EventView::Pong(payload@),
        KeepaliveEvent::Superfluous => EventView::Superfluous,
        KeepaliveEvent::PongsEnded => EventView::PongsEnded,
        KeepaliveEvent::TransportFailed => EventView::TransportFailed,
        KeepaliveEvent::ClosedByPeer => EventView::ClosedByPeer,
        KeepaliveEvent::TimedOut => EventView::TimedOut,
    }
}

/// What a keepalive in the phase is waiting to do.
pub open spec fn pending_action(phase: PhaseView) -> ActionView {
    match phase {
        PhaseView::Idle => ActionView::WaitForTick,
        PhaseView::Feeding(payload) => ActionView::SendPing(payload),
        PhaseView::AwaitingPong(_) => ActionView::AwaitPong,
        PhaseView::Ended(status) => ActionView::Terminate(status),
    }
}

pub open spec fn with_phase(v: KeepaliveView, phase: PhaseView) -> KeepaliveView {
    KeepaliveView { counter: v.counter, phase, ping_sink_fallible: v.ping_sink_fallible }
}

pub open spec fn ended(v: KeepaliveView, status: ExitStatus) -> (KeepaliveView, ActionView) {
    (with_phase(v, PhaseView::Ended(status)), ActionView::Terminate(status))
}

/// One step of the keepalive: the shutdown signal comes first; at a tick the
/// ping with the current counter goes out and the counter moves on by one; a
/// refused ping ends it, as `Spurious` where the sink is fallible;
/// a pong must echo the ping's payload byte for byte; a timeout, a failed or
/// closed socket, or a mismatched pong ends it as `Spurious`.
pub open spec fn keepalive_step(v: KeepaliveView, event: EventView) -> (
    KeepaliveView,
    ActionView,
) {
    if v.phase is Ended {
        (v, pending_action(v.phase))
    } else if event is Shutdown {
        ended(v, ExitStatus::Clean)
    } else {
        match (v.phase, event) {
            (PhaseView::Idle, EventView::Tick) => (
                KeepaliveView {
                    counter: v.counter.wrapping_add(1),
                    phase: PhaseView::Feeding(ping_payload_of(v.counter)),
                    ping_sink_fallible: v.ping_sink_fallible,
                },
                ActionView::SendPing(ping_payload_of(v.counter)),
            ),
            (PhaseView::Feeding(payload), EventView::PingFed { accepted }) => if accepted {
                (with_phase(v, PhaseView::AwaitingPong(payload)), ActionView::AwaitPong)
            } else if v.ping_sink_fallible {
                ended(v, ExitStatus::Spurious)
            } else {
                ended(v, ExitStatus::Clean)
            },
            (PhaseView::AwaitingPong(payload), EventView::Pong(pong)) => if pong == payload {
                (with_phase(v, PhaseView::Idle), ActionView::WaitForTick)
            } else {
                ended(v, ExitStatus::Spurious)
            },
            (PhaseView::AwaitingPong(_), EventView::Superfluous) => (
                with_phase(v, PhaseView::Idle),
                ActionView::WaitForTick,
            ),
            (PhaseView::AwaitingPong(_), EventView::PongsEnded) => ended(v, ExitStatus::Clean),
            (PhaseView::AwaitingPong(_), EventView::TransportFailed) => ended(
                v,
                ExitStatus::Spurious,
            ),
            (PhaseView::AwaitingPong(_), EventView::ClosedByPeer) => ended(
                v,
                ExitStatus::Spurious,
            ),
            (PhaseView::AwaitingPong(_), EventView::TimedOut) => ended(v, ExitStatus::Spurious),
            _ => (v, pending_action(v.phase)),
        }
    }
}

/// Pings are numbered: each one carries the current counter, which then
/// moves on by one (wrapping at the end of its range); nothing else moves
/// the counter.
pub proof fn lemma_pings_numbered(v: KeepaliveView, event: EventView)
    ensures
        v.phase == PhaseView::Idle && event == EventView::Tick ==> keepalive_step(v, event).1
            == ActionView::SendPing(ping_payload_of(v.counter)) && keepalive_step(v, event).0.counter
            == v.counter.wrapping_add(1),
        !(v.phase == PhaseView::Idle && event == EventView::Tick) ==> keepalive_step(
            v,
            event,
        ).0.counter == v.counter,
{
}

/// Whether the event is one that a well-behaved peer on a working socket
/// can cause: no timeout, no failure or close, every pong awaited echoes
/// the ping, and the ping is never refused where that would be an error.
pub open spec fn peer_behaves(v: KeepaliveView, event: EventView) -> bool {
    match event {
        EventView::TimedOut | EventView::TransportFailed | EventView::ClosedByPeer => false,
        EventView::Pong(pong) => v.phase matches PhaseView::AwaitingPong(payload) ==> pong
            == payload,
        EventView::PingFed { accepted } => accepted || !v.ping_sink_fallible,
        _ => true,
    }
}

/// The view after the events, in order.
pub open spec fn keepalive_run(v: KeepaliveView, events: Seq<EventView>) -> KeepaliveView
    decreases events.len(),
{
    if events.len() == 0 {
        v
    } else {
        keepalive_run(keepalive_step(v, events[0]).0, events.drop_first())
    }
}

/// Whether every event of the run, in the state where it comes, is one that
/// a well-behaved peer can cause.
pub open spec fn run_behaves(v: KeepaliveView, events: Seq<EventView>) -> bool
    decreases events.len(),
{
    events.len() == 0 || (peer_behaves(v, events[0]) && run_behaves(
        keepalive_step(v, events[0]).0,
        events.drop_first(),
    ))
}

/// With a well-behaved peer that echoes every pong in time, the keepalive
/// never ends itself as `Spurious`.
pub proof fn lemma_well_behaved_peer_never_spurious(v: KeepaliveView, events: Seq<EventView>)
    requires
        !(v.phase == PhaseView::Ended(ExitStatus::Spurious)),
        run_behaves(v, events),
    ensures
        !(keepalive_run(v, events).phase == PhaseView::Ended(ExitStatus::Spurious)),
    decreases events.len(),
{
    if events.len() > 0 {
        lemma_well_behaved_peer_never_spurious(keepalive_step(v, events[0]).0, events.drop_first());
    }
}

/// The keepalive's state.
pub struct Keepalive {
    counter: u32,
    phase: KeepalivePhase,
    ping_sink_fallible: bool,
}

impl View for Keepalive {
    type V = KeepaliveView;

    closed spec fn view(&self) -> KeepaliveView {
        KeepaliveView {
            counter: self.counter,
            phase: phase_view(self.phase),
            ping_sink_fallible: self.ping_sink_fallible,
        }
    }
}

impl Keepalive {
    /// A keepalive waiting for the first tick, whose first ping carries
    /// counter zero.
    pub fn new(ping_sink_fallible: bool) -> (r: Self)
        ensures
            r@.counter == 0,
            r@.phase == PhaseView::Idle,
            r@.ping_sink_fallible == ping_sink_fallible,
    {
        Keepalive { counter: 0, phase: KeepalivePhase::Idle, ping_sink_fallible }
    }

    fn pending(&self) -> (r: KeepaliveAction)
        ensures
            action_view(r) == pending_action(self@.phase),
    {
        match &self.phase {
            KeepalivePhase::Idle => KeepaliveAction::WaitForTick,
            KeepalivePhase::Feeding(payload) => KeepaliveAction::SendPing(payload.clone()),
            KeepalivePhase::AwaitingPong(_) => KeepaliveAction::AwaitPong,
            KeepalivePhase::Ended(status) => KeepaliveAction::Terminate(*status),
        }
    }

    fn end(&mut self, status: ExitStatus) -> (r: KeepaliveAction)
        ensures
            (final(self)@, action_view(r)) == ended(old(self)@, status),
    {
        self.phase = KeepalivePhase::Ended(status);
        KeepaliveAction::Terminate(status)
    }

    /// Takes in what the keepalive observed and says what is to be done.
    pub fn step(&mut self, event: KeepaliveEvent) -> (r: KeepaliveAction)
        ensures
            (final(self)@, action_view(r)) == keepalive_step(old(self)@, event_view(event)),
    {
        if let KeepalivePhase::Ended(_) = self.phase {
            return self.pending();
        }
        if let KeepaliveEvent::Shutdown = event {
            return self.end(ExitStatus::Clean);
        }
        match (&self.phase, event) {
            (KeepalivePhase::Idle, KeepaliveEvent::Tick) => {
                let payload = ping_payload(self.counter);
                let sent = payload.clone();
                self.counter = self.counter.wrapping_add(1);
                self.phase = KeepalivePhase::Feeding(payload);
                KeepaliveAction::SendPing(sent)
            },
            (KeepalivePhase::Feeding(payload), KeepaliveEvent::PingFed { accepted }) => {
                if accepted {
                    let awaited = payload.clone();
                    self.phase = KeepalivePhase::AwaitingPong(awaited);
                    KeepaliveAction::AwaitPong
                } else if self.ping_sink_fallible {
                    self.end(ExitStatus::Spurious)
                } else {
                    self.end(ExitStatus::Clean)
                }
            },
            (KeepalivePhase::AwaitingPong(payload), KeepaliveEvent::Pong(pong)) => {
                if bytes_equal(&pong, payload) {
                    self.phase = KeepalivePhase::Idle;
                    KeepaliveAction::WaitForTick
                } else {
                    self.end(ExitStatus::Spurious)
                }
            },
            (KeepalivePhase::AwaitingPong(_), KeepaliveEvent::Superfluous) => {
                self.phase = KeepalivePhase::Idle;
                KeepaliveAction::WaitForTick
            },
            (KeepalivePhase::AwaitingPong(_), KeepaliveEvent::PongsEnded) => {
                self.end(ExitStatus::Clean)
            },
            (KeepalivePhase::AwaitingPong(_), KeepaliveEvent::TransportFailed) => {
                self.end(ExitStatus::Spurious)
            },
            (KeepalivePhase::AwaitingPong(_), KeepaliveEvent::ClosedByPeer) => {
                self.end(ExitStatus::Spurious)
            },
            (KeepalivePhase::AwaitingPong(_), KeepaliveEvent::TimedOut) => {
                self.end(ExitStatus::Spurious)
            },
            _ => self.pending(),
        }
    }
}

/// Whether two payloads hold the same bytes.
pub fn bytes_equal(a: &Vec<u8>, b: &Vec<u8>) -> (r: bool)
    ensures
        r == (a@ == b@),
{
    if a.len() != b.len() {
        return false;
    }
    let mut i: usize = 0;
    while i < a.len()
        invariant
            a@.len() == b@.len(),
            i <= a@.len(),
            forall|j: int| 0 <= j < i ==> a@[j] == b@[j],
        decreases a@.len() - i,
    {
        if a[i] != b[i] {
            return false;
        }
        i += 1;
    }
    assert(a@ =~= b@);
    true
}

/// What a message read from the socket means to a keepalive that reads its
/// pongs there: `None` for a raw frame, which a message stream never yields.
pub fn keepalive_event_of(message: Result<WebSocketMessage, TransportError>) -> (r: Option<
    KeepaliveEvent,
>)
    ensures
        r == (match message {
            Err(_) => Some(KeepaliveEvent::TransportFailed),
            Ok(WebSocketMessage::Pong(payload)) => Some(KeepaliveEvent::Pong(payload)),
            Ok(WebSocketMessage::Close) => Some(KeepaliveEvent::ClosedByPeer),
            Ok(WebSocketMessage::RawFrame) => None,
            Ok(_) => Some(KeepaliveEvent::Superfluous),
        }),
{
    match message {
        Err(_) => Some(KeepaliveEvent::TransportFailed),
        Ok(WebSocketMessage::Pong(payload)) => Some(KeepaliveEvent::Pong(payload)),
        Ok(WebSocketMessage::Close) => Some(KeepaliveEvent::ClosedByPeer),
        Ok(WebSocketMessage::RawFrame) => None,
        Ok(_) => Some(KeepaliveEvent::Superfluous),
    }
}

} // verus!
