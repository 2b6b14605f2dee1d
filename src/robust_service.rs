//! The supervisor of a robust service: it keeps one inner service alive by
//! building a new one whenever the current one ends, may replace it on a
//! fixed interval before it ends, may publish whether it is up, and may be
//! shut down from outside.

use vstd::prelude::*;

use crate::service_state::ServiceState;
use crate::task_handle::TaskHandle;

verus! {

/// Builds services that a supervisor runs; a service built after a
/// cancellable construction was aborted is the default handle.
pub trait CancellableFallibleServiceFactory {
    type Construction: TaskHandle;

    fn construct(&mut self) -> Self::Construction;
}

/// Builds services that a supervisor runs; a construction that was aborted
/// yields no service.
pub trait SignallableFallibleServiceFactory {
    type Construction: TaskHandle;

    fn construct(&mut self) -> Self::Construction;
}

/// Which of the supervisor's features are on.
#[derive(Copy, Clone, Debug, PartialEq, Eq, Structural)]
pub struct SupervisorConfig {
    /// An outside shutdown signal stops the supervisor.
    pub shutdown: bool,
    /// A new service replaces the running one at each tick of a clock.
    pub preemptive: bool,
    /// Whether the service is up is published.
    pub reporting: bool,
}

/// Where the supervisor is.
#[derive(Copy, Clone, Debug, PartialEq, Eq, Structural)]
pub enum SupervisorPhase {
    /// Building the first service.
    Constructing,
    /// The service runs.
    Running,
    /// The service ended; building the next one.
    Rebuilding,
    /// The service runs while its replacement is built.
    Rotating,
    /// Stopped.
    Done,
}

/// What the supervisor can observe.
#[derive(Copy, Clone, Debug, PartialEq, Eq, Structural)]
pub enum SupervisorEvent {
    ShutdownReceived,
    /// The construction in flight finished with a new service.
    Constructed,
    /// The running service ended.
    ServiceExited,
    /// The replacement clock ticked.
    ReplacementTick,
}

/// What the supervisor does with its services.
#[derive(Copy, Clone, Debug, PartialEq, Eq, Structural)]
pub enum Command {
    Wait,
    /// Start building a new service.
    Construct,
    /// Install the new service; shut down and await the old one if it still
    /// runs.
    Install,
    /// Abort the construction in flight and shut down what it built; then,
    /// where `stop_service`, shut down and await the running service; then
    /// end cleanly.
    AbortConstruction { stop_service: bool },
    /// Shut down and await the running service, then end cleanly.
    StopService,
}

/// A step's outcome: what to publish, if anything, and what to do.
#[derive(Copy, Clone, Debug, PartialEq, Eq, Structural)]
pub struct SupervisorAction {
    pub publish: Option<ServiceState>,
    pub command: Command,
}

/// The supervisor as the contracts see it.
#[derive(Copy, Clone, Debug, PartialEq, Eq, Structural)]
pub struct Supervisor {
    config: SupervisorConfig,
    phase: SupervisorPhase,
    published: Option<ServiceState>,
}

pub struct SupervisorView {
    pub config: SupervisorConfig,
    pub phase: SupervisorPhase,
    /// The state published last, if any was.
    pub published: Option<ServiceState>,
}

pub open spec fn action(publish: Option<ServiceState>, command: Command) -> SupervisorAction {
    SupervisorAction { publish, command }
}

/// What is published on a state change: the state if reporting is on.
pub open spec fn report(config: SupervisorConfig, state: ServiceState) -> Option<ServiceState> {
    if config.reporting {
        Some(state)
    } else {
        None
    }
}

pub open spec fn moved(
    v: SupervisorView,
    phase: SupervisorPhase,
    publish: Option<ServiceState>,
) -> SupervisorView {
    SupervisorView {
        config: v.config,
        phase,
        published: if publish is Some {
            publish
        } else {
            v.published
        },
    }
}

pub open spec fn wait(v: SupervisorView) -> (SupervisorView, SupervisorAction) {
    (v, action(None, Command::Wait))
}

/// One step of the supervisor. The shutdown signal (where configured) comes
/// first; a finished construction installs the new service and publishes
/// `Up`, except in a rotation where the state stays `Up`; an ended service
/// publishes `Down` and starts the next construction, unless one is already
/// in flight; a tick while the service runs starts its replacement.
pub open spec fn supervisor_step(v: SupervisorView, event: SupervisorEvent) -> (
    SupervisorView,
    SupervisorAction,
) {
    match (v.phase, event) {
        (SupervisorPhase::Done, _) => wait(v),
        (phase, SupervisorEvent::ShutdownReceived) => if !v.config.shutdown {
            wait(v)
        } else {
            let command = match phase {
                SupervisorPhase::Running => Command::StopService,
                SupervisorPhase::Rotating => Command::AbortConstruction { stop_service: true },
                _ => Command::AbortConstruction { stop_service: false },
            };
            (moved(v, SupervisorPhase::Done, None), action(None, command))
        },
        (SupervisorPhase::Constructing, SupervisorEvent::Constructed)
        | (SupervisorPhase::Rebuilding, SupervisorEvent::Constructed) => {
            let publish = report(v.config, ServiceState::Up);
            (moved(v, SupervisorPhase::Running, publish), action(publish, Command::Install))
        },
        (SupervisorPhase::Rotating, SupervisorEvent::Constructed) => (
            moved(v, SupervisorPhase::Running, None),
            action(None, Command::Install),
        ),
        (SupervisorPhase::Running, SupervisorEvent::ServiceExited) => {
            let publish = report(v.config, ServiceState::Down);
            (moved(v, SupervisorPhase::Rebuilding, publish), action(publish, Command::Construct))
        },
        (SupervisorPhase::Rotating, SupervisorEvent::ServiceExited) => {
            let publish = report(v.config, ServiceState::Down);
            (moved(v, SupervisorPhase::Rebuilding, publish), action(publish, Command::Wait))
        },
        (SupervisorPhase::Running, SupervisorEvent::ReplacementTick) => if v.config.preemptive {
            (moved(v, SupervisorPhase::Rotating, None), action(None, Command::Construct))
        } else {
            wait(v)
        },
        _ => wait(v),
    }
}

/// What holds of every supervisor: with reporting on, the last published
/// state is `Up` exactly while a service runs, `Down` while one is rebuilt
/// after an exit, and nothing before the first service is up; with
/// reporting off, nothing is ever published.
pub open spec fn supervisor_wf(v: SupervisorView) -> bool {
    if v.config.reporting {
        match v.phase {
            SupervisorPhase::Constructing => v.published is None,
            SupervisorPhase::Running | SupervisorPhase::Rotating => v.published == Some(
                ServiceState::Up,
            ),
            SupervisorPhase::Rebuilding => v.published == Some(ServiceState::Down),
            SupervisorPhase::Done => true,
        }
    } else {
        v.published is None
    }
}

/// Each step keeps the supervisor well formed, and what it publishes
/// differs from what was published last: `Up` only when a construction
/// finished outside a rotation, `Down` only when the service was seen to
/// end, and never anything during a rotation that succeeds.
pub proof fn lemma_publications_alternate(v: SupervisorView, event: SupervisorEvent)
    requires
        supervisor_wf(v),
    ensures
        supervisor_wf(supervisor_step(v, event).0),
        supervisor_step(v, event).1.publish matches Some(state) ==> Some(state) != v.published,
        supervisor_step(v, event).1.publish == Some(ServiceState::Up) ==> event
            == SupervisorEvent::Constructed && v.phase != SupervisorPhase::Rotating,
        supervisor_step(v, event).1.publish == Some(ServiceState::Down) ==> event
            == SupervisorEvent::ServiceExited,
        v.phase == SupervisorPhase::Rotating && event == SupervisorEvent::Constructed
            ==> supervisor_step(v, event).1.publish is None,
{
}

/// Whether a construction is in flight in the phase.
pub open spec fn constructing(phase: SupervisorPhase) -> bool {
    phase == SupervisorPhase::Constructing || phase == SupervisorPhase::Rebuilding || phase
        == SupervisorPhase::Rotating
}

/// At most one construction is in flight at a time: a construction starts
/// only while none is, a new service is installed only when one finished,
/// and an abort only ever meets one in flight.
pub proof fn lemma_one_construction_at_a_time(v: SupervisorView, event: SupervisorEvent)
    ensures
        supervisor_step(v, event).1.command == Command::Construct ==> !constructing(v.phase)
            && constructing(supervisor_step(v, event).0.phase),
        supervisor_step(v, event).1.command == Command::Install ==> constructing(v.phase)
            && !constructing(supervisor_step(v, event).0.phase),
        supervisor_step(v, event).1.command is AbortConstruction ==> constructing(v.phase),
        !constructing(v.phase) && !(supervisor_step(v, event).1.command == Command::Construct)
            ==> !constructing(supervisor_step(v, event).0.phase),
{
}

/// The view after the events, in order.
pub open spec fn supervisor_run(v: SupervisorView, events: Seq<SupervisorEvent>) -> SupervisorView
    decreases events.len(),
{
    if events.len() == 0 {
        v
    } else {
        supervisor_run(supervisor_step(v, events[0]).0, events.drop_first())
    }
}

/// How many constructions the events start.
pub open spec fn constructions(v: SupervisorView, events: Seq<SupervisorEvent>) -> nat
    decreases events.len(),
{
    if events.len() == 0 {
        0
    } else {
        (if supervisor_step(v, events[0]).1.command == Command::Construct {
            1nat
        } else {
            0nat
        }) + constructions(supervisor_step(v, events[0]).0, events.drop_first())
    }
}

/// How many of the events are of the kind.
pub open spec fn occurrences(events: Seq<SupervisorEvent>, kind: SupervisorEvent) -> nat
    decreases events.len(),
{
    if events.len() == 0 {
        0
    } else {
        (if events[0] == kind {
            1nat
        } else {
            0nat
        }) + occurrences(events.drop_first(), kind)
    }
}

/// Whether every tick comes while the service runs (the replacement clock
/// is only watched then) and no shutdown comes.
pub open spec fn ticks_while_running(v: SupervisorView, events: Seq<SupervisorEvent>) -> bool
    decreases events.len(),
{
    events.len() == 0 || ((events[0] == SupervisorEvent::ReplacementTick ==> v.phase
        == SupervisorPhase::Running) && events[0] != SupervisorEvent::ShutdownReceived
        && ticks_while_running(supervisor_step(v, events[0]).0, events.drop_first()))
}

/// A supervisor with preemptive replacement starts one construction at each
/// tick, and besides those at most one for each exit of a service that it
/// observes: between the number of ticks and that number plus the exits.
pub proof fn lemma_construction_count(v: SupervisorView, events: Seq<SupervisorEvent>)
    requires
        v.config.preemptive,
        v.phase != SupervisorPhase::Done,
        ticks_while_running(v, events),
    ensures
        occurrences(events, SupervisorEvent::ReplacementTick) <= constructions(v, events),
        constructions(v, events) <= occurrences(events, SupervisorEvent::ReplacementTick)
            + occurrences(events, SupervisorEvent::ServiceExited),
    decreases events.len(),
{
    if events.len() > 0 {
        lemma_construction_count(supervisor_step(v, events[0]).0, events.drop_first());
    }
}

impl View for Supervisor {
    type V = SupervisorView;

    closed spec fn view(&self) -> SupervisorView {
        SupervisorView { config: self.config, phase: self.phase, published: self.published }
    }
}

impl Supervisor {
    /// A supervisor whose first construction has started.
    pub fn new(config: SupervisorConfig) -> (r: Self)
        ensures
            r@.config == config,
            r@.phase == SupervisorPhase::Constructing,
            r@.published is None,
            supervisor_wf(r@),
    {
        Supervisor { config, phase: SupervisorPhase::Constructing, published: None }
    }

    pub fn phase(&self) -> (r: SupervisorPhase)
        ensures
            r == self@.phase,
    {
        self.phase
    }

    /// Whether a construction is in flight.
    pub fn awaits_construction(&self) -> (r: bool)
        ensures
            r == constructing(self@.phase),
    {
        match self.phase {
            SupervisorPhase::Constructing | SupervisorPhase::Rebuilding
            | SupervisorPhase::Rotating => true,
            _ => false,
        }
    }

    /// Whether a service runs whose end is to be watched.
    pub fn awaits_service(&self) -> (r: bool)
        ensures
            r == (self@.phase == SupervisorPhase::Running || self@.phase
                == SupervisorPhase::Rotating),
    {
        match self.phase {
            SupervisorPhase::Running | SupervisorPhase::Rotating => true,
            _ => false,
        }
    }

    /// Whether the replacement clock is to be watched.
    pub fn awaits_tick(&self) -> (r: bool)
        ensures
            r == (self@.config.preemptive && self@.phase == SupervisorPhase::Running),
    {
        self.config.preemptive && self.phase == SupervisorPhase::Running
    }

    fn report(&self, state: ServiceState) -> (r: Option<ServiceState>)
        ensures
            r == report(self@.config, state),
    {
        if self.config.reporting {
            Some(state)
        } else {
            None
        }
    }

    fn move_to(&mut self, phase: SupervisorPhase, publish: Option<ServiceState>)
        ensures
            final(self)@ == moved(old(self)@, phase, publish),
    {
        self.phase = phase;
        if publish.is_some() {
            self.published = publish;
        }
    }

    /// Takes in what the supervisor observed and says what is to be done.
    pub fn step(&mut self, event: SupervisorEvent) -> (r: SupervisorAction)
        ensures
            (final(self)@, r) == supervisor_step(old(self)@, event),
    {
        let wait = SupervisorAction { publish: None, command: Command::Wait };
        match (self.phase, event) {
            (SupervisorPhase::Done, _) => wait,
            (phase, SupervisorEvent::ShutdownReceived) => {
                if !self.config.shutdown {
                    wait
                } else {
                    let command = match phase {
                        SupervisorPhase::Running => Command::StopService,
                        SupervisorPhase::Rotating => Command::AbortConstruction {
                            stop_service: true,
                        },
                        _ => Command::AbortConstruction { stop_service: false },
                    };
                    self.move_to(SupervisorPhase::Done, None);
                    SupervisorAction { publish: None, command }
                }
            },
            (SupervisorPhase::Constructing, SupervisorEvent::Constructed)
            | (SupervisorPhase::Rebuilding, SupervisorEvent::Constructed) => {
                let publish = self.report(ServiceState::Up);
                self.move_to(SupervisorPhase::Running, publish);
                SupervisorAction { publish, command: Command::Install }
            },
            (SupervisorPhase::Rotating, SupervisorEvent::Constructed) => {
                self.move_to(SupervisorPhase::Running, None);
                SupervisorAction { publish: None, command: Command::Install }
            },
            (SupervisorPhase::Running, SupervisorEvent::ServiceExited) => {
                let publish = self.report(ServiceState::Down);
                self.move_to(SupervisorPhase::Rebuilding, publish);
                SupervisorAction { publish, command: Command::Construct }
            },
            (SupervisorPhase::Rotating, SupervisorEvent::ServiceExited) => {
                let publish = self.report(ServiceState::Down);
                self.move_to(SupervisorPhase::Rebuilding, publish);
                SupervisorAction { publish, command: Command::Wait }
            },
            (SupervisorPhase::Running, SupervisorEvent::ReplacementTick) => {
                if self.config.preemptive {
                    self.move_to(SupervisorPhase::Rotating, None);
                    SupervisorAction { publish: None, command: Command::Construct }
                } else {
                    wait
                }
            },
            _ => wait,
        }
    }
}

} // verus!
