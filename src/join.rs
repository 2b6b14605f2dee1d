//! Joining several services under a shutdown trigger: either every service
//! ends cleanly and their outputs are taken, or any failure (or the trigger)
//! shuts every service down and awaits them all.

use vstd::prelude::*;

use crate::exit_status::ExitStatus;

verus! {

/// Where a join is.
#[derive(Copy, Clone, Debug, PartialEq, Eq, Structural)]
pub enum JoinPhase {
    /// Waiting for the services and the shutdown trigger.
    Watching,
    /// Every service has been told to shut down; waiting for them to end.
    Cascading,
    /// Returned the outputs of services that all ended cleanly.
    Joined,
    /// Returned the outputs of services that were shut down.
    Cascaded,
}

/// What a join can observe.
#[derive(Copy, Clone, Debug, PartialEq, Eq, Structural)]
pub enum JoinEvent {
    /// The shutdown trigger fired.
    ShutdownFired,
    /// A service ended with the status that its handle reported (`None`: its
    /// output was already taken).
    Exited { index: usize, status: Option<ExitStatus> },
    /// Every service shut down by the cascade has been awaited.
    Drained,
}

/// What a join has to do next.
#[derive(Copy, Clone, Debug, PartialEq, Eq, Structural)]
pub enum JoinStep {
    /// Go on waiting.
    Wait,
    /// Take every service's output and return them.
    TakeOutputs,
    /// Call `shutdown` on every service, then await them all.
    ShutdownAll,
    /// Return what awaiting the services gave.
    ReturnAwaited,
}

/// The join as the contracts see it.
pub struct JoinView {
    pub reported_clean: Seq<bool>,
    pub shutdown_requested: Seq<bool>,
    pub phase: JoinPhase,
}

/// The view after every service has been told to shut down.
pub open spec fn cascade(v: JoinView) -> JoinView {
    JoinView {
        reported_clean: v.reported_clean,
        shutdown_requested: Seq::new(v.shutdown_requested.len(), |i: int| true),
        phase: JoinPhase::Cascading,
    }
}

/// One step of a join: the view it leads to and what is to be done.
pub open spec fn join_step(v: JoinView, event: JoinEvent) -> (JoinView, JoinStep) {
    match (v.phase, event) {
        (JoinPhase::Watching, JoinEvent::ShutdownFired) => (cascade(v), JoinStep::ShutdownAll),
        (JoinPhase::Watching, JoinEvent::Exited { index, status }) => if index
            >= v.reported_clean.len() {
            (v, JoinStep::Wait)
        } else if status == Some(ExitStatus::Clean) {
            let clean = v.reported_clean.update(index as int, true);
            if forall|j: int| 0 <= j < clean.len() ==> clean[j] {
                (
                    JoinView {
                        reported_clean: clean,
                        shutdown_requested: v.shutdown_requested,
                        phase: JoinPhase::Joined,
                    },
                    JoinStep::TakeOutputs,
                )
            } else {
                (
                    JoinView {
                        reported_clean: clean,
                        shutdown_requested: v.shutdown_requested,
                        phase: JoinPhase::Watching,
                    },
                    JoinStep::Wait,
                )
            }
        } else {
            (cascade(v), JoinStep::ShutdownAll)
        },
        (JoinPhase::Cascading, JoinEvent::Drained) => (
            JoinView {
                reported_clean: v.reported_clean,
                shutdown_requested: v.shutdown_requested,
                phase: JoinPhase::Cascaded,
            },
            JoinStep::ReturnAwaited,
        ),
        _ => (v, JoinStep::Wait),
    }
}

/// The view after the events, in order.
pub open spec fn join_run(v: JoinView, events: Seq<JoinEvent>) -> JoinView
    decreases events.len(),
{
    if events.len() == 0 {
        v
    } else {
        join_run(join_step(v, events[0]).0, events.drop_first())
    }
}

/// What holds of every join: one flag of each kind per service, and every
/// service told to shut down once a cascade has begun.
pub open spec fn join_wf(v: JoinView) -> bool {
    &&& v.reported_clean.len() == v.shutdown_requested.len()
    &&& (v.phase == JoinPhase::Cascading || v.phase == JoinPhase::Cascaded) ==> forall|i: int|
        0 <= i < v.shutdown_requested.len() ==> v.shutdown_requested[i]
    &&& v.phase == JoinPhase::Joined ==> forall|i: int|
        0 <= i < v.reported_clean.len() ==> v.reported_clean[i]
}

proof fn lemma_join_step_wf(v: JoinView, event: JoinEvent)
    requires
        join_wf(v),
    ensures
        join_wf(join_step(v, event).0),
{
}

/// Once the trigger fires while a join is watching, the join never returns
/// the outputs as if all had ended cleanly; whenever it returns, every
/// service has been told to shut down.
pub proof fn lemma_shutdown_reaches_every_service(v: JoinView, events: Seq<JoinEvent>)
    requires
        join_wf(v),
        v.phase == JoinPhase::Watching,
        events.len() > 0,
        events[0] == JoinEvent::ShutdownFired,
    ensures
        join_wf(join_run(v, events)),
        join_run(v, events).phase != JoinPhase::Joined,
        join_run(v, events).phase != JoinPhase::Watching,
        forall|i: int|
            0 <= i < v.shutdown_requested.len() ==> join_run(v, events).shutdown_requested[i],
{
    let next = join_step(v, events[0]).0;
    lemma_join_step_wf(v, events[0]);
    lemma_cascade_stays(next, events.drop_first());
}

proof fn lemma_join_run_wf(v: JoinView, events: Seq<JoinEvent>)
    requires
        join_wf(v),
    ensures
        join_wf(join_run(v, events)),
    decreases events.len(),
{
    if events.len() > 0 {
        lemma_join_step_wf(v, events[0]);
        lemma_join_run_wf(join_step(v, events[0]).0, events.drop_first());
    }
}

/// A join takes the services' outputs only once every one of them has
/// reported a clean end.
pub proof fn lemma_outputs_taken_only_when_all_clean(v: JoinView, events: Seq<JoinEvent>)
    requires
        join_wf(v),
    ensures
        join_run(v, events).phase == JoinPhase::Joined ==> forall|i: int|
            0 <= i < join_run(v, events).reported_clean.len() ==> join_run(
                v,
                events,
            ).reported_clean[i],
{
    lemma_join_run_wf(v, events);
}

proof fn lemma_cascade_stays(v: JoinView, events: Seq<JoinEvent>)
    requires
        join_wf(v),
        v.phase == JoinPhase::Cascading || v.phase == JoinPhase::Cascaded,
    ensures
        join_wf(join_run(v, events)),
        join_run(v, events).phase == JoinPhase::Cascading || join_run(v, events).phase
            == JoinPhase::Cascaded,
        join_run(v, events).shutdown_requested.len() == v.shutdown_requested.len(),
    decreases events.len(),
{
    if events.len() > 0 {
        lemma_join_step_wf(v, events[0]);
        lemma_cascade_stays(join_step(v, events[0]).0, events.drop_first());
    }
}

/// A join of several services.
pub struct JoinState {
    reported_clean: Vec<bool>,
    shutdown_requested: Vec<bool>,
    phase: JoinPhase,
}

impl View for JoinState {
    type V = JoinView;

    closed spec fn view(&self) -> JoinView {
        JoinView {
            reported_clean: self.reported_clean@,
            shutdown_requested: self.shutdown_requested@,
            phase: self.phase,
        }
    }
}

impl JoinState {
    /// A join of `count` services, none of which has ended.
    pub fn new(count: usize) -> (r: Self)
        ensures
            join_wf(r@),
            r@.phase == JoinPhase::Watching,
            r@.reported_clean == Seq::new(count as nat, |i: int| false),
            r@.shutdown_requested == Seq::new(count as nat, |i: int| false),
    {
        let mut reported_clean: Vec<bool> = Vec::new();
        let mut shutdown_requested: Vec<bool> = Vec::new();
        let mut i: usize = 0;
        while i < count
            invariant
                i <= count,
                reported_clean@ == Seq::new(i as nat, |j: int| false),
                shutdown_requested@ == Seq::new(i as nat, |j: int| false),
            decreases count - i,
        {
            reported_clean.push(false);
            shutdown_requested.push(false);
            i += 1;
            assert(reported_clean@ =~= Seq::new(i as nat, |j: int| false));
            assert(shutdown_requested@ =~= Seq::new(i as nat, |j: int| false));
        }
        JoinState { reported_clean, shutdown_requested, phase: JoinPhase::Watching }
    }

    pub fn phase(&self) -> (r: JoinPhase)
        ensures
            r == self@.phase,
    {
        self.phase
    }

    fn request_shutdown_all(&mut self)
        requires
            old(self).reported_clean@.len() == old(self).shutdown_requested@.len(),
        ensures
            final(self)@ == cascade(old(self)@),
    {
        let n = self.shutdown_requested.len();
        let mut i: usize = 0;
        while i < n
            invariant
                n == self.shutdown_requested@.len(),
                i <= n,
                self.reported_clean@ == old(self).reported_clean@,
                self.phase == old(self).phase,
                forall|j: int| 0 <= j < i ==> self.shutdown_requested@[j],
            decreases n - i,
        {
            self.shutdown_requested.set(i, true);
            i += 1;
        }
        self.phase = JoinPhase::Cascading;
        assert(self.shutdown_requested@ =~= Seq::new(n as nat, |j: int| true));
    }

    fn all_clean(&self) -> (r: bool)
        ensures
            r == forall|j: int| 0 <= j < self.reported_clean@.len() ==> self.reported_clean@[j],
    {
        let mut i: usize = 0;
        while i < self.reported_clean.len()
            invariant
                i <= self.reported_clean@.len(),
                forall|j: int| 0 <= j < i ==> self.reported_clean@[j],
            decreases self.reported_clean@.len() - i,
        {
            if !self.reported_clean[i] {
                return false;
            }
            i += 1;
        }
        true
    }

    /// Takes in what the join observed and says what is to be done.
    pub fn step(&mut self, event: JoinEvent) -> (r: JoinStep)
        requires
            join_wf(old(self)@),
        ensures
            (final(self)@, r) == join_step(old(self)@, event),
            join_wf(final(self)@),
    {
        proof {
            lemma_join_step_wf(self@, event);
        }
        match (self.phase, event) {
            (JoinPhase::Watching, JoinEvent::ShutdownFired) => {
                self.request_shutdown_all();
                JoinStep::ShutdownAll
            },
            (JoinPhase::Watching, JoinEvent::Exited { index, status }) => {
                if index >= self.reported_clean.len() {
                    JoinStep::Wait
                } else if status == Some(ExitStatus::Clean) {
                    self.reported_clean.set(index, true);
                    if self.all_clean() {
                        self.phase = JoinPhase::Joined;
                        JoinStep::TakeOutputs
                    } else {
                        JoinStep::Wait
                    }
                } else {
                    self.request_shutdown_all();
                    JoinStep::ShutdownAll
                }
            },
            (JoinPhase::Cascading, JoinEvent::Drained) => {
                self.phase = JoinPhase::Cascaded;
                JoinStep::ReturnAwaited
            },
            _ => JoinStep::Wait,
        }
    }
}

/// The status of a set of reports joined together: `Spurious` if any of
/// them is, `Clean` otherwise.
pub fn aggregate_status(statuses: &Vec<ExitStatus>) -> (r: ExitStatus)
    ensures
        r == ExitStatus::Spurious <==> exists|i: int|
            0 <= i < statuses@.len() && statuses@[i] == ExitStatus::Spurious,
{
    let mut i: usize = 0;
    while i < statuses.len()
        invariant
            i <= statuses@.len(),
            forall|j: int| 0 <= j < i ==> statuses@[j] == ExitStatus::Clean,
        decreases statuses@.len() - i,
    {
        if statuses[i] == ExitStatus::Spurious {
            return ExitStatus::Spurious;
        }
        i += 1;
    }
    ExitStatus::Clean
}

} // verus!
