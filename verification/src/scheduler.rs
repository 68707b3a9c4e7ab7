//! The push scheduler as a state machine: from the state and an event to the
//! next state and the action to take. Whoever drives it performs the action
//! and hands back the event that follows.

use vstd::prelude::*;

verus! {

/// Where the scheduler stands.
#[derive(Clone, Copy, Debug, PartialEq, Eq, Structural)]
pub enum Phase {
    /// Not started yet.
    Idle,
    /// Running, and waiting for the timer.
    Waiting,
    /// Running, with the collection and push of one tick under way.
    Pushing,
    /// Stopped for good.
    Terminated,
}

/// What can happen to the scheduler.
#[derive(Clone, Copy, Debug, PartialEq, Eq, Structural)]
pub enum Event {
    /// The scheduler is started.
    Start,
    /// The timer fired.
    Tick,
    /// The push of the current tick ended, with or without success.
    PushFinished { delivered: bool },
    /// The process is told to stop.
    Shutdown,
}

/// What the driver is to do next.
#[derive(Clone, Copy, Debug, PartialEq, Eq, Structural)]
pub enum Action {
    /// Nothing: the event does not concern the scheduler as it stands.
    Nothing,
    /// Have the timer fire once, after the given number of seconds.
    ArmTimer { seconds: u64 },
    /// Take one snapshot and make one attempt to push it.
    CollectAndPush,
    /// Stop driving.
    Stop,
}

/// The state of a scheduler.
pub struct SchedulerState {
    pub phase: Phase,
    /// Seconds from the end of one push to the next tick.
    pub interval: u64,
}

/// The state after `event` and the action it calls for.
///
/// Starting arms the timer to fire at once. A tick while waiting starts the
/// one collection and push of that tick. The end of a push, whatever its
/// outcome, arms the timer for the interval. A shutdown stops a scheduler in
/// any phase, and nothing moves a stopped one. Every other event is
/// ignored: in particular a tick while a push is under way starts no
/// second one.
pub open spec fn next(state: SchedulerState, event: Event) -> (SchedulerState, Action) {
    match (state.phase, event) {
        (Phase::Terminated, _) => (state, Action::Nothing),
        (_, Event::Shutdown) => (
            SchedulerState { phase: Phase::Terminated, ..state },
            Action::Stop,
        ),
        (Phase::Idle, Event::Start) => (
            SchedulerState { phase: Phase::Waiting, ..state },
            Action::ArmTimer { seconds: 0 },
        ),
        (Phase::Waiting, Event::Tick) => (
            SchedulerState { phase: Phase::Pushing, ..state },
            Action::CollectAndPush,
        ),
        (Phase::Pushing, Event::PushFinished { .. }) => (
            SchedulerState { phase: Phase::Waiting, ..state },
            Action::ArmTimer { seconds: state.interval },
        ),
        _ => (state, Action::Nothing),
    }
}

/// The state after a sequence of events, and the actions they called for,
/// one for each event.
pub open spec fn run(state: SchedulerState, events: Seq<Event>) -> (SchedulerState, Seq<Action>)
    decreases events.len(),
{
    if events.len() == 0 {
        (state, Seq::empty())
    } else {
        let (before, actions) = run(state, events.drop_last());
        let (after, action) = next(before, events.last());
        (after, actions.push(action))
    }
}

/// The events of as many ticks in a row as `outcomes` is long: for each one
/// the tick, then the end of its push with that outcome.
pub open spec fn ticks(outcomes: Seq<bool>) -> Seq<Event>
    decreases outcomes.len(),
{
    if outcomes.len() == 0 {
        Seq::empty()
    } else {
        ticks(outcomes.drop_last()).push(Event::Tick).push(
            Event::PushFinished { delivered: outcomes.last() },
        )
    }
}

/// How often `action` stands among `actions`.
pub open spec fn count_of(actions: Seq<Action>, action: Action) -> nat
    decreases actions.len(),
{
    if actions.len() == 0 {
        0
    } else {
        count_of(actions.drop_last(), action) + if actions.last() == action {
            1nat
        } else {
            0nat
        }
    }
}

/// The push scheduler.
#[derive(Debug)]
pub struct Scheduler {
    phase: Phase,
    interval: u64,
}

impl View for Scheduler {
    type V = SchedulerState;

    closed spec fn view(&self) -> SchedulerState {
        SchedulerState { phase: self.phase, interval: self.interval }
    }
}

impl Scheduler {
    #[verifier::type_invariant]
    spec fn positive_interval(self) -> bool {
        self.interval > 0
    }

    /// A scheduler that has not started, for ticks `interval` seconds
    /// apart, or `None` for an interval of zero.
    pub fn new(interval: u64) -> (r: Option<Scheduler>)
        ensures
            match r {
                Some(scheduler) => interval > 0 && scheduler@ == (SchedulerState {
                    phase: Phase::Idle,
                    interval,
                }),
                None => interval == 0,
            },
    {
        if interval == 0 {
            None
        } else {
            Some(Scheduler { phase: Phase::Idle, interval })
        }
    }

    /// Where the scheduler stands.
    pub fn phase(&self) -> (phase: Phase)
        ensures
            phase == self@.phase,
    {
        self.phase
    }

    /// The seconds from the end of one push to the next tick: never zero.
    pub fn interval(&self) -> (seconds: u64)
        ensures
            seconds == self@.interval,
            seconds > 0,
    {
        proof {
            use_type_invariant(self);
        }
        self.interval
    }

    /// Whether the scheduler has been started and not stopped.
    pub fn is_running(&self) -> (running: bool)
        ensures
            running == (self@.phase == Phase::Waiting || self@.phase == Phase::Pushing),
    {
        match self.phase {
            Phase::Waiting | Phase::Pushing => true,
            _ => false,
        }
    }

    /// Takes `event` and says what to do next.
    pub fn step(&mut self, event: Event) -> (action: Action)
        ensures
            (final(self)@, action) == next(old(self)@, event),
    {
        proof {
            use_type_invariant(&*self);
        }
        match (self.phase, event) {
            (Phase::Terminated, _) => Action::Nothing,
            (_, Event::Shutdown) => {
                self.phase = Phase::Terminated;
                Action::Stop
            },
            (Phase::Idle, Event::Start) => {
                self.phase = Phase::Waiting;
                Action::ArmTimer { seconds: 0 }
            },
            (Phase::Waiting, Event::Tick) => {
                self.phase = Phase::Pushing;
                Action::CollectAndPush
            },
            (Phase::Pushing, Event::PushFinished { .. }) => {
                self.phase = Phase::Waiting;
                Action::ArmTimer { seconds: self.interval }
            },
            _ => Action::Nothing,
        }
    }
}

/// Every tick starts exactly one collection and push, whether the pushes
/// before it succeeded or failed: from a scheduler that waits, any number
/// of ticks, each followed by the end of its push, calls for one collection
/// and push and one arming of the timer per tick, and leaves the scheduler
/// waiting as before.
pub proof fn lemma_every_tick_collects_and_pushes_once(state: SchedulerState, outcomes: Seq<bool>)
    requires
        state.phase == Phase::Waiting,
    ensures
        run(state, ticks(outcomes)).0 == state,
        run(state, ticks(outcomes)).1.len() == 2 * outcomes.len(),
        count_of(run(state, ticks(outcomes)).1, Action::CollectAndPush) == outcomes.len(),
        forall|i: int|
            0 <= i < outcomes.len() ==> {
                &&& #[trigger] run(state, ticks(outcomes)).1[2 * i] == Action::CollectAndPush
                &&& run(state, ticks(outcomes)).1[2 * i + 1] == Action::ArmTimer {
                    seconds: state.interval,
                }
            },
    decreases outcomes.len(),
{
    if outcomes.len() > 0 {
        let earlier = ticks(outcomes.drop_last());
        let ticked = earlier.push(Event::Tick);
        let all = ticks(outcomes);
        lemma_every_tick_collects_and_pushes_once(state, outcomes.drop_last());
        assert(all.drop_last() =~= ticked);
        assert(ticked.drop_last() =~= earlier);
        let pushing = SchedulerState { phase: Phase::Pushing, ..state };
        assert(run(state, ticked).0 == pushing);
        assert(run(state, ticked).1 == run(state, earlier).1.push(Action::CollectAndPush));
        assert(run(state, all).1 == run(state, ticked).1.push(
            Action::ArmTimer { seconds: state.interval },
        ));
        let before = run(state, earlier).1;
        let pushed = before.push(Action::CollectAndPush);
        let armed = pushed.push(Action::ArmTimer { seconds: state.interval });
        assert(run(state, all).1 == armed);
        assert(armed.drop_last() =~= pushed);
        assert(pushed.drop_last() =~= before);
        assert(count_of(pushed, Action::CollectAndPush) == count_of(
            before,
            Action::CollectAndPush,
        ) + 1);
        assert(count_of(armed, Action::CollectAndPush) == count_of(pushed, Action::CollectAndPush));
        assert forall|i: int| 0 <= i < outcomes.len() implies {
            &&& #[trigger] run(state, all).1[2 * i] == Action::CollectAndPush
            &&& run(state, all).1[2 * i + 1] == Action::ArmTimer { seconds: state.interval }
        } by {
            if i < outcomes.len() - 1 {
                assert(run(state, earlier).1[2 * i] == Action::CollectAndPush);
            }
        }
    }
}

/// Failed pushes do not stop the scheduler: after any number of ticks whose
/// pushes all failed, the scheduler waits as before, and the next tick
/// starts a collection and push.
pub proof fn lemma_failures_do_not_stop_the_scheduler(state: SchedulerState, failures: nat)
    requires
        state.phase == Phase::Waiting,
    ensures
        run(state, ticks(Seq::new(failures, |i: int| false))).0 == state,
        next(run(state, ticks(Seq::new(failures, |i: int| false))).0, Event::Tick).1
            == Action::CollectAndPush,
{
    lemma_every_tick_collects_and_pushes_once(state, Seq::new(failures, |i: int| false));
}

/// Nothing but a shutdown stops the scheduler: after events among which
/// there is no shutdown, a scheduler that was not stopped is not stopped.
pub proof fn lemma_only_shutdown_terminates(state: SchedulerState, events: Seq<Event>)
    requires
        state.phase != Phase::Terminated,
        forall|i: int| 0 <= i < events.len() ==> events[i] != Event::Shutdown,
    ensures
        run(state, events).0.phase != Phase::Terminated,
        run(state, events).0.interval == state.interval,
    decreases events.len(),
{
    if events.len() > 0 {
        lemma_only_shutdown_terminates(state, events.drop_last());
    }
}

} // verus!
