//! The managed process's lifecycle and the heartbeat loop's decisions.
use vstd::prelude::*;

verus! {

/// Where the one managed process stands.
#[derive(Debug, Clone, Copy, PartialEq, Eq, Structural)]
pub enum ProcessState {
    NotStarted,
    Running,
    Stopped,
}

/// A transition that the lifecycle does not allow.
#[derive(Debug, Clone, Copy, PartialEq, Eq, Structural)]
pub enum LifecycleError {
    /// A process is already running; it must be stopped first.
    AlreadyRunning,
    /// There is no running process to stop.
    NotRunning,
}

/// The lifecycle `NotStarted -> Running -> Stopped` of the managed process,
/// which allows at most one running instance.
#[derive(Debug)]
pub struct Lifecycle {
    pub state: ProcessState,
}

impl Lifecycle {
    pub fn new() -> (r: Lifecycle)
        ensures
            r.state == ProcessState::NotStarted,
    {
        Lifecycle { state: ProcessState::NotStarted }
    }

    pub fn is_running(&self) -> (r: bool)
        ensures
            r == (self.state == ProcessState::Running),
    {
        self.state == ProcessState::Running
    }

    /// Records a spawn. A new instance may start only when none is running.
    pub fn start(&mut self) -> (r: Result<(), LifecycleError>)
        ensures
            old(self).state != ProcessState::Running ==> r is Ok && final(self).state
                == ProcessState::Running,
            old(self).state == ProcessState::Running ==> r == Err::<(), _>(
                LifecycleError::AlreadyRunning,
            ) && final(self).state == old(self).state,
    {
        if self.state == ProcessState::Running {
            Err(LifecycleError::AlreadyRunning)
        } else {
            self.state = ProcessState::Running;
            Ok(())
        }
    }

    /// Records a termination request. Stopping a process that is not running
    /// is an error for the caller to surface, never a silent no-op.
    pub fn stop(&mut self) -> (r: Result<(), LifecycleError>)
        ensures
            old(self).state == ProcessState::Running ==> r is Ok && final(self).state
                == ProcessState::Stopped,
            old(self).state != ProcessState::Running ==> r == Err::<(), _>(
                LifecycleError::NotRunning,
            ) && final(self).state == old(self).state,
    {
        if self.state == ProcessState::Running {
            self.state = ProcessState::Stopped;
            Ok(())
        } else {
            Err(LifecycleError::NotRunning)
        }
    }
}

/// What the heartbeat loop receives on its one channel.
#[derive(Debug, Clone, Copy, PartialEq, Eq, Structural)]
pub enum Event {
    /// The fixed-interval timer fired.
    Tick,
    /// A termination signal arrived.
    Terminate,
}

/// What the loop must do for an event.
#[derive(Debug, Clone, Copy, PartialEq, Eq, Structural)]
pub enum Action {
    /// Send a best-effort request to the heartbeat target.
    Ping,
    /// Stop the managed process and exit with success.
    Shutdown,
}

/// The heartbeat loop's state: whether it has a target to ping and whether a
/// termination has been handled.
#[derive(Debug)]
pub struct Heartbeat {
    pub has_target: bool,
    pub finished: bool,
}

pub open spec fn action_of(has_target: bool, finished: bool, e: Event) -> Option<Action> {
    if finished {
        None
    } else {
        match e {
            Event::Terminate => Some(Action::Shutdown),
            Event::Tick => if has_target {
                Some(Action::Ping)
            } else {
                None
            },
        }
    }
}

/// The actions that a fresh loop performs for a sequence of events, in order.
pub open spec fn actions_of(has_target: bool, events: Seq<Event>) -> Seq<Action>
    decreases events.len(),
{
    if events.len() == 0 {
        seq![]
    } else if events[0] == Event::Terminate {
        seq![Action::Shutdown]
    } else if has_target {
        seq![Action::Ping] + actions_of(has_target, events.drop_first())
    } else {
        actions_of(has_target, events.drop_first())
    }
}

/// Index of the first termination among `events`, or their number.
pub open spec fn first_terminate(events: Seq<Event>) -> int
    decreases events.len(),
{
    if events.len() == 0 {
        0
    } else if events[0] == Event::Terminate {
        0
    } else {
        1 + first_terminate(events.drop_first())
    }
}

impl Heartbeat {
    pub fn new(has_target: bool) -> (r: Heartbeat)
        ensures
            r.has_target == has_target,
            !r.finished,
    {
        Heartbeat { has_target, finished: false }
    }

    /// Decides what to do with one event. A termination is acted on at once
    /// and ends the loop: nothing received after it is acted on.
    pub fn on_event(&mut self, e: Event) -> (r: Option<Action>)
        ensures
            r == action_of(old(self).has_target, old(self).finished, e),
            final(self).has_target == old(self).has_target,
            final(self).finished == (old(self).finished || e == Event::Terminate),
    {
        if self.finished {
            return None;
        }
        match e {
            Event::Terminate => {
                self.finished = true;
                Some(Action::Shutdown)
            },
            Event::Tick => if self.has_target {
                Some(Action::Ping)
            } else {
                None
            },
        }
    }
}

/// Runs a fresh loop over `events` in receive order and returns the actions
/// it performs.
pub fn drive(has_target: bool, events: &Vec<Event>) -> (r: Vec<Action>)
    ensures
        r@ == actions_of(has_target, events@),
{
    let mut hb = Heartbeat::new(has_target);
    let mut out: Vec<Action> = Vec::new();
    let mut i: usize = 0;
    assert(events@.subrange(0, events@.len() as int) =~= events@);
    assert(out@ + actions_of(has_target, events@) =~= actions_of(has_target, events@));
    while i < events.len()
        invariant
            0 <= i <= events@.len(),
            hb.has_target == has_target,
            !hb.finished ==> actions_of(has_target, events@) == out@ + actions_of(
                has_target,
                events@.subrange(i as int, events@.len() as int),
            ),
            hb.finished ==> actions_of(has_target, events@) == out@,
        decreases events@.len() - i,
    {
        let ghost rest = events@.subrange(i as int, events@.len() as int);
        assert(rest.drop_first() =~= events@.subrange(i + 1, events@.len() as int));
        let e = events[i];
        match hb.on_event(e) {
            Some(a) => out.push(a),
            None => {},
        }
        i = i + 1;
    }
    assert(events@.subrange(i as int, events@.len() as int) =~= seq![]);
    out
}

/// A termination preempts every heartbeat: the loop pings once for each tick
/// received before the first termination (when it has a target), then shuts
/// down exactly once, and acts on nothing received after that.
pub proof fn lemma_shutdown_preempts_heartbeat(events: Seq<Event>)
    ensures
        0 <= first_terminate(events) <= events.len(),
        first_terminate(events) < events.len() ==> actions_of(true, events) == Seq::new(
            first_terminate(events) as nat,
            |_i: int| Action::Ping,
        ).push(Action::Shutdown),
        first_terminate(events) == events.len() ==> actions_of(true, events) == Seq::new(
            events.len(),
            |_i: int| Action::Ping,
        ),
    decreases events.len(),
{
    if events.len() > 0 && events[0] != Event::Terminate {
        lemma_shutdown_preempts_heartbeat(events.drop_first());
        let k = first_terminate(events.drop_first());
        if k < events.len() - 1 {
            assert(actions_of(true, events) =~= Seq::new(
                first_terminate(events) as nat,
                |_i: int| Action::Ping,
            ).push(Action::Shutdown));
        } else {
            assert(actions_of(true, events) =~= Seq::new(events.len(), |_i: int| Action::Ping));
        }
    } else if events.len() > 0 {
        assert(actions_of(true, events) =~= Seq::new(0, |_i: int| Action::Ping).push(
            Action::Shutdown,
        ));
    } else {
        assert(actions_of(true, events) =~= Seq::new(0, |_i: int| Action::Ping));
    }
}

/// Without a target the loop never pings, and it shuts down exactly when a
/// termination is received.
pub proof fn lemma_no_target_no_ping(events: Seq<Event>)
    ensures
        first_terminate(events) < events.len() ==> actions_of(false, events) == seq![
            Action::Shutdown,
        ],
        first_terminate(events) >= events.len() ==> actions_of(false, events) == Seq::<
            Action,
        >::empty(),
    decreases events.len(),
{
    if events.len() > 0 && events[0] != Event::Terminate {
        lemma_no_target_no_ping(events.drop_first());
    }
}

} // verus!
