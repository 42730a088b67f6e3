use vstd::prelude::*;

verus! {

/// Where a mounted session stands.
#[derive(Clone, Copy, Debug, PartialEq, Eq, Structural)]
pub enum Phase {
    Idle,
    Mounting,
    Mounted,
    Unmounting,
    Stopped,
    Errored,
}

/// What the outside world reports to the session.
#[derive(Debug, PartialEq, Eq)]
pub enum Event {
    /// The session is asked to begin.
    Start,
    /// The framework reports the volume mounted.
    Mounted,
    /// The interrupt arrived; `mount_point` is what the mount state held when
    /// it was read right after.
    Interrupt { mount_point: Option<Vec<u16>> },
    /// Listening for the interrupt failed.
    InterruptFailed,
    /// The operating system was asked to detach the mount point; `removed`
    /// tells whether it did.
    UnmountDone { removed: bool },
    /// The framework's main loop returned, with success or not.
    DriverReturned { ok: bool },
}

/// What the session asks to be done next.
#[derive(Debug, PartialEq, Eq)]
pub enum Action {
    Nothing,
    /// Run the framework's main loop and listen for the interrupt.
    RunDriver,
    /// Ask the operating system to detach `mount_point`.
    RemoveMountPoint { mount_point: Vec<u16> },
    /// Wait for the framework's main loop to return.
    AwaitDriver,
    /// Shut the framework down; stop listening for the interrupt first where
    /// `cancel_listener` is set.
    Shutdown { cancel_listener: bool },
}

pub open spec fn is_terminal(p: Phase) -> bool {
    p == Phase::Stopped || p == Phase::Errored
}

pub open spec fn is_running(p: Phase) -> bool {
    p == Phase::Mounting || p == Phase::Mounted
}

pub open spec fn outcome(ok: bool) -> Phase {
    if ok { Phase::Stopped } else { Phase::Errored }
}

/// The session's rules: the next phase and the action for `event` in `phase`.
/// Events that cannot come in a phase leave it as it is.
pub open spec fn transition(phase: Phase, event: Event) -> (Phase, Action) {
    if is_terminal(phase) {
        (phase, Action::Nothing)
    } else {
        match event {
            Event::Start => if phase == Phase::Idle {
                (Phase::Mounting, Action::RunDriver)
            } else {
                (phase, Action::Nothing)
            },
            Event::Mounted => if phase == Phase::Mounting {
                (Phase::Mounted, Action::Nothing)
            } else {
                (phase, Action::Nothing)
            },
            Event::Interrupt { mount_point } => if is_running(phase) {
                match mount_point {
                    Some(p) => (Phase::Unmounting, Action::RemoveMountPoint { mount_point: p }),
                    None => (Phase::Errored, Action::Shutdown { cancel_listener: false }),
                }
            } else {
                (phase, Action::Nothing)
            },
            Event::InterruptFailed => if is_running(phase) {
                (Phase::Errored, Action::Shutdown { cancel_listener: false })
            } else {
                (phase, Action::Nothing)
            },
            Event::UnmountDone { removed } => if phase == Phase::Unmounting {
                if removed {
                    (Phase::Unmounting, Action::AwaitDriver)
                } else {
                    (Phase::Errored, Action::Shutdown { cancel_listener: false })
                }
            } else {
                (phase, Action::Nothing)
            },
            Event::DriverReturned { ok } => if is_running(phase) {
                (outcome(ok), Action::Shutdown { cancel_listener: true })
            } else if phase == Phase::Unmounting {
                (outcome(ok), Action::Shutdown { cancel_listener: false })
            } else {
                (phase, Action::Nothing)
            },
        }
    }
}

/// Applies the session's rules to one event.
pub fn step(phase: Phase, event: Event) -> (r: (Phase, Action))
    ensures
        r == transition(phase, event),
{
    if phase == Phase::Stopped || phase == Phase::Errored {
        return (phase, Action::Nothing);
    }
    let running = phase == Phase::Mounting || phase == Phase::Mounted;
    match event {
        Event::Start => if phase == Phase::Idle {
            (Phase::Mounting, Action::RunDriver)
        } else {
            (phase, Action::Nothing)
        },
        Event::Mounted => if phase == Phase::Mounting {
            (Phase::Mounted, Action::Nothing)
        } else {
            (phase, Action::Nothing)
        },
        Event::Interrupt { mount_point } => if running {
            match mount_point {
                Some(p) => (Phase::Unmounting, Action::RemoveMountPoint { mount_point: p }),
                None => (Phase::Errored, Action::Shutdown { cancel_listener: false }),
            }
        } else {
            (phase, Action::Nothing)
        },
        Event::InterruptFailed => if running {
            (Phase::Errored, Action::Shutdown { cancel_listener: false })
        } else {
            (phase, Action::Nothing)
        },
        Event::UnmountDone { removed } => if phase == Phase::Unmounting {
            if removed {
                (Phase::Unmounting, Action::AwaitDriver)
            } else {
                (Phase::Errored, Action::Shutdown { cancel_listener: false })
            }
        } else {
            (phase, Action::Nothing)
        },
        Event::DriverReturned { ok } => {
            let end = if ok { Phase::Stopped } else { Phase::Errored };
            if running {
                (end, Action::Shutdown { cancel_listener: true })
            } else if phase == Phase::Unmounting {
                (end, Action::Shutdown { cancel_listener: false })
            } else {
                (phase, Action::Nothing)
            }
        },
    }
}

/// The phase reached and the actions asked for, one per event, when the
/// events come in order from `start`.
pub open spec fn run(start: Phase, events: Seq<Event>) -> (Phase, Seq<Action>)
    decreases events.len(),
{
    if events.len() == 0 {
        (start, Seq::empty())
    } else {
        let (p, acts) = run(start, events.drop_last());
        let (q, a) = transition(p, events.last());
        (q, acts.push(a))
    }
}

pub open spec fn shutdowns(acts: Seq<Action>) -> nat
    decreases acts.len(),
{
    if acts.len() == 0 {
        0
    } else {
        shutdowns(acts.drop_last()) + if acts.last() is Shutdown { 1nat } else { 0nat }
    }
}

pub open spec fn unmount_requests(acts: Seq<Action>) -> nat
    decreases acts.len(),
{
    if acts.len() == 0 {
        0
    } else {
        unmount_requests(acts.drop_last()) + if acts.last() is RemoveMountPoint {
            1nat
        } else {
            0nat
        }
    }
}

/// The framework is shut down exactly once in a session that has ended, by
/// whichever trigger came first, and not at all in one still under way.
pub proof fn shutdown_once(events: Seq<Event>)
    ensures
        shutdowns(run(Phase::Idle, events).1) == if is_terminal(run(Phase::Idle, events).0) {
            1nat
        } else {
            0nat
        },
    decreases events.len(),
{
    if events.len() > 0 {
        shutdown_once(events.drop_last());
        let acts = run(Phase::Idle, events).1;
        assert(acts.drop_last() == run(Phase::Idle, events.drop_last()).1);
    }
}

/// A session asks at most once for the mount point to be detached, and
/// never before the interrupt.
pub proof fn unmount_requested_at_most_once(events: Seq<Event>)
    ensures
        unmount_requests(run(Phase::Idle, events).1) <= 1,
        run(Phase::Idle, events).0 == Phase::Idle || is_running(run(Phase::Idle, events).0)
            ==> unmount_requests(run(Phase::Idle, events).1) == 0,
    decreases events.len(),
{
    if events.len() > 0 {
        unmount_requested_at_most_once(events.drop_last());
        let acts = run(Phase::Idle, events).1;
        assert(acts.drop_last() == run(Phase::Idle, events.drop_last()).1);
    }
}

/// Each action answers the event at the same place, and a request to detach
/// the mount point carries exactly the path that the mount state held when
/// the interrupt came.
pub proof fn unmount_follows_mount_state_read(events: Seq<Event>, i: int)
    requires
        0 <= i < events.len(),
    ensures
        run(Phase::Idle, events).1.len() == events.len(),
        run(Phase::Idle, events).1[i] matches Action::RemoveMountPoint { mount_point } ==> events[i]
            == (Event::Interrupt { mount_point: Some(mount_point) }),
    decreases events.len(),
{
    lemma_one_action_per_event(events);
    if i < events.len() - 1 {
        unmount_follows_mount_state_read(events.drop_last(), i);
        let acts = run(Phase::Idle, events).1;
        assert(acts.drop_last() == run(Phase::Idle, events.drop_last()).1);
        assert(acts[i] == acts.drop_last()[i]);
        assert(events[i] == events.drop_last()[i]);
    }
}

proof fn lemma_one_action_per_event(events: Seq<Event>)
    ensures
        run(Phase::Idle, events).1.len() == events.len(),
    decreases events.len(),
{
    if events.len() > 0 {
        lemma_one_action_per_event(events.drop_last());
    }
}

} // verus!
