//! Whole operations: what a start or a stop comes to when the host follows
//! the controller's actions to the end, and what holds of sequences of
//! operations.

use crate::controller::{
    slot_after_start_event, slot_after_stop_event, start_action_for, started_message,
    stop_action_for, stopped_message, StartActionView, StartEvent, StopActionView, StopEvent,
};
use crate::error::ControlError;
use crate::launch::Platform;
use crate::paths::managed_directory_of;
use std::path::PathBuf;
use vstd::prelude::*;

verus! {

/// What the host finds when it carries out the actions of one start.
pub struct StartEnvironment<H> {
    /// The location of the host executable, or the operating system's
    /// error.
    pub located: Result<PathBuf, String>,
    /// Whether the directory that the controller asks about exists.
    pub directory_exists: bool,
    /// The handle of the launched process, or the operating system's error.
    pub launched: Result<H, String>,
}

/// How a start ended.
pub struct StartRun<H> {
    /// The slot at the end.
    pub slot: Option<H>,
    /// What the caller was told.
    pub reply: Result<Seq<char>, ControlError>,
    /// How many times the host was told to launch a process.
    pub launches: nat,
}

/// How a stop ended.
pub struct StopRun<H> {
    /// The slot at the end.
    pub slot: Option<H>,
    /// What the caller was told.
    pub reply: Result<Seq<char>, ControlError>,
    /// The handles that the host was told to terminate, in order.
    pub terminated: Seq<H>,
}

/// The event with which the host answers `action` of a start; `None` for a
/// reply, which ends the exchange.
pub open spec fn start_event_after<H>(
    action: StartActionView,
    environment: StartEnvironment<H>,
) -> Option<StartEvent<H>> {
    match action {
        StartActionView::LocateExecutable => Some(
            StartEvent::ExecutableLocated(environment.located),
        ),
        StartActionView::ProbeDirectory(directory) => Some(
            StartEvent::DirectoryProbed { directory, exists: environment.directory_exists },
        ),
        StartActionView::Launch(_) => Some(StartEvent::Launched(environment.launched)),
        StartActionView::Reply(_) => None,
    }
}

/// How many events can still follow `event` in a start.
pub open spec fn start_events_left<H>(event: StartEvent<H>) -> nat {
    match event {
        StartEvent::Requested => 3,
        StartEvent::ExecutableLocated(_) => 2,
        StartEvent::DirectoryProbed { .. } => 1,
        StartEvent::Launched(_) => 0,
    }
}

/// The rest of a start from `event` on: the controller answers the event,
/// the host carries the action out and reports back, until the controller
/// replies.
pub open spec fn start_run_from<H>(
    slot: Option<H>,
    platform: Platform,
    event: StartEvent<H>,
    environment: StartEnvironment<H>,
) -> StartRun<H>
    decreases start_events_left(event),
{
    let action = start_action_for(slot, platform, event);
    let slot_now = slot_after_start_event(slot, event);
    match start_event_after(action, environment) {
        Some(next) => {
            let rest = start_run_from(slot_now, platform, next, environment);
            StartRun {
                launches: rest.launches + if action is Launch { 1nat } else { 0nat },
                ..rest
            }
        },
        None => StartRun { slot: slot_now, reply: action->Reply_0, launches: 0 },
    }
}

/// A whole start on a controller whose slot is `slot`.
pub open spec fn start_run<H>(
    slot: Option<H>,
    platform: Platform,
    environment: StartEnvironment<H>,
) -> StartRun<H> {
    start_run_from(slot, platform, StartEvent::Requested, environment)
}

/// The event with which the host answers `action` of a stop; `None` for a
/// reply, which ends the exchange.
pub open spec fn stop_event_after<H>(
    action: StopActionView<H>,
    termination: Result<(), String>,
) -> Option<StopEvent> {
    match action {
        StopActionView::Terminate(_) => Some(StopEvent::Terminated(termination)),
        StopActionView::Reply(_) => None,
    }
}

/// How many events can still follow `event` in a stop.
pub open spec fn stop_events_left(event: StopEvent) -> nat {
    match event {
        StopEvent::Requested => 1,
        StopEvent::Terminated(_) => 0,
    }
}

/// The rest of a stop from `event` on, where `termination` is what the
/// operating system answers when asked to terminate a process.
pub open spec fn stop_run_from<H>(
    slot: Option<H>,
    event: StopEvent,
    termination: Result<(), String>,
) -> StopRun<H>
    decreases stop_events_left(event),
{
    let action = stop_action_for(slot, event);
    let slot_now = slot_after_stop_event(slot, event);
    match stop_event_after(action, termination) {
        Some(next) => {
            let rest = stop_run_from(slot_now, next, termination);
            StopRun { terminated: seq![action->Terminate_0] + rest.terminated, ..rest }
        },
        None => StopRun { slot: slot_now, reply: action->Reply_0, terminated: Seq::empty() },
    }
}

/// A whole stop on a controller whose slot is `slot`.
pub open spec fn stop_run<H>(slot: Option<H>, termination: Result<(), String>) -> StopRun<H> {
    stop_run_from(slot, StopEvent::Requested, termination)
}

/// A start comes to exactly one of six ends, decided in this order: the
/// slot is occupied; the executable cannot be located; its location has no
/// parent; the managed directory is missing; the launch fails; the launch
/// works. Only the last one changes the slot, and the host is told to
/// launch only once the first four are ruled out.
pub proof fn lemma_start_run<H>(
    slot: Option<H>,
    platform: Platform,
    environment: StartEnvironment<H>,
)
    ensures
        ({
            let run = start_run(slot, platform, environment);
            if slot is Some {
                run == (StartRun { slot, reply: Err(ControlError::AlreadyRunning), launches: 0 })
            } else {
                match environment.located {
                    Err(cause) => run == (StartRun {
                        slot,
                        reply: Err(ControlError::PathResolutionError(Some(cause))),
                        launches: 0,
                    }),
                    Ok(executable) => match managed_directory_of(executable) {
                        None => run == (StartRun {
                            slot,
                            reply: Err(ControlError::PathResolutionError(None)),
                            launches: 0,
                        }),
                        Some(directory) => if !environment.directory_exists {
                            run == (StartRun {
                                slot,
                                reply: Err(ControlError::DirectoryNotFound(directory)),
                                launches: 0,
                            })
                        } else {
                            match environment.launched {
                                Err(cause) => run == (StartRun {
                                    slot,
                                    reply: Err(ControlError::SpawnError(cause)),
                                    launches: 1,
                                }),
                                Ok(handle) => run == (StartRun {
                                    slot: Some(handle),
                                    reply: Ok(started_message()),
                                    launches: 1,
                                }),
                            }
                        },
                    },
                }
            }
        }),
{
    reveal_with_fuel(start_run_from, 4);
}

/// A stop on an empty slot is refused with `NotRunning`. A stop on an
/// occupied slot empties it and has the host terminate the process that
/// was in it; the reply tells whether the termination worked.
pub proof fn lemma_stop_run<H>(slot: Option<H>, termination: Result<(), String>)
    ensures
        ({
            let run = stop_run(slot, termination);
            match slot {
                None => run == (StopRun {
                    slot: None::<H>,
                    reply: Err(ControlError::NotRunning),
                    terminated: Seq::<H>::empty(),
                }),
                Some(handle) => {
                    &&& run.slot is None
                    &&& run.terminated == seq![handle]
                    &&& run.reply == match termination {
                        Ok(_) => Ok::<Seq<char>, ControlError>(stopped_message()),
                        Err(cause) => Err(ControlError::TerminationError(cause)),
                    }
                },
            }
        }),
{
    reveal_with_fuel(stop_run_from, 2);
    let run = stop_run(slot, termination);
    if let Some(handle) = slot {
        assert(run.terminated =~= seq![handle]);
    }
}

} // verus!
