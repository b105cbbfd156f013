//! The process controller: a slot for at most one process handle, and the
//! decisions of its start, stop and status operations.
//!
//! The controller never touches the operating system. A start or a stop is
//! a short exchange with the host: the host reports an event, the
//! controller answers with the next action, until the action is a reply to
//! the caller of the operation. The host keeps exclusive access to the
//! controller from the request to the reply.

use crate::error::ControlError;
use crate::launch::{launch_plan, launch_plan_of, LaunchPlan, LaunchPlanView, Platform};
use crate::paths::{managed_directory, managed_directory_of};
use std::path::PathBuf;
use vstd::prelude::*;
use vstd::string::*;

verus! {

/// What the host reports to the controller in the course of a start.
#[derive(Debug, PartialEq, Eq)]
pub enum StartEvent<H> {
    /// A caller asked for the managed process to be started.
    Requested,
    /// The host looked up the location of its own executable: the path, or
    /// the operating system's error.
    ExecutableLocated(Result<PathBuf, String>),
    /// The host looked for `directory` in the file system.
    DirectoryProbed { directory: PathBuf, exists: bool },
    /// The host tried to launch the managed process: its handle, or the
    /// operating system's error.
    Launched(Result<H, String>),
}

/// What the controller asks of the host in the course of a start.
#[derive(Debug, PartialEq, Eq)]
pub enum StartAction {
    /// Look up the location of the host executable.
    LocateExecutable,
    /// Find out whether this directory exists.
    ProbeDirectory(PathBuf),
    /// Launch the managed process as planned.
    Launch(LaunchPlan),
    /// The start is over: hand this to the caller.
    Reply(Result<String, ControlError>),
}

/// A start action with its texts as sequences of characters.
pub enum StartActionView {
    LocateExecutable,
    ProbeDirectory(PathBuf),
    Launch(LaunchPlanView),
    Reply(Result<Seq<char>, ControlError>),
}

/// What the host reports to the controller in the course of a stop.
#[derive(Debug, PartialEq, Eq)]
pub enum StopEvent {
    /// A caller asked for the managed process to be stopped.
    Requested,
    /// The host asked the operating system to terminate the process: done,
    /// or the operating system's error.
    Terminated(Result<(), String>),
}

/// What the controller asks of the host in the course of a stop.
#[derive(Debug, PartialEq, Eq)]
pub enum StopAction<H> {
    /// Forcefully terminate the process behind this handle.
    Terminate(H),
    /// The stop is over: hand this to the caller.
    Reply(Result<String, ControlError>),
}

/// A stop action with its texts as sequences of characters.
pub enum StopActionView<H> {
    Terminate(H),
    Reply(Result<Seq<char>, ControlError>),
}

/// A reply with its confirmation as a sequence of characters.
pub open spec fn reply_view(reply: Result<String, ControlError>) -> Result<
    Seq<char>,
    ControlError,
> {
    match reply {
        Ok(confirmation) => Ok(confirmation@),
        Err(error) => Err(error),
    }
}

impl View for StartAction {
    type V = StartActionView;

    open spec fn view(&self) -> StartActionView {
        match *self {
            StartAction::LocateExecutable => StartActionView::LocateExecutable,
            StartAction::ProbeDirectory(directory) => StartActionView::ProbeDirectory(directory),
            StartAction::Launch(plan) => StartActionView::Launch(plan@),
            StartAction::Reply(reply) => StartActionView::Reply(reply_view(reply)),
        }
    }
}

impl<H> View for StopAction<H> {
    type V = StopActionView<H>;

    open spec fn view(&self) -> StopActionView<H> {
        match *self {
            StopAction::Terminate(handle) => StopActionView::Terminate(handle),
            StopAction::Reply(reply) => StopActionView::Reply(reply_view(reply)),
        }
    }
}

/// The confirmation of a successful start.
pub open spec fn started_message() -> Seq<char> {
    "Servidor POS iniciado correctamente"@
}

/// The confirmation of a successful stop.
pub open spec fn stopped_message() -> Seq<char> {
    "Servidor POS detenido correctamente"@
}

/// The slot after the controller has taken `event` of a start: a handle
/// moves in when a launch is reported as done and the slot is empty;
/// nothing else changes the slot.
pub open spec fn slot_after_start_event<H>(slot: Option<H>, event: StartEvent<H>) -> Option<H> {
    match (slot, event) {
        (None, StartEvent::Launched(Ok(handle))) => Some(handle),
        _ => slot,
    }
}

/// The controller's answer to `event` of a start, for a controller whose
/// slot is `slot`.
///
/// - A request is refused with `AlreadyRunning` when the slot is occupied;
///   otherwise the host is to locate its executable.
/// - An executable that could not be located, or whose location has no
///   parent, ends the start with `PathResolutionError`; otherwise the host
///   is to probe the managed directory beside the executable.
/// - A missing directory ends the start with `DirectoryNotFound`; otherwise
///   the host is to launch the managed process in it.
/// - A failed launch ends the start with `SpawnError`. A launch that worked
///   ends it with the confirmation, unless the slot is occupied: then the
///   answer is `AlreadyRunning`, as for any start of a running controller.
pub open spec fn start_action_for<H>(
    slot: Option<H>,
    platform: Platform,
    event: StartEvent<H>,
) -> StartActionView {
    match event {
        StartEvent::Requested => match slot {
            Some(_) => StartActionView::Reply(Err(ControlError::AlreadyRunning)),
            None => StartActionView::LocateExecutable,
        },
        StartEvent::ExecutableLocated(Err(cause)) => StartActionView::Reply(
            Err(ControlError::PathResolutionError(Some(cause))),
        ),
        StartEvent::ExecutableLocated(Ok(executable)) => match managed_directory_of(executable) {
            Some(directory) => StartActionView::ProbeDirectory(directory),
            None => StartActionView::Reply(Err(ControlError::PathResolutionError(None))),
        },
        StartEvent::DirectoryProbed { directory, exists } => if exists {
            StartActionView::Launch(launch_plan_of(platform, directory))
        } else {
            StartActionView::Reply(Err(ControlError::DirectoryNotFound(directory)))
        },
        StartEvent::Launched(Err(cause)) => StartActionView::Reply(
            Err(ControlError::SpawnError(cause)),
        ),
        StartEvent::Launched(Ok(_)) => match slot {
            Some(_) => StartActionView::Reply(Err(ControlError::AlreadyRunning)),
            None => StartActionView::Reply(Ok(started_message())),
        },
    }
}

/// The slot after the controller has taken `event` of a stop: a request
/// empties it, whatever becomes of the termination.
pub open spec fn slot_after_stop_event<H>(slot: Option<H>, event: StopEvent) -> Option<H> {
    match event {
        StopEvent::Requested => None,
        StopEvent::Terminated(_) => slot,
    }
}

/// The controller's answer to `event` of a stop, for a controller whose
/// slot is `slot`.
///
/// - A request is refused with `NotRunning` when the slot is empty;
///   otherwise the host is to terminate the process that was in the slot.
/// - A failed termination ends the stop with `TerminationError`; one that
///   worked ends it with the confirmation.
pub open spec fn stop_action_for<H>(slot: Option<H>, event: StopEvent) -> StopActionView<H> {
    match event {
        StopEvent::Requested => match slot {
            Some(handle) => StopActionView::Terminate(handle),
            None => StopActionView::Reply(Err(ControlError::NotRunning)),
        },
        StopEvent::Terminated(Ok(_)) => StopActionView::Reply(Ok(stopped_message())),
        StopEvent::Terminated(Err(cause)) => StopActionView::Reply(
            Err(ControlError::TerminationError(cause)),
        ),
    }
}

/// Keeps track of the one managed process. `H` is the host's handle to a
/// running process; the controller stores and returns it and never looks
/// inside.
#[derive(Debug)]
pub struct ProcessController<H> {
    slot: Option<H>,
}

impl<H> View for ProcessController<H> {
    type V = Option<H>;

    /// The slot: the handle of the managed process, if the controller holds
    /// one.
    closed spec fn view(&self) -> Option<H> {
        self.slot
    }
}

impl<H> ProcessController<H> {
    /// Whether the controller is in its running state.
    pub open spec fn is_running(&self) -> bool {
        self@ is Some
    }

    /// A controller in its idle state.
    pub fn new() -> (controller: Self)
        ensures
            controller@ is None,
    {
        ProcessController { slot: None }
    }

    /// Reports whether the slot is occupied. The operating system is not
    /// asked whether the process is still alive.
    pub fn status(&self) -> (running: bool)
        ensures
            running == self.is_running(),
    {
        self.slot.is_some()
    }

    /// Takes one event of a start and says what the host has to do next.
    pub fn on_start_event(&mut self, platform: Platform, event: StartEvent<H>) -> (action:
        StartAction)
        ensures
            final(self)@ == slot_after_start_event(old(self)@, event),
            action@ == start_action_for(old(self)@, platform, event),
    {
        match event {
            StartEvent::Requested => {
                if self.slot.is_some() {
                    StartAction::Reply(Err(ControlError::AlreadyRunning))
                } else {
                    StartAction::LocateExecutable
                }
            },
            StartEvent::ExecutableLocated(Err(cause)) => StartAction::Reply(
                Err(ControlError::PathResolutionError(Some(cause))),
            ),
            StartEvent::ExecutableLocated(Ok(executable)) => match managed_directory(
                &executable,
            ) {
                Some(directory) => StartAction::ProbeDirectory(directory),
                None => StartAction::Reply(Err(ControlError::PathResolutionError(None))),
            },
            StartEvent::DirectoryProbed { directory, exists } => {
                if exists {
                    StartAction::Launch(launch_plan(platform, directory))
                } else {
                    StartAction::Reply(Err(ControlError::DirectoryNotFound(directory)))
                }
            },
            StartEvent::Launched(Err(cause)) => StartAction::Reply(
                Err(ControlError::SpawnError(cause)),
            ),
            StartEvent::Launched(Ok(handle)) => {
                if self.slot.is_some() {
                    StartAction::Reply(Err(ControlError::AlreadyRunning))
                } else {
                    self.slot = Some(handle);
                    StartAction::Reply(Ok(String::from_str("Servidor POS iniciado correctamente")))
                }
            },
        }
    }

    /// Takes one event of a stop and says what the host has to do next.
    pub fn on_stop_event(&mut self, event: StopEvent) -> (action: StopAction<H>)
        ensures
            final(self)@ == slot_after_stop_event(old(self)@, event),
            action@ == stop_action_for(old(self)@, event),
    {
        match event {
            StopEvent::Requested => match self.slot.take() {
                Some(handle) => StopAction::Terminate(handle),
                None => StopAction::Reply(Err(ControlError::NotRunning)),
            },
            StopEvent::Terminated(Ok(_)) => StopAction::Reply(
                Ok(String::from_str("Servidor POS detenido correctamente")),
            ),
            StopEvent::Terminated(Err(cause)) => StopAction::Reply(
                Err(ControlError::TerminationError(cause)),
            ),
        }
    }
}

} // verus!
