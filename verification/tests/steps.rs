//! Single steps of the start and stop exchanges.

use pos_control::controller::{
    ProcessController, StartAction, StartEvent, StopAction, StopEvent,
};
use pos_control::error::ControlError;
use pos_control::launch::{launch_plan, script_runner, CommandLine, LaunchPlan, Platform};
use pos_control::paths::managed_directory;
use std::path::PathBuf;

fn running(handle: u32) -> ProcessController<u32> {
    let mut controller = ProcessController::new();
    let action = controller.on_start_event(Platform::Other, StartEvent::Launched(Ok(handle)));
    assert_eq!(
        action,
        StartAction::Reply(Ok("Servidor POS iniciado correctamente".to_string()))
    );
    controller
}

#[test]
fn request_on_idle_controller_asks_for_the_executable() {
    let mut controller: ProcessController<u32> = ProcessController::new();
    let action = controller.on_start_event(Platform::Other, StartEvent::Requested);
    assert_eq!(action, StartAction::LocateExecutable);
    assert!(!controller.status());
}

#[test]
fn request_on_running_controller_is_refused() {
    let mut controller = running(7);
    let action = controller.on_start_event(Platform::Other, StartEvent::Requested);
    assert_eq!(action, StartAction::Reply(Err(ControlError::AlreadyRunning)));
    assert!(controller.status());
    assert_eq!(controller.on_stop_event(StopEvent::Requested), StopAction::Terminate(7));
}

#[test]
fn located_executable_leads_to_a_probe_of_the_managed_directory() {
    let mut controller: ProcessController<u32> = ProcessController::new();
    let action = controller.on_start_event(
        Platform::Other,
        StartEvent::ExecutableLocated(Ok(PathBuf::from("/srv/app/host"))),
    );
    assert_eq!(action, StartAction::ProbeDirectory(PathBuf::from("/srv/app/pos")));
    assert!(!controller.status());
}

#[test]
fn unlocated_executable_ends_the_start() {
    let mut controller: ProcessController<u32> = ProcessController::new();
    let action = controller.on_start_event(
        Platform::Other,
        StartEvent::ExecutableLocated(Err("not supported".to_string())),
    );
    assert_eq!(
        action,
        StartAction::Reply(Err(ControlError::PathResolutionError(Some(
            "not supported".to_string()
        ))))
    );
}

#[test]
fn executable_without_parent_ends_the_start() {
    let mut controller: ProcessController<u32> = ProcessController::new();
    let action = controller
        .on_start_event(Platform::Other, StartEvent::ExecutableLocated(Ok(PathBuf::from(""))));
    assert_eq!(action, StartAction::Reply(Err(ControlError::PathResolutionError(None))));
}

#[test]
fn existing_directory_leads_to_a_launch() {
    let mut controller: ProcessController<u32> = ProcessController::new();
    let action = controller.on_start_event(
        Platform::Windows,
        StartEvent::DirectoryProbed { directory: PathBuf::from("/srv/app/pos"), exists: true },
    );
    assert_eq!(
        action,
        StartAction::Launch(LaunchPlan {
            command: CommandLine {
                program: "cmd".to_string(),
                args: vec!["/C".to_string(), "npm".to_string(), "start".to_string()],
            },
            directory: PathBuf::from("/srv/app/pos"),
        })
    );
    assert!(!controller.status());
}

#[test]
fn missing_directory_ends_the_start() {
    let mut controller: ProcessController<u32> = ProcessController::new();
    let action = controller.on_start_event(
        Platform::Other,
        StartEvent::DirectoryProbed { directory: PathBuf::from("/srv/app/pos"), exists: false },
    );
    assert_eq!(
        action,
        StartAction::Reply(Err(ControlError::DirectoryNotFound(PathBuf::from("/srv/app/pos"))))
    );
    assert!(!controller.status());
}

#[test]
fn failed_launch_ends_the_start_and_leaves_the_slot_empty() {
    let mut controller: ProcessController<u32> = ProcessController::new();
    let action = controller
        .on_start_event(Platform::Other, StartEvent::Launched(Err("no npm".to_string())));
    assert_eq!(action, StartAction::Reply(Err(ControlError::SpawnError("no npm".to_string()))));
    assert!(!controller.status());
}

#[test]
fn launched_handle_moves_into_the_empty_slot() {
    let mut controller = running(41);
    assert!(controller.status());
    assert_eq!(controller.on_stop_event(StopEvent::Requested), StopAction::Terminate(41));
    assert!(!controller.status());
}

#[test]
fn launched_handle_does_not_replace_the_one_in_the_slot() {
    let mut controller = running(1);
    let action = controller.on_start_event(Platform::Other, StartEvent::Launched(Ok(2)));
    assert_eq!(action, StartAction::Reply(Err(ControlError::AlreadyRunning)));
    assert_eq!(controller.on_stop_event(StopEvent::Requested), StopAction::Terminate(1));
}

#[test]
fn failed_launch_on_running_controller_keeps_the_slot() {
    let mut controller = running(1);
    let action =
        controller.on_start_event(Platform::Other, StartEvent::Launched(Err("x".to_string())));
    assert_eq!(action, StartAction::Reply(Err(ControlError::SpawnError("x".to_string()))));
    assert!(controller.status());
}

#[test]
fn stop_request_on_idle_controller_is_refused() {
    let mut controller: ProcessController<u32> = ProcessController::new();
    assert_eq!(
        controller.on_stop_event(StopEvent::Requested),
        StopAction::Reply(Err(ControlError::NotRunning))
    );
    assert!(!controller.status());
}

#[test]
fn termination_report_is_turned_into_the_reply() {
    let mut controller = running(5);
    assert_eq!(
        controller.on_stop_event(StopEvent::Terminated(Ok(()))),
        StopAction::Reply(Ok("Servidor POS detenido correctamente".to_string()))
    );
    assert_eq!(
        controller.on_stop_event(StopEvent::Terminated(Err("denied".to_string()))),
        StopAction::Reply(Err(ControlError::TerminationError("denied".to_string())))
    );
    assert!(controller.status());
}

#[test]
fn managed_directory_is_pos_beside_the_executable() {
    assert_eq!(
        managed_directory(&PathBuf::from("/opt/shop/bin/host")),
        Some(PathBuf::from("/opt/shop/bin/pos"))
    );
    assert_eq!(managed_directory(&PathBuf::from("host")), Some(PathBuf::from("pos")));
    assert_eq!(managed_directory(&PathBuf::from("/host")), Some(PathBuf::from("/pos")));
}

#[test]
fn managed_directory_needs_a_parent() {
    assert_eq!(managed_directory(&PathBuf::from("/")), None);
    assert_eq!(managed_directory(&PathBuf::from("")), None);
}

#[test]
fn script_runner_by_platform() {
    let windows = script_runner(Platform::Windows);
    assert_eq!(windows.program, "cmd");
    assert_eq!(windows.args, vec!["/C".to_string(), "npm".to_string(), "start".to_string()]);
    let other = script_runner(Platform::Other);
    assert_eq!(other.program, "npm");
    assert_eq!(other.args, vec!["start".to_string()]);
}

#[test]
fn launch_plan_keeps_the_directory() {
    let plan = launch_plan(Platform::Other, PathBuf::from("/srv/app/pos"));
    assert_eq!(plan.directory, PathBuf::from("/srv/app/pos"));
    assert_eq!(plan.command, script_runner(Platform::Other));
}
