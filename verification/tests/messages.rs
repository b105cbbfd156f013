//! The texts that go with each kind of failure.

use pos_control::error::ControlError;
use std::path::PathBuf;

#[test]
fn message_of_already_running() {
    assert_eq!(ControlError::AlreadyRunning.message(), "El servidor POS ya está en ejecución");
}

#[test]
fn message_of_not_running() {
    assert_eq!(ControlError::NotRunning.message(), "No hay ningún servidor POS en ejecución");
}

#[test]
fn message_of_unlocated_executable_carries_the_cause() {
    assert_eq!(
        ControlError::PathResolutionError(Some("permission denied".to_string())).message(),
        "Error obteniendo directorio: permission denied"
    );
}

#[test]
fn message_of_missing_parent() {
    assert_eq!(
        ControlError::PathResolutionError(None).message(),
        "Error obteniendo carpeta padre"
    );
}

#[test]
fn message_of_missing_directory_shows_the_path() {
    assert_eq!(
        ControlError::DirectoryNotFound(PathBuf::from("/opt/shop/bin/pos")).message(),
        "No se encontró el directorio del POS en: /opt/shop/bin/pos"
    );
}

#[test]
fn message_of_failed_launch_carries_the_cause() {
    assert_eq!(
        ControlError::SpawnError("No such file or directory (os error 2)".to_string()).message(),
        "Error iniciando POS: No such file or directory (os error 2)"
    );
}

#[test]
fn message_of_failed_termination_carries_the_cause() {
    assert_eq!(
        ControlError::TerminationError("invalid argument".to_string()).message(),
        "Error deteniendo POS: invalid argument"
    );
}
