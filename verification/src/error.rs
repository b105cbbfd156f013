//! The ways in which a lifecycle operation can fail.

use crate::paths::{displayed, path_text};
use std::path::PathBuf;
use vstd::prelude::*;
use vstd::string::*;

verus! {

/// Why a start or stop request was turned down or could not be carried out.
#[derive(Debug, PartialEq, Eq)]
pub enum ControlError {
    /// A start was requested while the slot already held a process.
    AlreadyRunning,
    /// A stop was requested while the slot was empty.
    NotRunning,
    /// The directory of the host executable could not be determined. Holds
    /// the operating system's error when the executable itself could not be
    /// located, and `None` when its location has no parent directory.
    PathResolutionError(Option<String>),
    /// The managed working directory does not exist. Holds the path that
    /// was looked for.
    DirectoryNotFound(PathBuf),
    /// The operating system could not launch the managed process. Holds its
    /// error text.
    SpawnError(String),
    /// The operating system could not terminate the managed process. Holds
    /// its error text.
    TerminationError(String),
}

/// The human-readable message that goes with `error`.
pub open spec fn message_of(error: ControlError) -> Seq<char> {
    match error {
        ControlError::AlreadyRunning => "El servidor POS ya está en ejecución"@,
        ControlError::NotRunning => "No hay ningún servidor POS en ejecución"@,
        ControlError::PathResolutionError(Some(cause)) => "Error obteniendo directorio: "@
            + cause@,
        ControlError::PathResolutionError(None) => "Error obteniendo carpeta padre"@,
        ControlError::DirectoryNotFound(path) => "No se encontró el directorio del POS en: "@
            + displayed(path),
        ControlError::SpawnError(cause) => "Error iniciando POS: "@ + cause@,
        ControlError::TerminationError(cause) => "Error deteniendo POS: "@ + cause@,
    }
}

impl ControlError {
    /// Renders the error for the caller of the failed operation. Errors of
    /// the operating system appear verbatim after a fixed prefix.
    pub fn message(&self) -> (text: String)
        ensures
            text@ == message_of(*self),
    {
        match self {
            ControlError::AlreadyRunning => String::from_str(
                "El servidor POS ya está en ejecución",
            ),
            ControlError::NotRunning => String::from_str(
                "No hay ningún servidor POS en ejecución",
            ),
            ControlError::PathResolutionError(Some(cause)) => String::from_str(
                "Error obteniendo directorio: ",
            ).concat(cause.as_str()),
            ControlError::PathResolutionError(None) => String::from_str(
                "Error obteniendo carpeta padre",
            ),
            ControlError::DirectoryNotFound(path) => {
                let shown = path_text(path);
                String::from_str("No se encontró el directorio del POS en: ").concat(
                    shown.as_str(),
                )
            },
            ControlError::SpawnError(cause) => String::from_str("Error iniciando POS: ").concat(
                cause.as_str(),
            ),
            ControlError::TerminationError(cause) => String::from_str(
                "Error deteniendo POS: ",
            ).concat(cause.as_str()),
        }
    }
}

} // verus!
