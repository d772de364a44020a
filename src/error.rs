//! The one error type of the settings store.
use vstd::prelude::*;

verus! {

/// Why saving or loading the settings failed.
#[derive(Debug, Clone, PartialEq, Eq)]
pub enum SettingsError {
    /// No home directory is known, so the per-user settings file has no path.
    HomeDirUnavailable,
    /// The file to read does not exist; holds its path.
    NotFound(String),
    /// Any other failure to open, read, create or write a file; holds the
    /// system's message.
    Io(String),
    /// The text could not be turned into settings, or the settings into
    /// text; holds the message.
    Format(String),
}

} // verus!
