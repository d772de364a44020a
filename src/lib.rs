//! Persistent settings of the download client: the settings record, its
//! default construction, and the rules that decide where it is saved and
//! from which file it is loaded.
pub mod error;
pub mod location;
pub mod settings;

pub use error::SettingsError;
pub use settings::{DownloaderConfig, Settings};
