//! The settings record and its default construction.
use vstd::prelude::*;

verus! {

/// The text of the downloader block of a settings file that nothing has
/// customised: an empty object.
pub open spec fn default_downloader_json() -> Seq<char> {
    "{}"@
}

/// The downloader's own configuration, carried through the settings file as
/// the structured text of its block. The settings store never looks inside.
#[derive(Debug, Clone, PartialEq, Eq)]
pub struct DownloaderConfig {
    pub json: String,
}

impl DownloaderConfig {
    /// Whether this is the configuration that `new` builds.
    pub open spec fn is_default(&self) -> bool {
        self.json@ == default_downloader_json()
    }

    /// The default downloader configuration.
    pub fn new() -> (r: DownloaderConfig)
        ensures
            r.is_default(),
    {
        DownloaderConfig { json: String::from_str("{}") }
    }
}

/// Everything the client keeps between runs: the account credentials, the
/// user interface refresh interval and the downloader configuration.
#[derive(Debug, Clone, PartialEq, Eq)]
pub struct Settings {
    pub username: String,
    pub password: String,
    pub client_id: String,
    pub client_secret: String,
    pub refresh_ui_seconds: u64,
    pub downloader: DownloaderConfig,
}

impl Settings {
    /// Settings for the given account, with a refresh interval of one second
    /// and the default downloader configuration.
    pub fn new(username: &str, password: &str, client_id: &str, client_secret: &str) -> (r:
        Settings)
        ensures
            r.username@ == username@,
            r.password@ == password@,
            r.client_id@ == client_id@,
            r.client_secret@ == client_secret@,
            r.refresh_ui_seconds == 1,
            r.downloader.is_default(),
    {
        Settings {
            username: username.to_owned(),
            password: password.to_owned(),
            client_id: client_id.to_owned(),
            client_secret: client_secret.to_owned(),
            refresh_ui_seconds: 1,
            downloader: DownloaderConfig::new(),
        }
    }
}

} // verus!
