use downonspot_settings::{DownloaderConfig, Settings};

#[test]
fn new_fills_credentials_and_defaults() {
    let s = Settings::new("u", "p", "id", "secret");
    assert_eq!(s.username, "u");
    assert_eq!(s.password, "p");
    assert_eq!(s.client_id, "id");
    assert_eq!(s.client_secret, "secret");
    assert_eq!(s.refresh_ui_seconds, 1);
    assert_eq!(s.downloader, DownloaderConfig::new());
}

#[test]
fn new_accepts_empty_credentials() {
    let s = Settings::new("", "", "", "");
    assert_eq!(s.username, "");
    assert_eq!(s.password, "");
    assert_eq!(s.client_id, "");
    assert_eq!(s.client_secret, "");
    assert_eq!(s.refresh_ui_seconds, 1);
}

#[test]
fn default_downloader_is_empty_object() {
    assert_eq!(DownloaderConfig::new().json, "{}");
}

#[test]
fn new_values_are_independent_copies() {
    let a = Settings::new("u", "p", "id", "secret");
    let mut b = a.clone();
    b.refresh_ui_seconds = 5;
    b.username.push('x');
    assert_eq!(a.refresh_ui_seconds, 1);
    assert_eq!(a.username, "u");
    assert_ne!(a, b);
}
