use tauri_tray::cli::{Cmd, CLI_NOT_CONFIGURED};
use tauri_tray::error::Error;
use tauri_tray::notification::Notification;

#[test]
fn builder_sets_fields() {
    let n = Notification::new("com.example.app".to_string())
        .title("New message".to_string())
        .body("You've got a new message.".to_string())
        .icon("mail".to_string());
    let (body, title, icon, identifier) = n.into_parts();
    assert_eq!(body, Some("You've got a new message.".to_string()));
    assert_eq!(title, Some("New message".to_string()));
    assert_eq!(icon, Some("mail".to_string()));
    assert_eq!(identifier, "com.example.app");
}

#[test]
fn builder_starts_empty() {
    let (body, title, icon, identifier) = Notification::new("id".to_string()).into_parts();
    assert_eq!(body, None);
    assert_eq!(title, None);
    assert_eq!(icon, None);
    assert_eq!(identifier, "id");
}

#[test]
fn app_id_skipped_for_build_dirs() {
    let n = Notification::new("com.example.app".to_string());
    assert_eq!(n.app_id("C:\\work\\app\\target\\debug", b'\\'), None);
    assert_eq!(n.app_id("C:\\work\\app\\target\\release", b'\\'), None);
    assert_eq!(n.app_id("/home/u/app/target/debug", b'/'), None);
    assert_eq!(n.app_id("\\target\\debug", b'\\'), None);
}

#[test]
fn app_id_set_for_installed_app() {
    let n = Notification::new("com.example.app".to_string());
    assert_eq!(n.app_id("C:\\Program Files\\App", b'\\'), Some("com.example.app".to_string()));
    assert_eq!(n.app_id("C:\\work\\target\\debug", b'/'), Some("com.example.app".to_string()));
    assert_eq!(n.app_id("C:\\work\\xtarget\\debug", b'\\'), Some("com.example.app".to_string()));
    assert_eq!(n.app_id("", b'\\'), Some("com.example.app".to_string()));
    assert_eq!(n.app_id("target\\debug", b'\\'), Some("com.example.app".to_string()));
}

#[test]
fn cli_matches_requires_configuration() {
    assert_eq!(Cmd::CliMatches.check_configured(true), Ok(()));
    assert_eq!(
        Cmd::CliMatches.check_configured(false),
        Err(Error::ApiNotAllowlisted(CLI_NOT_CONFIGURED.to_string()))
    );
}
