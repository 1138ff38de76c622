use prompt_buddy::resolver::{is_container, resolve, get_electron_app_name, resolve_name, RawIdentity};

fn raw(name: &str, path: Option<&str>) -> RawIdentity {
    RawIdentity { name: name.to_string(), backing_path: path.map(|p| p.to_string()) }
}

#[test]
fn known_marker_gives_canonical_name() {
    assert_eq!(get_electron_app_name("/Applications/DaVinci Resolve/DaVinci Resolve.app"), Some("DaVinci Resolve".to_string()));
    assert_eq!(get_electron_app_name("DaVinci Resolve"), Some("DaVinci Resolve".to_string()));
    assert_eq!(get_electron_app_name("/Applications/Qoder.app"), Some("Qoder".to_string()));
    assert_eq!(get_electron_app_name("/Users/me/bin/qoder-nightly/Main.app"), Some("Qoder".to_string()));
    assert_eq!(get_electron_app_name("Macintosh HD:Applications:Qoder.app:"), Some("Qoder".to_string()));
}

#[test]
fn first_marker_in_table_wins() {
    assert_eq!(get_electron_app_name("/Qoder/DaVinci Resolve.app"), Some("DaVinci Resolve".to_string()));
}

#[test]
fn bundle_name_from_last_segment() {
    assert_eq!(get_electron_app_name("/Applications/Slack.app"), Some("Slack".to_string()));
    assert_eq!(get_electron_app_name("Slack.app"), Some("Slack".to_string()));
    assert_eq!(get_electron_app_name("/Applications/Slack"), Some("Slack".to_string()));
    assert_eq!(get_electron_app_name("/Applications/My.app.app"), Some("My.app".to_string()));
    assert_eq!(get_electron_app_name("/Applications/Slack.app/"), Some("".to_string()));
    assert_eq!(get_electron_app_name("/Applications/Electron.app"), Some("Electron".to_string()));
}

#[test]
fn only_the_container_is_resolved() {
    assert!(is_container("Electron"));
    assert!(!is_container("electron"));
    assert_eq!(resolve(&raw("Safari", Some("/Applications/Qoder.app"))), "Safari");
    assert_eq!(resolve(&raw("Electron", Some("/Applications/Qoder.app"))), "Qoder");
    assert_eq!(resolve(&raw("Electron", Some("/Applications/Figma.app"))), "Figma");
}

#[test]
fn container_without_path_passes_through() {
    assert_eq!(resolve(&raw("Electron", None)), "Electron");
    assert_eq!(resolve(&raw("Electron", Some(""))), "Electron");
    assert_eq!(resolve_name("Electron", None), "Electron");
    assert_eq!(resolve_name("Electron", Some("/x/DaVinci Resolve.app")), "DaVinci Resolve");
}

#[test]
fn empty_bundle_path_resolves_nothing() {
    assert_eq!(get_electron_app_name(""), None);
}
