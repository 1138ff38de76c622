use prompt_buddy::eligibility::is_eligible;
use prompt_buddy::eligibility::is_valid_app_name;
use prompt_buddy::history::{get_frontmost_app, FocusHistory};
use prompt_buddy::resolver::RawIdentity;

fn app(name: &str) -> Option<RawIdentity> {
    Some(RawIdentity { name: name.to_string(), backing_path: None })
}

fn container(path: Option<&str>) -> Option<RawIdentity> {
    Some(RawIdentity { name: "Electron".to_string(), backing_path: path.map(|p| p.to_string()) })
}

fn s(x: &str) -> Option<String> {
    Some(x.to_string())
}

#[test]
fn starts_empty() {
    let h = FocusHistory::new();
    assert_eq!(h.last(), None);
    assert_eq!(h.previous(), None);
    assert_eq!(h.take_restoration_target(), None);
}

#[test]
fn two_captures_shift_last_into_previous() {
    let mut h = FocusHistory::new();
    h.capture(app("Safari"));
    assert_eq!(h.last(), s("Safari"));
    assert_eq!(h.previous(), None);
    h.capture(app("Notes"));
    assert_eq!(h.last(), s("Notes"));
    assert_eq!(h.previous(), s("Safari"));
}

#[test]
fn capture_of_nothing_changes_nothing() {
    let mut h = FocusHistory::new();
    h.capture(None);
    assert_eq!(h.last(), None);
    h.capture(app("Safari"));
    h.capture(app("Notes"));
    h.capture(None);
    h.capture(None);
    assert_eq!(h.last(), s("Notes"));
    assert_eq!(h.previous(), s("Safari"));
}

#[test]
fn invalid_names_are_not_recorded() {
    let mut h = FocusHistory::new();
    h.capture(app("Safari"));
    h.capture(app("Prompt Buddy"));
    h.capture(app("X"));
    h.capture(app(""));
    assert_eq!(h.last(), s("Safari"));
    assert_eq!(h.previous(), None);
}

#[test]
fn restoration_prefers_last() {
    let mut h = FocusHistory::new();
    h.capture(app("Safari"));
    h.capture(app("Notes"));
    assert_eq!(h.take_restoration_target(), s("Notes"));
    // Taking the target leaves the history as it is.
    assert_eq!(h.take_restoration_target(), s("Notes"));
    assert_eq!(h.last(), s("Notes"));
}

#[test]
fn restoration_falls_back_to_previous() {
    let mut h = FocusHistory::new();
    h.capture(app("Safari"));
    h.capture(app("Dock"));
    assert_eq!(h.last(), s("Dock"));
    assert_eq!(h.take_restoration_target(), s("Safari"));
}

#[test]
fn restoration_targets_nothing_when_both_ineligible() {
    let mut h = FocusHistory::new();
    h.capture(app("Finder"));
    h.capture(app("coreaudiod"));
    assert_eq!(h.take_restoration_target(), None);
    let mut single = FocusHistory::new();
    single.capture(app("Finder"));
    assert_eq!(single.take_restoration_target(), None);
}

#[test]
fn finder_then_text_editor_then_notes() {
    let mut h = FocusHistory::new();
    assert!(!is_eligible("Finder"));
    h.capture(app("Finder"));
    h.capture(app("TextEditor"));
    assert_eq!(h.last(), s("TextEditor"));
    assert_eq!(h.take_restoration_target(), s("TextEditor"));
    h.capture(app("Notes"));
    assert_eq!(h.last(), s("Notes"));
    assert_eq!(h.previous(), s("TextEditor"));
    assert_eq!(h.take_restoration_target(), s("Notes"));
}

#[test]
fn unresolved_container_leaves_history_unchanged() {
    let mut h = FocusHistory::new();
    h.capture(app("Safari"));
    h.capture(app("Notes"));
    assert!(!is_valid_app_name("Electron"));
    h.capture(container(None));
    h.capture(container(Some("")));
    h.capture(container(Some("/Applications/Electron.app")));
    h.capture(app("Electron"));
    assert_eq!(h.last(), s("Notes"));
    assert_eq!(h.previous(), s("Safari"));
    assert_eq!(h.take_restoration_target(), s("Notes"));
}

#[test]
fn resolved_container_is_recorded() {
    let mut h = FocusHistory::new();
    h.capture(app("Safari"));
    h.capture(container(Some("/Applications/Qoder.app")));
    assert_eq!(h.last(), s("Qoder"));
    assert_eq!(h.previous(), s("Safari"));
    h.capture(container(Some("/Users/me/Applications/Figma.app")));
    assert_eq!(h.last(), s("Figma"));
    assert_eq!(h.previous(), s("Qoder"));
}

#[test]
fn frontmost_app_resolves_then_validates() {
    let r = |n: &str, p: Option<&str>| RawIdentity { name: n.to_string(), backing_path: p.map(|x| x.to_string()) };
    assert_eq!(get_frontmost_app(&r("Safari", None)), s("Safari"));
    assert_eq!(get_frontmost_app(&r("Electron", Some("/Applications/Qoder.app"))), s("Qoder"));
    assert_eq!(get_frontmost_app(&r("Electron", None)), None);
    assert_eq!(get_frontmost_app(&r("Prompt Buddy", None)), None);
    assert_eq!(get_frontmost_app(&r("Electron", Some("/Applications/Prompt Buddy.app"))), None);
}
