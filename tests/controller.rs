use prompt_buddy::controller::{Phase, RestorationController, SETTLE_DELAY_MS};
use prompt_buddy::resolver::RawIdentity;

fn app(name: &str) -> Option<RawIdentity> {
    Some(RawIdentity { name: name.to_string(), backing_path: None })
}

#[test]
fn full_cycle_with_successful_activation() {
    let mut c = RestorationController::new();
    assert_eq!(c.phase(), Phase::Idle);
    c.on_show(app("TextEditor"));
    assert_eq!(c.phase(), Phase::Captured);
    assert_eq!(c.history().last(), Some("TextEditor".to_string()));
    let target = c.on_prompt_selected();
    assert_eq!(target, Some("TextEditor".to_string()));
    assert_eq!(c.phase(), Phase::Restoring);
    assert_eq!(c.on_activation_finished(true), Ok(()));
    assert_eq!(c.phase(), Phase::Idle);
}

#[test]
fn failed_activation_is_reported() {
    let mut c = RestorationController::new();
    c.on_show(app("Notes"));
    assert_eq!(c.on_prompt_selected(), Some("Notes".to_string()));
    assert_eq!(c.on_activation_finished(false), Err("Failed to activate Notes".to_string()));
    assert_eq!(c.phase(), Phase::Idle);
    // The history survives the failure.
    assert_eq!(c.history().last(), Some("Notes".to_string()));
}

#[test]
fn no_target_is_not_an_error() {
    let mut c = RestorationController::new();
    c.on_show(None);
    assert_eq!(c.on_prompt_selected(), None);
    assert_eq!(c.on_activation_finished(false), Ok(()));
    assert_eq!(c.phase(), Phase::Idle);
}

#[test]
fn finished_outside_restoring_is_quiet() {
    let mut c = RestorationController::new();
    assert_eq!(c.on_activation_finished(false), Ok(()));
    c.on_show(app("Notes"));
    assert_eq!(c.on_activation_finished(false), Ok(()));
    assert_eq!(c.phase(), Phase::Idle);
}

#[test]
fn fallback_target_through_controller() {
    let mut c = RestorationController::new();
    c.on_show(app("Safari"));
    c.on_show(app("Dock"));
    assert_eq!(c.on_prompt_selected(), Some("Safari".to_string()));
    assert_eq!(c.on_activation_finished(false), Err("Failed to activate Safari".to_string()));
}

#[test]
fn settle_delay_value() {
    assert_eq!(SETTLE_DELAY_MS, 100);
}
