use embjs::engine::{Lifecycle, Resource};
use embjs::error::EngineError;
use embjs::host::{console_line, plan_timeout, TIMEOUT_SENTINEL};
use embjs::scene::Scene;
use embjs::script::{ExportStrategy, Script};

#[test]
fn scenario_c_timeout_plan() {
    let p = plan_timeout(Some(50));
    assert_eq!(p.sleep_ms, 50);
    assert_eq!(p.result, 10);
    assert_eq!(TIMEOUT_SENTINEL, 10);
    assert_eq!(plan_timeout(Some(-3)).sleep_ms, 0);
    assert_eq!(plan_timeout(None).sleep_ms, 0);
    assert_eq!(plan_timeout(None).result, 10);
}

#[test]
fn console_line_joins_arguments() {
    let args = vec!["constructed".to_string(), "1".to_string(), "x y".to_string()];
    assert_eq!(console_line(&args), "constructed 1 x y");
    assert_eq!(console_line(&vec!["one".to_string()]), "one");
    assert_eq!(console_line(&Vec::new()), "");
}

#[test]
fn drive_without_update_is_a_no_op() {
    let s: Script<u32, u32> = Script::new(7, None);
    assert!(s.drive().is_none());
    assert!(s.drive().is_none());
    assert_eq!(s.object, 7);
}

#[test]
fn drive_with_update_hands_out_the_hook() {
    let s: Script<u32, &str> = Script::new(1, Some("update"));
    assert_eq!(s.drive(), Some(&"update"));
}

#[test]
fn export_strategy() {
    assert!(ExportStrategy::ConstructThenUse.constructs_first());
    assert!(!ExportStrategy::DirectValue.constructs_first());
}

#[test]
fn lifecycle_releases_context_first() {
    let mut l = Lifecycle::start(true, true).unwrap();
    assert!(l.check_entry(true).is_ok());
    assert!(matches!(l.check_entry(false), Err(EngineError::ContextEntry)));
    assert_eq!(l.next_release(), Some(Resource::Context));
    let order = l.teardown();
    assert_eq!(order, vec![Resource::Context, Resource::Runtime]);
    assert!(matches!(l.check_entry(true), Err(EngineError::ContextEntry)));
    assert_eq!(l.next_release(), None);
}

#[test]
fn lifecycle_init_failures() {
    assert!(matches!(Lifecycle::start(false, true), Err(EngineError::EngineInit)));
    assert!(matches!(Lifecycle::start(true, false), Err(EngineError::EngineInit)));
}

#[test]
fn new_scene_is_empty() {
    let s = Scene::new();
    assert_eq!(s.objects.len(), 0);
}
