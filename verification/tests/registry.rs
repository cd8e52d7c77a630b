//! Window classes and their registration.

use wnd::class::{WindowClassRegistry, WindowClassTemplate};
use wnd::error::ClassRegistrationError;
use wnd::platform::PlatformRequest;
use wnd::runner::EventRunner;

fn template(name: &str) -> WindowClassTemplate {
    WindowClassTemplate { name: name.to_string(), style: 3, cursor: 32512, background: 0 }
}

#[test]
fn standard_template() {
    let standard = WindowClassTemplate::standard();
    assert_eq!(standard, template("ryswn"));
    assert_eq!(
        standard.request(),
        PlatformRequest::RegisterClass {
            name: vec![114, 121, 115, 119, 110, 0],
            style: 3,
            cursor: 32512,
            background: 0
        }
    );
}

#[test]
fn template_request_carries_its_fields() {
    let other = WindowClassTemplate {
        name: "ü".to_string(),
        style: 0x0008,
        cursor: 32513,
        background: 0x00FF_FFFF,
    };
    assert_eq!(
        other.request(),
        PlatformRequest::RegisterClass {
            name: vec![0xFC, 0],
            style: 8,
            cursor: 32513,
            background: 0x00FF_FFFF
        }
    );
}

#[test]
fn new_registry_is_empty() {
    let registry = WindowClassRegistry::new();
    assert_eq!(registry.count(), 0);
    assert!(!registry.is_registered(&"ryswn".to_string()));
}

#[test]
fn accepted_class_is_registered() {
    let mut registry = WindowClassRegistry::new();
    assert_eq!(registry.ensure_registered(&template("ryswn"), true), Ok(()));
    assert_eq!(registry.count(), 1);
    assert!(registry.is_registered(&"ryswn".to_string()));
    assert!(!registry.is_registered(&"ryswm".to_string()));
    assert!(!registry.is_registered(&"".to_string()));
}

#[test]
fn refused_class_is_an_error_and_is_not_registered() {
    let mut registry = WindowClassRegistry::new();
    assert_eq!(
        registry.ensure_registered(&template("ryswn"), false),
        Err(ClassRegistrationError::Rejected)
    );
    assert_eq!(registry.count(), 0);
    assert!(!registry.is_registered(&"ryswn".to_string()));
    // A later registration may still succeed.
    assert_eq!(registry.ensure_registered(&template("ryswn"), true), Ok(()));
    assert_eq!(registry.count(), 1);
}

#[test]
fn registering_twice_is_no_error_and_adds_no_class() {
    let mut registry = WindowClassRegistry::new();
    assert_eq!(registry.ensure_registered(&template("ryswn"), true), Ok(()));
    for accepted in [true, false, true, false] {
        assert_eq!(registry.ensure_registered(&template("ryswn"), accepted), Ok(()));
        assert_eq!(registry.count(), 1);
    }
    // The template's other fields do not make another class of it.
    let restyled =
        WindowClassTemplate { name: "ryswn".to_string(), style: 0, cursor: 1, background: 2 };
    assert_eq!(registry.ensure_registered(&restyled, false), Ok(()));
    assert_eq!(registry.count(), 1);
}

#[test]
fn classes_of_other_names_are_counted_apart() {
    let mut registry = WindowClassRegistry::new();
    for (index, name) in ["a", "b", "c", "ab", ""].iter().enumerate() {
        assert_eq!(registry.ensure_registered(&template(name), true), Ok(()));
        assert_eq!(registry.count(), index + 1);
    }
    for name in ["a", "b", "c", "ab", ""] {
        assert_eq!(registry.ensure_registered(&template(name), false), Ok(()));
        assert!(registry.is_registered(&name.to_string()));
    }
    assert_eq!(registry.count(), 5);
    assert_eq!(
        registry.ensure_registered(&template("d"), false),
        Err(ClassRegistrationError::Rejected)
    );
    assert_eq!(registry.count(), 5);
}

#[test]
fn runner_keeps_the_classes_of_the_process() {
    let mut runner = EventRunner::new();
    assert_eq!(runner.class_count(), 0);
    assert!(!runner.is_class_registered(&"ryswn".to_string()));
    assert_eq!(
        runner.ensure_registered(&WindowClassTemplate::standard(), false),
        Err(ClassRegistrationError::Rejected)
    );
    assert_eq!(runner.ensure_registered(&WindowClassTemplate::standard(), true), Ok(()));
    assert_eq!(runner.ensure_registered(&WindowClassTemplate::standard(), false), Ok(()));
    assert_eq!(runner.class_count(), 1);
    assert!(runner.is_class_registered(&"ryswn".to_string()));
}
