use request_tracing::scope::{ContextError, ScopedContext};
use request_tracing::RequestId;

#[test]
fn reading_without_a_binding_fails() {
    let ctx = ScopedContext::new();
    assert_eq!(ctx.current().unwrap_err(), ContextError::NoContext);
    assert!(!ctx.is_established());
}

#[test]
fn establish_makes_the_identifier_ambient() {
    let mut ctx = ScopedContext::new();
    let id = RequestId::from_value(11);
    ctx.establish(id);
    assert!(ctx.is_established());
    assert_eq!(ctx.current().unwrap().value(), 11);
}

#[test]
fn nested_bindings_shadow_and_revert() {
    let mut ctx = ScopedContext::new();
    ctx.establish(RequestId::from_value(1));
    ctx.establish(RequestId::from_value(2));
    assert_eq!(ctx.current().unwrap().value(), 2);
    ctx.exit();
    assert_eq!(ctx.current().unwrap().value(), 1);
    ctx.exit();
    assert_eq!(ctx.current().unwrap_err(), ContextError::NoContext);
}

#[test]
fn interleaved_tasks_never_observe_each_other() {
    // Two logical tasks, each owning its context, time-sliced on one worker:
    // every read sees the reader's own identifier, whatever the interleaving.
    let mut task_a = ScopedContext::new();
    let mut task_b = ScopedContext::new();
    task_a.establish(RequestId::from_value(100));
    assert_eq!(task_a.current().unwrap().value(), 100);
    task_b.establish(RequestId::from_value(200));
    assert_eq!(task_a.current().unwrap().value(), 100);
    assert_eq!(task_b.current().unwrap().value(), 200);
    task_a.exit();
    assert_eq!(task_b.current().unwrap().value(), 200);
}
