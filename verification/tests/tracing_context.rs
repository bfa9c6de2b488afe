use walpipe::tracing_context::CorrelationId;
use walpipe::tracing_context::TracingContext;

#[test]
fn test_correlation_id_generation() {
    let id1 = CorrelationId::new(1_700_000_000_000, 0);
    let id2 = CorrelationId::new(1_700_000_000_000, 1);

    assert_ne!(id1, id2);
    assert!(!id1.as_str().is_empty());
    assert!(!id2.as_str().is_empty());
}

#[test]
fn test_correlation_id_from_string() {
    let test_id = "test-123";
    let id = CorrelationId::from_string(test_id.to_string());

    assert_eq!(id.as_str(), test_id);
}

#[test]
fn test_tracing_context() {
    let context = TracingContext::new(1_700_000_000_000, 7);
    let child_context = context.child_context("test_operation");

    assert_eq!(context.correlation_id, child_context.correlation_id);
}

#[test]
fn correlation_id_is_time_hyphen_sequence() {
    assert_eq!(CorrelationId::new(1_700_000_000_000, 42).as_str(), "1700000000000-42");
    assert_eq!(CorrelationId::new(0, 0).into_string(), "0-0");
    assert_eq!(
        CorrelationId::new(u64::MAX, u64::MAX).as_str(),
        "18446744073709551615-18446744073709551615"
    );
}

#[test]
fn child_context_names_its_operation() {
    let context = TracingContext::with_correlation_id(CorrelationId::from_string("abc".to_string()));
    assert!(context.operation.is_none());
    let child = context.child_context("decode");
    assert_eq!(child.operation.as_deref(), Some("decode"));
    assert_eq!(child.correlation_id.as_str(), "abc");
    assert_eq!(context.with_span(|| 21 * 2), 42);
}
