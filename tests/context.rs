use azure_core::{Context, ContextKind, ContextValue, Span};

fn text(c: &Context) -> String {
    match c.value(ContextKind::Text).expect("expected value") {
        ContextValue::Text(s) => s.clone(),
        other => panic!("unexpected value {:?}", other),
    }
}

#[test]
fn with_parent() {
    let mut parent = Context::new();
    parent.insert(ContextValue::Text("foo".to_string()));

    assert_eq!(parent.len(), 1);

    let mut sut = Context::with_context(&parent);
    sut.insert_or_replace(ContextValue::Text("bar".to_string()));
    sut.insert(ContextValue::Integer(1));

    assert_eq!(sut.len(), 2);

    parent.insert_or_replace(ContextValue::Text("baz".to_string()));

    assert_eq!(parent.len(), 1);
    assert_eq!(sut.len(), 2);

    assert_eq!(text(&parent), "baz");
    assert_eq!(text(&sut), "bar");
    assert_eq!(
        sut.value(ContextKind::Integer).expect("expected value"),
        &ContextValue::Integer(1)
    );
}

#[test]
fn insert_then_value_returns_it() {
    let mut c = Context::new();
    assert!(c.is_empty());
    c.insert(ContextValue::Span(Span::from("op")));
    assert_eq!(c.value(ContextKind::Span), Some(&ContextValue::Span(Span::from("op"))));
    assert_eq!(c.len(), 1);
    c.insert(ContextValue::Cancellation(true));
    assert_eq!(c.len(), 2);
    // A second value of a kind already present replaces it: the size stays.
    c.insert(ContextValue::Cancellation(false));
    assert_eq!(c.len(), 2);
    assert_eq!(c.value(ContextKind::Cancellation), Some(&ContextValue::Cancellation(false)));
}

#[test]
fn insert_or_replace_returns_displaced() {
    let mut c = Context::default();
    assert_eq!(c.insert_or_replace(ContextValue::Integer(7)), None);
    assert_eq!(
        c.insert_or_replace(ContextValue::Integer(8)),
        Some(ContextValue::Integer(7))
    );
    assert_eq!(c.value(ContextKind::Integer), Some(&ContextValue::Integer(8)));
}

#[test]
fn remove_takes_value_out() {
    let mut c = Context::new();
    c.insert(ContextValue::CorrelationId("abc".to_string()));
    assert_eq!(
        c.remove(ContextKind::CorrelationId),
        Some(ContextValue::CorrelationId("abc".to_string()))
    );
    assert_eq!(c.remove(ContextKind::CorrelationId), None);
    assert!(c.is_empty());
    assert_eq!(c.value(ContextKind::CorrelationId), None);
}

#[test]
fn child_mutations_do_not_reach_parent() {
    let mut parent = Context::new();
    parent.insert(ContextValue::CorrelationId("p".to_string()));
    let mut child = Context::with_context(&parent);
    child.insert(ContextValue::CorrelationId("c".to_string()));
    child.insert(ContextValue::Integer(3));
    child.remove(ContextKind::CorrelationId);
    assert_eq!(parent.len(), 1);
    assert_eq!(
        parent.value(ContextKind::CorrelationId),
        Some(&ContextValue::CorrelationId("p".to_string()))
    );
    parent.insert(ContextValue::Text("later".to_string()));
    assert_eq!(child.value(ContextKind::Text), None);
}
