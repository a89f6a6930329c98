use task_bridge::{
    bridge_error, intent_envelope, normalize_intent, operation_name, plan_intent, request_params,
    success_envelope, Envelope, JsonValue,
};

fn same_value(a: &JsonValue, b: &JsonValue) -> bool {
    match (a, b) {
        (JsonValue::Null, JsonValue::Null) => true,
        (JsonValue::Bool(x), JsonValue::Bool(y)) => x == y,
        (JsonValue::Number(x), JsonValue::Number(y)) => x == y,
        (JsonValue::String(x), JsonValue::String(y)) => x == y,
        (JsonValue::Array(x), JsonValue::Array(y)) => {
            x.len() == y.len() && x.iter().zip(y.iter()).all(|(p, q)| same_value(p, q))
        }
        (JsonValue::Object(x), JsonValue::Object(y)) => {
            x.len() == y.len()
                && x.iter().zip(y.iter()).all(|(p, q)| p.0 == q.0 && same_value(&p.1, &q.1))
        }
        _ => false,
    }
}

fn is_empty_object(v: &JsonValue) -> bool {
    matches!(v, JsonValue::Object(m) if m.is_empty())
}

fn sample_params() -> JsonValue {
    JsonValue::Object(vec![
        ("title".to_string(), JsonValue::String("write report".to_string())),
        ("priority".to_string(), JsonValue::Number(serde_json::Number::from(3u64))),
        (
            "tags".to_string(),
            JsonValue::Array(vec![JsonValue::Bool(true), JsonValue::Null]),
        ),
    ])
}

fn reserved_empty(e: &Envelope) -> bool {
    e.warnings.is_empty()
        && e.context.is_empty()
        && e.suggestions.is_empty()
        && e.meta.is_empty()
        && e.timestamp.is_empty()
}

#[test]
fn normalize_trims_and_lowercases() {
    assert_eq!(normalize_intent(" Create "), "create");
    assert_eq!(normalize_intent("LIST_Tasks"), "list_tasks");
    assert_eq!(normalize_intent("\t\n Update\u{3000}"), "update");
}

#[test]
fn normalize_of_empty_and_blank_intents() {
    assert_eq!(normalize_intent(""), "");
    assert_eq!(normalize_intent("   \t "), "");
}

#[test]
fn normalize_is_idempotent_on_examples() {
    for s in [" Create ", "ÄBC", "  MiXeD case  ", ""] {
        let once = normalize_intent(s);
        assert_eq!(normalize_intent(&once), once);
    }
}

#[test]
fn operation_name_has_namespace_prefix() {
    assert_eq!(operation_name("create"), "tasks_create");
    assert_eq!(operation_name(""), "tasks_");
}

#[test]
fn padded_and_cased_intent_routes_like_plain_one() {
    let a = plan_intent(" Create ", Some(sample_params()));
    let b = plan_intent("create", Some(sample_params()));
    assert_eq!(a.operation, "tasks_create");
    assert_eq!(a.operation, b.operation);
    assert_eq!(a.intent, b.intent);
    assert!(same_value(&a.params, &b.params));
}

#[test]
fn unknown_intent_still_routes() {
    let r = plan_intent("Frobnicate", None);
    assert_eq!(r.operation, "tasks_frobnicate");
    assert_eq!(r.intent, "frobnicate");
}

#[test]
fn params_pass_through_unchanged() {
    let r = request_params(Some(sample_params()));
    assert!(same_value(&r, &sample_params()));
    let plan = plan_intent("add", Some(JsonValue::String("x".to_string())));
    assert!(same_value(&plan.params, &JsonValue::String("x".to_string())));
}

#[test]
fn missing_params_become_empty_object() {
    assert!(is_empty_object(&request_params(None)));
    let without = plan_intent("x", None);
    let with_empty = plan_intent("x", Some(JsonValue::Object(Vec::new())));
    assert_eq!(without.operation, with_empty.operation);
    assert_eq!(without.intent, with_empty.intent);
    assert!(is_empty_object(&without.params));
    assert!(same_value(&without.params, &with_empty.params));
}

#[test]
fn success_envelope_carries_result_exactly() {
    let e = intent_envelope("create", Ok(sample_params()));
    assert!(e.success);
    assert!(same_value(&e.result, &sample_params()));
    assert!(e.error.is_none());
    assert_eq!(e.intent, "");
    assert!(reserved_empty(&e));

    let n = success_envelope(JsonValue::Null);
    assert!(n.success);
    assert!(matches!(n.result, JsonValue::Null));
}

#[test]
fn failed_invocation_gives_bridge_error() {
    let e = intent_envelope("frobnicate", Err("unknown tool: tasks_frobnicate".to_string()));
    assert!(!e.success);
    assert_eq!(e.intent, "frobnicate");
    assert!(is_empty_object(&e.result));
    let err = e.error.as_ref().unwrap();
    assert_eq!(err.code, "BRIDGE_ERROR");
    assert_eq!(err.message, "unknown tool: tasks_frobnicate");
    assert!(reserved_empty(&e));
}

#[test]
fn every_failure_has_the_same_shape() {
    for message in ["bridge not running", "", "timeout after 30s"] {
        let e = bridge_error("list", message.to_string());
        assert!(!e.success);
        assert_eq!(e.intent, "list");
        assert!(is_empty_object(&e.result));
        let err = e.error.as_ref().unwrap();
        assert_eq!(err.code, "BRIDGE_ERROR");
        assert_eq!(err.message, message);
        assert!(reserved_empty(&e));
    }
}

#[test]
fn failure_reports_normalized_intent() {
    let plan = plan_intent("  DELETE ", None);
    let e = intent_envelope(&plan.intent, Err("not found".to_string()));
    assert_eq!(e.intent, "delete");
}

#[test]
fn trim_follows_unicode_white_space() {
    assert_eq!(normalize_intent("\u{85}\u{1680}Sync\u{2028}\u{202f}"), "sync");
    assert_eq!(normalize_intent("\u{200b}Sync"), "\u{200b}sync");
    assert_eq!(normalize_intent("Two Words"), "two words");
}
