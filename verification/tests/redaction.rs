use anything_engine::json::JsonVal;
use anything_engine::redact::{redact_headers_from_context, sentinel};
use anything_engine::status::TaskStatus;
use anything_engine::task::build_update_task_input;

fn s(x: &str) -> String {
    x.to_string()
}

fn obj(pairs: Vec<(&str, JsonVal)>) -> JsonVal {
    JsonVal::Obj(pairs.into_iter().map(|(k, v)| (s(k), v)).collect())
}

#[test]
fn redaction_replaces_header_values_with_sentinel() {
    let context = obj(vec![
        ("url", JsonVal::Str(s("https://example.test"))),
        (
            "headers",
            obj(vec![
                ("authorization", JsonVal::Str(s("Bearer SECRET-REDACTED"))),
                ("x-api-key", JsonVal::Str(s("SECRET-REDACTED"))),
            ]),
        ),
    ]);
    let redacted = redact_headers_from_context(&context);
    assert_eq!(
        redacted,
        obj(vec![
            ("url", JsonVal::Str(s("https://example.test"))),
            (
                "headers",
                obj(vec![
                    ("authorization", JsonVal::Str(s(sentinel()))),
                    ("x-api-key", JsonVal::Str(s(sentinel()))),
                ]),
            ),
        ])
    );
}

#[test]
fn redaction_leaves_other_fields_alone() {
    let context = obj(vec![("body", obj(vec![("x", JsonVal::Int(1))]))]);
    let redacted = redact_headers_from_context(&context);
    assert_eq!(redacted, obj(vec![("body", obj(vec![("x", JsonVal::Int(1))]))]));
}

#[test]
fn redaction_non_object_headers_become_empty_map() {
    let context = obj(vec![("headers", JsonVal::Str(s("not a map")))]);
    let redacted = redact_headers_from_context(&context);
    assert_eq!(redacted, obj(vec![("headers", JsonVal::Obj(vec![]))]));
}

#[test]
fn redaction_non_object_context_unchanged() {
    let context = JsonVal::Str(s("just a string"));
    let redacted = redact_headers_from_context(&context);
    assert_eq!(redacted, JsonVal::Str(s("just a string")));
}

#[test]
fn redaction_in_memory_value_stays_unredacted() {
    // the execution-time value keeps the secret; only the persisted
    // update payload is redacted
    let context = obj(vec![(
        "headers",
        obj(vec![("authorization", JsonVal::Str(s("SECRET-REDACTED")))]),
    )]);
    let update = build_update_task_input(
        &TaskStatus::Completed,
        Some(&context),
        None,
        None,
        None,
        Some(5),
    );
    assert_eq!(update.task_status, s("completed"));
    assert_eq!(
        update.context,
        Some(obj(vec![(
            "headers",
            obj(vec![("authorization", JsonVal::Str(s(sentinel())))]),
        )]))
    );
    // the argument still holds the original header value
    assert_eq!(
        context,
        obj(vec![(
            "headers",
            obj(vec![("authorization", JsonVal::Str(s("SECRET-REDACTED")))]),
        )])
    );
    assert_eq!(update.ended_at, Some(5));
    assert_eq!(update.started_at, None);
    assert_eq!(update.result, None);
    assert_eq!(update.error, None);
}
