use anything_engine::bundler::{bundle_context, resolve_value};
use anything_engine::json::JsonVal;

fn s(x: &str) -> String {
    x.to_string()
}

fn obj(pairs: Vec<(&str, JsonVal)>) -> JsonVal {
    JsonVal::Obj(pairs.into_iter().map(|(k, v)| (s(k), v)).collect())
}

#[test]
fn bundling_resolves_references_against_prior_outputs() {
    let config = obj(vec![
        ("inputs", obj(vec![("url", JsonVal::Str(s("{{node1.body.url}}")))])),
        ("variables", JsonVal::Str(s("{{node1.status}}"))),
    ]);
    let prior = vec![(
        s("node1"),
        obj(vec![
            ("body", obj(vec![("url", JsonVal::Str(s("https://example.test")))])),
            ("status", JsonVal::Int(200)),
        ]),
    )];
    let (inputs, cfg) = bundle_context(&config, &prior);
    assert_eq!(inputs, obj(vec![("url", JsonVal::Str(s("https://example.test")))]));
    assert_eq!(cfg, JsonVal::Int(200));
}

#[test]
fn bundling_unresolved_reference_degrades_to_null() {
    let config = obj(vec![
        ("inputs", JsonVal::Str(s("{{missing.path}}"))),
        ("variables", JsonVal::Null),
    ]);
    let prior: Vec<(String, JsonVal)> = vec![];
    let (inputs, cfg) = bundle_context(&config, &prior);
    assert_eq!(inputs, JsonVal::Null);
    assert_eq!(cfg, JsonVal::Null);
}

#[test]
fn bundling_plain_strings_kept() {
    let config = obj(vec![
        ("inputs", obj(vec![("note", JsonVal::Str(s("no braces here")))])),
        ("variables", JsonVal::Str(s("{{unclosed"))),
    ]);
    let prior: Vec<(String, JsonVal)> = vec![];
    let (inputs, cfg) = bundle_context(&config, &prior);
    assert_eq!(inputs, obj(vec![("note", JsonVal::Str(s("no braces here")))]));
    assert_eq!(cfg, JsonVal::Str(s("{{unclosed")));
}

#[test]
fn bundling_missing_templates_resolve_to_null() {
    let config = obj(vec![("something_else", JsonVal::Int(1))]);
    let prior: Vec<(String, JsonVal)> = vec![];
    let (inputs, cfg) = bundle_context(&config, &prior);
    assert_eq!(inputs, JsonVal::Null);
    assert_eq!(cfg, JsonVal::Null);
}

#[test]
fn bundling_resolves_inside_arrays() {
    let doc = obj(vec![("n", obj(vec![("x", JsonVal::Int(7))]))]);
    let template = JsonVal::Arr(vec![
        JsonVal::Str(s("{{n.x}}")),
        JsonVal::Int(1),
        JsonVal::Str(s("keep")),
    ]);
    let resolved = resolve_value(&template, &doc);
    assert_eq!(
        resolved,
        JsonVal::Arr(vec![JsonVal::Int(7), JsonVal::Int(1), JsonVal::Str(s("keep"))])
    );
}

#[test]
fn bundling_whole_node_reference() {
    let doc = obj(vec![("n", obj(vec![("x", JsonVal::Int(7))]))]);
    let template = JsonVal::Str(s("{{n}}"));
    let resolved = resolve_value(&template, &doc);
    assert_eq!(resolved, obj(vec![("x", JsonVal::Int(7))]));
}

#[test]
fn bundling_is_deterministic() {
    // repeated bundling of the same task state yields the same payload
    let config = obj(vec![
        ("inputs", obj(vec![
            ("a", JsonVal::Str(s("{{n.x}}"))),
            ("b", JsonVal::Arr(vec![JsonVal::Str(s("{{n.y}}"))])),
        ])),
        ("variables", JsonVal::Str(s("{{n}}"))),
    ]);
    let prior = vec![(
        s("n"),
        obj(vec![("x", JsonVal::Int(1)), ("y", JsonVal::Str(s("two")))]),
    )];
    let first = bundle_context(&config, &prior);
    let second = bundle_context(&config, &prior);
    assert_eq!(first, second);
}

#[test]
fn bundling_duplicate_keys_first_wins() {
    // an object with a repeated key resolves references against the
    // first occurrence
    let doc = JsonVal::Obj(vec![
        (s("n"), JsonVal::Int(1)),
        (s("n"), JsonVal::Int(2)),
    ]);
    let template = JsonVal::Str(s("{{n}}"));
    assert_eq!(resolve_value(&template, &doc), JsonVal::Int(1));
}
