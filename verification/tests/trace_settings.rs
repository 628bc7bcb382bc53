use uniproc::trace_settings::{compose_trace_policy, merge_trace_values, TracePolicy, TraceSettings};

fn strings(v: &[&str]) -> Vec<String> {
    v.iter().map(|s| s.to_string()).collect()
}

#[test]
fn merge_sorts_and_removes_duplicates() {
    let merged = merge_trace_values(strings(&["ui", "core", "ui.tabs"]), strings(&["core", "app", "ui"]));
    assert_eq!(merged, strings(&["app", "core", "ui", "ui.tabs"]));
}

#[test]
fn merge_of_empty_lists_is_empty() {
    assert!(merge_trace_values(Vec::new(), Vec::new()).is_empty());
}

#[test]
fn merge_orders_like_str() {
    let values = strings(&["b", "B", "a", "ä", "ab", "", "Z", "é", "a"]);
    let merged = merge_trace_values(values.clone(), Vec::new());
    let mut expected = values;
    expected.sort();
    expected.dedup();
    assert_eq!(merged, expected);
}

#[test]
fn merge_is_symmetric() {
    let a = strings(&["x", "m", "a"]);
    let b = strings(&["m", "q"]);
    assert_eq!(merge_trace_values(a.clone(), b.clone()), merge_trace_values(b, a));
}

#[test]
fn default_trace_settings() {
    let s = TraceSettings::default();
    assert!(s.enable_scopes.is_empty());
    assert!(s.disable_scopes.is_empty());
    assert!(s.disable_messages.is_empty());
    assert!(s.disable_targets.is_empty());
    assert_eq!(s.dump_capacity, 64);
}

#[test]
fn composed_policy_merges_builtin_and_user_values() {
    let builtin = TracePolicy {
        enabled_prefixes: strings(&["core", "ui"]),
        disabled_prefixes: strings(&["builtin.off"]),
        disabled_message_prefixes: strings(&["noise"]),
        disabled_target_prefixes: strings(&["hyper"]),
        dump_capacity: 10,
    };
    let settings = TraceSettings {
        enable_scopes: strings(&["app", "core"]),
        disable_scopes: strings(&["ui.tabs", "ui.sidebar"]),
        disable_messages: strings(&["noise", "chatter"]),
        disable_targets: Vec::new(),
        dump_capacity: 128,
    };
    let policy = compose_trace_policy(builtin, &settings);
    assert_eq!(policy.enabled_prefixes, strings(&["app", "core", "ui"]));
    assert_eq!(policy.disabled_prefixes, strings(&["ui.tabs", "ui.sidebar"]));
    assert_eq!(policy.disabled_message_prefixes, strings(&["chatter", "noise"]));
    assert_eq!(policy.disabled_target_prefixes, strings(&["hyper"]));
    assert_eq!(policy.dump_capacity, 128);
}
