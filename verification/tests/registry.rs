use uniproc::window_registry::{OpenWindow, SlintWindowRegistry, WindowManagerActor};

#[test]
fn windows_are_found_until_closed() {
    let mut registry: SlintWindowRegistry<&'static str, u32> = SlintWindowRegistry::new();
    assert!(registry.builder_for("properties").is_none());
    registry.register("properties".to_string(), "build-properties");
    assert_eq!(registry.builder_for("properties"), Some(&"build-properties"));
    registry.register("properties".to_string(), "build-properties-v2");
    assert_eq!(registry.builder_for("properties"), Some(&"build-properties-v2"));

    registry.insert_handle("svc-1".to_string(), 10);
    registry.insert_handle("svc-2".to_string(), 20);
    assert_eq!(registry.get_window("svc-1"), Some(&10));
    registry.insert_handle("svc-1".to_string(), 11);
    assert_eq!(registry.get_window("svc-1"), Some(&11));

    let (closed, handle) = registry.handle_window_close("svc-1".to_string());
    assert_eq!(closed.key, "svc-1");
    assert_eq!(handle, Some(11));
    assert_eq!(registry.get_window("svc-1"), None);
    assert_eq!(registry.get_window("svc-2"), Some(&20));

    let (closed, handle) = registry.handle_window_close("missing".to_string());
    assert_eq!(closed.key, "missing");
    assert_eq!(handle, None);
}

fn build_main(key: &str) -> u32 {
    key.len() as u32
}

fn build_properties(key: &str) -> u32 {
    100 + key.len() as u32
}

#[test]
fn windows_are_built_from_their_template_under_their_key() {
    let mut registry: SlintWindowRegistry<fn(&str) -> u32, u32> = SlintWindowRegistry::new();
    registry.register("main".to_string(), build_main);
    registry.register("properties".to_string(), build_properties);
    assert!(registry.build_window("properties", "svc-1"));
    assert_eq!(registry.get_window("svc-1"), Some(&105));
    assert!(registry.build_window("main", "root"));
    assert_eq!(registry.get_window("root"), Some(&4));
    assert!(!registry.build_window("missing", "svc-2"));
    assert_eq!(registry.get_window("svc-2"), None);
}

#[test]
fn opening_is_announced_only_when_built() {
    let mut registry: SlintWindowRegistry<fn(&str) -> u32, u32> = SlintWindowRegistry::new();
    registry.register("properties".to_string(), build_properties);
    let mut actor = WindowManagerActor::new(registry);
    let msg = OpenWindow { key: "svc-1".to_string(), template: "properties".to_string(), data: 42u32 };
    let opened = actor.open_window(msg).expect("built");
    assert_eq!(opened.key, "svc-1");
    assert_eq!(opened.data, 42);
    assert_eq!(actor.registry().get_window("svc-1"), Some(&105));
    let msg = OpenWindow { key: "k".to_string(), template: "unknown".to_string(), data: 42u32 };
    assert!(actor.open_window(msg).is_none());
    assert_eq!(actor.registry().get_window("k"), None);
}
