use uniproc::app::WindowIdCounter;
use uniproc::icons::{IconFamily, IconKey, IconRef, IconVariant};
use uniproc::reactor::{heartbeat_step, loop_step, next_delay, LoopStep, Reactor};
use uniproc::services::{distro_icon, distro_icon_for_lowercase, service_action_kind, DistroIcon, ServiceActionKind};
use uniproc::text::{contains_str, ends_with, replace, starts_with, str_eq, str_lt, strip_prefix, strip_suffix};
use uniproc::window_actions::{
    breakpoint_for_size, resize_edge_from_index, ResizeEdge, UiWindowActionsPortMsg, WindowActionsMsg, WindowActor,
    WindowActorEffect, WindowBreakpoint, WindowConfigChanged, WindowSize,
};

#[test]
fn icon_keys_compare_by_text() {
    let owned = String::from("ubuntu");
    let leaked: &'static str = Box::leak(owned.into_boxed_str());
    assert!(IconKey::new("ubuntu") == IconKey::new(leaked));
    assert!(IconKey::new("ubuntu") != IconKey::new("docker"));
}

#[test]
fn next_firing_is_one_interval_after_the_last() {
    assert_eq!(next_delay(1000, 0), 1000);
    assert_eq!(next_delay(200, 0), 200);
    assert_eq!(next_delay(200, 150), 50);
    assert_eq!(next_delay(200, 200), 0);
    assert_eq!(next_delay(200, 1000), 0);
}

#[test]
fn icons() {
    let key = IconKey::new("ubuntu");
    assert_eq!(key.as_str(), "ubuntu");
    assert_eq!(IconFamily::new("fluent").as_str(), "fluent");
    assert_eq!(IconVariant::new("filled").as_str(), "filled");
    assert_eq!(IconRef::from(key), IconRef::Key(key));
    assert_eq!(IconRef::from("gear"), IconRef::Name("gear"));
    assert_eq!(
        IconRef::family_variant(IconFamily::new("fluent"), None),
        IconRef::FamilyVariant { family: IconFamily::new("fluent"), variant: None }
    );
    assert_eq!(
        IconRef::dynamic_family_variant("fam", Some("v")),
        IconRef::DynamicFamilyVariant { family: "fam", variant: Some("v") }
    );
}

#[test]
fn loop_steps() {
    let _reactor = Reactor::new();
    assert_eq!(loop_step(false, true), LoopStep::Stop);
    assert_eq!(loop_step(true, false), LoopStep::Continue { fire: false });
    assert_eq!(loop_step(true, true), LoopStep::Continue { fire: true });
    assert_eq!(heartbeat_step(true), LoopStep::Continue { fire: true });
    assert_eq!(heartbeat_step(false), LoopStep::Stop);
}

#[test]
fn service_actions() {
    assert_eq!(service_action_kind("Start"), Some(ServiceActionKind::Start));
    assert_eq!(service_action_kind("Stop"), Some(ServiceActionKind::Stop));
    assert_eq!(service_action_kind("Restart"), Some(ServiceActionKind::Restart));
    assert_eq!(service_action_kind("Pause"), Some(ServiceActionKind::Pause));
    assert_eq!(service_action_kind("Resume"), Some(ServiceActionKind::Resume));
    assert_eq!(service_action_kind("start"), None);
}

#[test]
fn distro_icons() {
    assert_eq!(distro_icon("Ubuntu-22.04"), DistroIcon::Ubuntu);
    assert_eq!(distro_icon("docker-desktop"), DistroIcon::Docker);
    assert_eq!(distro_icon("DOCKER-desktop-data"), DistroIcon::Docker);
    assert_eq!(distro_icon("Debian"), DistroIcon::Linux);
    assert_eq!(distro_icon_for_lowercase("Ubuntu"), DistroIcon::Linux);
}

#[test]
fn window_actor_effects() {
    let actor = WindowActor { port: () };
    assert_eq!(actor.handle(WindowActionsMsg::Drag), WindowActorEffect::Send(UiWindowActionsPortMsg::Drag));
    assert_eq!(actor.handle(WindowActionsMsg::Close), WindowActorEffect::Send(UiWindowActionsPortMsg::Close));
    assert_eq!(actor.handle(WindowActionsMsg::Minimize), WindowActorEffect::Send(UiWindowActionsPortMsg::Minimize));
    assert_eq!(actor.handle(WindowActionsMsg::Maximize), WindowActorEffect::Send(UiWindowActionsPortMsg::ToggleMaximize));
    assert_eq!(
        actor.handle(WindowActionsMsg::StartResize(ResizeEdge::SouthEast)),
        WindowActorEffect::Send(UiWindowActionsPortMsg::Resize(ResizeEdge::SouthEast))
    );
    assert_eq!(
        actor.handle(WindowActionsMsg::ConfigChanged(WindowBreakpoint::Md, 900)),
        WindowActorEffect::Publish(WindowConfigChanged { breakpoint: WindowBreakpoint::Md, width: 900 })
    );
}

#[test]
fn resize_edges_and_breakpoints() {
    let expected = [
        ResizeEdge::North,
        ResizeEdge::South,
        ResizeEdge::West,
        ResizeEdge::East,
        ResizeEdge::NorthWest,
        ResizeEdge::NorthEast,
        ResizeEdge::SouthWest,
        ResizeEdge::SouthEast,
    ];
    for (i, e) in expected.iter().enumerate() {
        assert_eq!(resize_edge_from_index(i as i32), Some(*e));
    }
    assert_eq!(resize_edge_from_index(8), None);
    assert_eq!(resize_edge_from_index(-1), None);
    assert_eq!(breakpoint_for_size(WindowSize::Sm), WindowBreakpoint::Sm);
    assert_eq!(breakpoint_for_size(WindowSize::Md), WindowBreakpoint::Md);
    assert_eq!(breakpoint_for_size(WindowSize::Lg), WindowBreakpoint::Lg);
}

#[test]
fn window_ids_start_at_one() {
    let mut ids = WindowIdCounter::new();
    assert_eq!(ids.next_id(), 1);
    assert_eq!(ids.next_id(), 2);
    assert_eq!(ids.next_id(), 3);
}

#[test]
fn text_helpers() {
    assert!(str_lt("a", "b"));
    assert!(str_lt("ab", "abc"));
    assert!(!str_lt("b", "ab"));
    assert!(!str_lt("x", "x"));
    assert!(str_eq("héllo", "héllo"));
    assert!(!str_eq("a", "ab"));
    assert!(starts_with("on_drag", "on_"));
    assert!(ends_with("TabsBindings", "Bindings"));
    assert_eq!(strip_prefix("on_drag", "on_"), Some("drag".to_string()));
    assert_eq!(strip_suffix("TabsBindings", "Bindings"), Some("Tabs".to_string()));
    assert_eq!(strip_suffix("Tabs", "Bindings"), None);
    assert_eq!(replace("aaa", "aa", "b"), "ba");
    assert_eq!(replace("x.y_z", ".", "-"), "x-y_z");
    assert!(contains_str("docker-desktop", "docker"));
    assert!(contains_str("abc", ""));
    assert!(!contains_str("ab", "abc"));
}
