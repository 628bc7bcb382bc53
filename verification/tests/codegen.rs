use uniproc::codegen::adapters::{
    binding_tracing_spec, find_arg_named, is_helper_attr, method_transform_refusal, methods_to_generate,
    plan_method_transform, slint_callee, window_type_text, BindingMethodDef, BindingTracingSpec,
    MethodTransform, SchemaMethod, TransformError, WrapperArity,
};
use uniproc::codegen::binder::{binder_complete, binder_start, binder_transition, handler_arity, HandlerBound, StateSlot};
use uniproc::codegen::bindings::{check_bindings, expected_message_name, expected_method_name, BindingError};
use uniproc::codegen::manifest::{
    args_shape, assoc_plan, classify_manifest_item, locate_manifest_macro, manifest_source, process_manifest_items, signal_impls,
    ArgsShape, AssocItem, ItemPlan, LogicCall, ManifestAttr, ManifestEntry, ManifestItemForm,
    ManifestItemKind, ManifestToken, TypeShape,
};
use uniproc::codegen::naming::{
    before_generics, binder_names, binding_feature_name, build_binding_scope, is_trivial_numeric,
    last_path_segment, marker_base_name, needs_generated_uninstall, partial_binder_name, port_trait_name,
    qualify_known_type_str, schema_trait_name, short_type_name, slint_conversion, SlintConversion,
};
use uniproc::codegen::signatures::{
    app_feature_has_params, app_feature_refusal, check_handler_signature, feature_struct_name,
    window_feature_plan, AppFeatureArgError, FeatureArg, HandlerForm, HandlerSignatureError,
};

fn strings(v: &[&str]) -> Vec<String> {
    v.iter().map(|s| s.to_string()).collect()
}

#[test]
fn feature_names_and_scopes() {
    assert_eq!(binding_feature_name("UiTabsBindings"), "Tabs");
    assert_eq!(binding_feature_name("TabsBindings"), "Tabs");
    assert_eq!(binding_feature_name("UiTabs"), "Tabs");
    assert_eq!(binding_feature_name("Other"), "Other");
    assert_eq!(build_binding_scope("UiWindowActionsBindings", "on_drag"), "Ui.WindowActions.on_drag");
}

#[test]
fn known_slint_types_are_qualified() {
    assert_eq!(qualify_known_type_str("SharedString"), "slint::SharedString");
    assert_eq!(qualify_known_type_str("Image"), "slint::Image");
    assert_eq!(qualify_known_type_str("Color"), "slint::Color");
    assert_eq!(qualify_known_type_str("String"), "String");
}

#[test]
fn numeric_types_are_cast() {
    for ty in ["u8", "u16", "u32", "u64", "u128", "usize", "i8", "i16", "i32", "i64", "i128", "isize", "f32", "f64"] {
        assert!(is_trivial_numeric(ty));
        assert!(matches!(slint_conversion(ty), SlintConversion::Cast));
    }
    assert!(!is_trivial_numeric("bool"));
    assert!(!is_trivial_numeric("u9"));
    assert!(matches!(slint_conversion("bool"), SlintConversion::Pass));
    assert!(matches!(slint_conversion("SharedString"), SlintConversion::Into));
}

#[test]
fn binder_and_trait_names() {
    assert_eq!(binder_names("UiWindowActionsBindings"), ("WindowActionsBinder".to_string(), "WindowActionsPartialBinder".to_string()));
    assert_eq!(binder_names("UiUiBindingsBindings"), ("Binder".to_string(), "PartialBinder".to_string()));
    assert_eq!(schema_trait_name("WindowActionsBinder"), "UiWindowActionsBindings");
    assert_eq!(schema_trait_name("Custom"), "UiCustomBindings");
    assert_eq!(port_trait_name("WindowActionsBinder"), "UiWindowActionsBindings");
    assert_eq!(port_trait_name("Custom"), "Custom");
    assert_eq!(partial_binder_name("WindowActionsBinder"), "WindowActionsPartialBinder");
    assert_eq!(marker_base_name("WindowActor < P >"), "WindowActor_P_");
    assert_eq!(marker_base_name("crate::a::Actor<R>"), "crate_a_Actor_R_");
}

#[test]
fn type_display_names() {
    assert_eq!(last_path_segment("framework::feature::SettingsFeature"), "SettingsFeature");
    assert_eq!(last_path_segment("NoPath"), "NoPath");
    assert_eq!(last_path_segment("a:::b"), ":b");
    assert_eq!(last_path_segment("ends::"), "");
    assert_eq!(before_generics("Vec<u8>"), "Vec");
    assert_eq!(before_generics("Plain"), "Plain");
    assert_eq!(short_type_name("domain::features::WindowActor<app::Port>"), "WindowActor");
    assert_eq!(short_type_name("alloc::vec::Vec<alloc::string::String>"), "Vec");
}

#[test]
fn uninstall_is_generated_only_when_missing() {
    assert!(needs_generated_uninstall(true, &strings(&["install"])));
    assert!(!needs_generated_uninstall(true, &strings(&["install", "uninstall"])));
    assert!(!needs_generated_uninstall(false, &strings(&["install"])));
}

#[test]
fn case_conversions_come_from_heck() {
    assert_eq!(expected_method_name("WindowConfigChanged"), "on_window_config_changed");
    assert_eq!(expected_method_name("Drag"), "on_drag");
    assert_eq!(expected_message_name("on_start_resize"), "StartResize");
    assert_eq!(expected_message_name("config_changed"), "ConfigChanged");
    assert_eq!(feature_struct_name("window_actions_feature"), "WindowActionsFeature");
}

#[test]
fn complete_bindings_wire_every_method_in_trait_order() {
    let methods = strings(&["on_drag", "on_close", "on_start_resize"]);
    let bound = strings(&["StartResize", "Close", "Drag"]);
    let plan = match check_bindings(&methods, &bound, false) {
        Ok(p) => p,
        Err(_) => panic!("expected a plan"),
    };
    assert!(plan.is_complete);
    assert!(plan.missing.is_empty());
    let calls: Vec<(String, String)> = plan.calls.iter().map(|c| (c.method.clone(), c.message.clone())).collect();
    assert_eq!(
        calls,
        vec![
            ("on_drag".to_string(), "Drag".to_string()),
            ("on_close".to_string(), "Close".to_string()),
            ("on_start_resize".to_string(), "StartResize".to_string()),
        ]
    );
}

#[test]
fn bound_message_without_method_is_refused() {
    let methods = strings(&["on_drag"]);
    let bound = strings(&["Drag", "Minimise"]);
    match check_bindings(&methods, &bound, true) {
        Err(BindingError::UnknownMethod { message, expected_method }) => {
            assert_eq!(message, "Minimise");
            assert_eq!(expected_method, "on_minimise");
        }
        _ => panic!("expected UnknownMethod"),
    }
}

#[test]
fn unwired_methods_are_refused_unless_partial() {
    let methods = strings(&["on_drag", "on_close"]);
    let bound = strings(&["Drag"]);
    match check_bindings(&methods, &bound, false) {
        Err(BindingError::Incomplete { missing }) => {
            assert_eq!(missing.len(), 1);
            assert_eq!(missing[0].method, "on_close");
            assert_eq!(missing[0].expected_message, "Close");
        }
        _ => panic!("expected Incomplete"),
    }
    match check_bindings(&methods, &bound, true) {
        Ok(plan) => {
            assert!(!plan.is_complete);
            assert_eq!(plan.calls.len(), 1);
            assert_eq!(plan.calls[0].method, "on_drag");
            assert_eq!(plan.missing.len(), 1);
        }
        Err(_) => panic!("expected a partial plan"),
    }
}

#[test]
fn manifest_items_are_classified() {
    assert!(matches!(classify_manifest_item(&ManifestToken::BindGroup, false), ManifestItemForm::Group));
    assert!(matches!(classify_manifest_item(&ManifestToken::ExistingMarker, true), ManifestItemForm::Existing));
    assert!(matches!(classify_manifest_item(&ManifestToken::StructItem, false), ManifestItemForm::DeclaredStruct));
    assert!(matches!(classify_manifest_item(&ManifestToken::IdentWithFields, false), ManifestItemForm::NewWithFields));
    assert!(matches!(classify_manifest_item(&ManifestToken::Type { plain_ident: true }, true), ManifestItemForm::NewUnit));
    assert!(matches!(classify_manifest_item(&ManifestToken::Type { plain_ident: true }, false), ManifestItemForm::Existing));
    assert!(matches!(classify_manifest_item(&ManifestToken::Type { plain_ident: false }, true), ManifestItemForm::Existing));
}

fn entry(in_bind_group: bool, attrs: Vec<ManifestAttr>, kind: ManifestItemKind) -> ManifestEntry {
    ManifestEntry { in_bind_group, attrs, kind }
}

fn new_msg(name: &str, arity: usize) -> ManifestItemKind {
    ManifestItemKind::New { name: name.to_string(), arity }
}

#[test]
fn manifest_plan_marks_bound_messages() {
    let entries = vec![
        entry(true, vec![], new_msg("Drag", 0)),
        entry(true, vec![], new_msg("StartResize", 1)),
        entry(true, vec![], new_msg("ConfigChanged", 2)),
        entry(false, vec![ManifestAttr::Bind { manual: true }], new_msg("Manual", 1)),
        entry(false, vec![], new_msg("Internal", 0)),
        entry(false, vec![], ManifestItemKind::Existing),
    ];
    let plan = process_manifest_items(&entries, false);
    assert_eq!(plan.bound_messages, strings(&["Drag", "StartResize", "ConfigChanged", "Manual"]));
    assert!(matches!(plan.entries[0].item, ItemPlan::Declare { bound: true, from_args: Some(ArgsShape::Unit) }));
    assert!(matches!(plan.entries[1].item, ItemPlan::Declare { bound: true, from_args: Some(ArgsShape::Single) }));
    assert!(matches!(plan.entries[2].item, ItemPlan::Declare { bound: true, from_args: Some(ArgsShape::Tuple(2)) }));
    assert!(matches!(plan.entries[3].item, ItemPlan::Declare { bound: true, from_args: None }));
    assert!(matches!(plan.entries[4].item, ItemPlan::Declare { bound: false, from_args: None }));
    assert!(matches!(plan.entries[5].item, ItemPlan::Reference));
    assert!(plan.entries.iter().all(|e| matches!(e.call, LogicCall::AssertHandler)));
    assert!(matches!(args_shape(5), ArgsShape::Tuple(5)));
}

#[test]
fn manifest_attributes_and_calls() {
    let entries = vec![
        entry(
            false,
            vec![
                ManifestAttr::Other("#[cfg(windows)]".to_string()),
                ManifestAttr::Bind { manual: false },
                ManifestAttr::Other("#[doc = \"x\"]".to_string()),
            ],
            new_msg("Drag", 0),
        ),
        entry(false, vec![ManifestAttr::Bind { manual: true }, ManifestAttr::Bind { manual: false }], new_msg("Last", 1)),
        entry(false, vec![ManifestAttr::Other("#[cfg(unix)]".to_string())], ManifestItemKind::Existing),
    ];
    let plan = process_manifest_items(&entries, true);
    assert_eq!(plan.entries[0].kept_attrs, strings(&["#[cfg(windows)]", "#[doc = \"x\"]"]));
    assert!(matches!(plan.entries[0].item, ItemPlan::Declare { bound: true, from_args: Some(ArgsShape::Unit) }));
    assert!(plan.entries[1].kept_attrs.is_empty());
    assert!(matches!(plan.entries[1].item, ItemPlan::Declare { bound: true, from_args: Some(ArgsShape::Single) }));
    assert_eq!(plan.entries[2].kept_attrs, strings(&["#[cfg(unix)]"]));
    assert!(plan.entries.iter().all(|e| matches!(e.call, LogicCall::Subscribe)));
}

#[test]
fn manifest_macro_is_found_depth_first() {
    let mac = |n: &str| TypeShape::Macro(n.to_string());
    assert_eq!(locate_manifest_macro(&mac("handlers"), "handlers"), Some(vec![]));
    assert_eq!(locate_manifest_macro(&mac("bus"), "handlers"), None);
    assert_eq!(locate_manifest_macro(&TypeShape::Other, "handlers"), None);
    let ty = TypeShape::Path(vec![
        TypeShape::Other,
        TypeShape::Path(vec![mac("bus"), mac("handlers")]),
        mac("handlers"),
    ]);
    assert_eq!(locate_manifest_macro(&ty, "handlers"), Some(vec![1, 1]));
    assert_eq!(locate_manifest_macro(&ty, "bus"), Some(vec![1, 0]));
    assert_eq!(locate_manifest_macro(&ty, "signals"), None);
}

#[test]
fn manifest_associated_types() {
    let bus = manifest_source(&AssocItem::Bus).expect("bus manifest");
    assert_eq!(bus.mac_name, "bus");
    assert!(!bus.force_new && bus.is_bus);
    let handlers = manifest_source(&AssocItem::Handlers).expect("handlers manifest");
    assert_eq!(handlers.mac_name, "handlers");
    assert!(handlers.force_new && !handlers.is_bus);
    assert!(manifest_source(&AssocItem::Signals).is_none());
    assert!(manifest_source(&AssocItem::Other).is_none());

    let plan = assoc_plan("WindowActor", &vec![AssocItem::Handlers]);
    assert_eq!(plan.handlers_marker, "__Handlers_WindowActor");
    assert_eq!(plan.bus_marker, "__Bus_WindowActor");
    assert_eq!(plan.signals_marker, "__Signals_WindowActor");
    assert!(plan.add_unit_bus && plan.add_unit_signals);

    let plan = assoc_plan("WindowManagerActor < R >", &vec![AssocItem::Bus, AssocItem::Handlers, AssocItem::Signals]);
    assert_eq!(plan.handlers_marker, "__Handlers_WindowManagerActor_R_");
    assert!(!plan.add_unit_bus && !plan.add_unit_signals);

    let impls = signal_impls("WindowManagerActor < R >", &strings(&["OpenedWindow"]));
    assert_eq!(impls.marker, "__Signals_WindowManagerActor_R_");
    assert_eq!(impls.messages, strings(&["OpenedWindow"]));
}

#[test]
fn binder_typestate_rows() {
    let (before, after) = binder_transition(3, 1);
    assert!(matches!(before[..], [StateSlot::Param(0), StateSlot::Empty, StateSlot::Param(2)]));
    assert!(matches!(after[..], [StateSlot::Param(0), StateSlot::Done, StateSlot::Param(2)]));
    assert!(binder_start(2).iter().all(|s| matches!(s, StateSlot::Empty)));
    assert!(binder_complete(2).iter().all(|s| matches!(s, StateSlot::Done)));
    assert_eq!(binder_start(0).len(), 0);
}

#[test]
fn handler_arity_comes_from_the_first_fn_bound() {
    let bounds = vec![
        HandlerBound { is_fn_trait: false, inputs: Some(3) },
        HandlerBound { is_fn_trait: true, inputs: None },
        HandlerBound { is_fn_trait: true, inputs: Some(2) },
        HandlerBound { is_fn_trait: true, inputs: Some(1) },
    ];
    assert_eq!(handler_arity(&bounds), 2);
    assert_eq!(handler_arity(&Vec::new()), 0);
}

fn typed(name: &str) -> FeatureArg {
    FeatureArg::Typed { ident: Some(name.to_string()) }
}

#[test]
fn app_feature_signatures() {
    assert!(!app_feature_has_params(&vec![typed("ctx")]));
    assert!(app_feature_has_params(&vec![typed("ctx"), typed("params")]));
    assert!(!app_feature_has_params(&vec![typed("ctx"), FeatureArg::Typed { ident: None }]));
    assert!(app_feature_refusal(&vec![typed("ctx"), typed("params")]).is_none());
    assert!(matches!(app_feature_refusal(&vec![typed("ctx"), typed("port")]), Some(AppFeatureArgError::NotParams)));
    assert!(matches!(
        app_feature_refusal(&vec![typed("ctx"), typed("params"), typed("x")]),
        Some(AppFeatureArgError::TooManyArgs)
    ));
    assert!(matches!(
        app_feature_refusal(&vec![typed("ctx"), typed("port"), typed("x")]),
        Some(AppFeatureArgError::NotParams)
    ));
}

#[test]
fn window_feature_arguments() {
    let args = vec![typed("ctx"), typed("port"), typed("params"), FeatureArg::Typed { ident: None }, typed("tabs")];
    let plan = window_feature_plan(&args);
    assert_eq!(plan.params, Some(2));
    assert_eq!(plan.ports, vec![1, 4]);
    let none = window_feature_plan(&Vec::new());
    assert_eq!(none.params, None);
    assert!(none.ports.is_empty());
}

#[test]
fn handler_signatures() {
    assert!(matches!(check_handler_signature(false, 0, false, false), Err(HandlerSignatureError::MissingActor)));
    assert!(matches!(check_handler_signature(false, 2, false, true), Err(HandlerSignatureError::BadActor)));
    assert!(matches!(check_handler_signature(false, 1, true, false), Err(HandlerSignatureError::MissingMessage)));
    assert!(matches!(check_handler_signature(false, 2, true, false), Err(HandlerSignatureError::BadMessage)));
    assert!(matches!(check_handler_signature(false, 2, true, true), Ok(HandlerForm::Sync { with_ctx: false })));
    assert!(matches!(check_handler_signature(false, 3, true, true), Ok(HandlerForm::Sync { with_ctx: true })));
    assert!(matches!(check_handler_signature(false, 4, true, true), Err(HandlerSignatureError::SyncArity)));
    assert!(matches!(check_handler_signature(true, 2, true, true), Ok(HandlerForm::Async)));
    assert!(matches!(check_handler_signature(true, 3, true, true), Err(HandlerSignatureError::AsyncArity)));
}

fn schema_method(name: &str, manual: bool) -> SchemaMethod {
    SchemaMethod { name: name.to_string(), is_manual: manual, slint_name: None, global_override: None }
}

#[test]
fn generated_adapter_methods() {
    let methods = vec![schema_method("send", false), schema_method("on_push", true), schema_method("get_selected_pid", false), schema_method("set_tabs", false)];
    assert_eq!(methods_to_generate(&methods, &strings(&["set_tabs"])), vec![0, 2]);
    let m = SchemaMethod { name: "on_push".to_string(), is_manual: false, slint_name: Some("push".to_string()), global_override: Some("Nav".to_string()) };
    assert_eq!(slint_callee(&m, "Tabs"), ("push".to_string(), "Nav".to_string()));
    assert_eq!(slint_callee(&schema_method("send", false), "Tabs"), ("send".to_string(), "Tabs".to_string()));
}

fn def(name: &str, skip: bool, arity: usize) -> BindingMethodDef {
    BindingMethodDef { name: name.to_string(), tracing_target: Some("t".to_string()), tracing_skip: skip, handler_arity: arity }
}

#[test]
fn binding_tracing_specs() {
    let defs = vec![def("on_drag", false, 0), def("on_close", true, 1)];
    let spec = binding_tracing_spec("UiWindowActionsBindings", &defs, "on_drag").expect("defined");
    assert_eq!(spec.scope, "Ui.WindowActions.on_drag");
    assert_eq!(spec.target.as_deref(), Some("t"));
    assert!(spec.enabled);
    assert_eq!(spec.handler_arity, 0);
    assert!(!binding_tracing_spec("UiWindowActionsBindings", &defs, "on_close").expect("defined").enabled);
    assert!(binding_tracing_spec("UiWindowActionsBindings", &defs, "on_other").is_none());
}

fn names(v: &[Option<&str>]) -> Vec<Option<String>> {
    v.iter().map(|n| n.map(|s| s.to_string())).collect()
}

fn tracing(enabled: bool, arity: usize) -> Option<BindingTracingSpec> {
    Some(BindingTracingSpec { scope: "Ui.X.m".to_string(), target: None, enabled, handler_arity: arity })
}

#[test]
fn method_transforms() {
    let args = names(&[None, Some("ui"), Some("handler")]);
    assert_eq!(find_arg_named(&args, "ui"), Some(1));
    assert_eq!(find_arg_named(&args, "other"), None);
    assert!(matches!(
        plan_method_transform(&args, &None),
        MethodTransform::WithUi { ui_index: 1, handler_wrapper: None, port_trace: true }
    ));
    assert!(matches!(
        plan_method_transform(&args, &tracing(true, 2)),
        MethodTransform::WithUi { ui_index: 1, handler_wrapper: Some(WrapperArity::Two), port_trace: false }
    ));
    assert!(matches!(
        plan_method_transform(&args, &tracing(false, 1)),
        MethodTransform::WithUi { ui_index: 1, handler_wrapper: None, port_trace: false }
    ));
    assert!(matches!(method_transform_refusal(&args, &tracing(true, 3)), Some(TransformError::UnsupportedArity)));
    assert!(method_transform_refusal(&args, &tracing(true, 2)).is_none());
    assert!(method_transform_refusal(&args, &tracing(false, 7)).is_none());
    let no_ui = names(&[None, Some("handler")]);
    assert!(matches!(
        plan_method_transform(&no_ui, &tracing(true, 1)),
        MethodTransform::HandlerOnly { wrapper: WrapperArity::One }
    ));
    assert!(matches!(plan_method_transform(&no_ui, &None), MethodTransform::Unchanged));
    let no_handler = names(&[None, Some("ui")]);
    assert!(matches!(method_transform_refusal(&no_handler, &tracing(true, 0)), Some(TransformError::MissingHandler)));
    assert!(method_transform_refusal(&no_handler, &None).is_none());
}

#[test]
fn helper_attributes() {
    assert!(is_helper_attr("manual"));
    assert!(is_helper_attr("tracing"));
    assert!(is_helper_attr("slint"));
    assert!(!is_helper_attr("doc"));
}

#[test]
fn window_type_from_attribute() {
    assert_eq!(window_type_text("window = AppWindow"), Some("AppWindow".to_string()));
    assert_eq!(window_type_text("window=  Dialog\t"), Some("Dialog".to_string()));
    assert_eq!(window_type_text("a = B = C"), Some("B".to_string()));
    assert_eq!(window_type_text("window"), None);
    assert_eq!(window_type_text("window ="), Some(String::new()));
}
