use uniproc::codegen::manifest::{ManifestAttr, ManifestItemForm, ManifestItemKind};
use uniproc::codegen::manifest_parse::{parse_manifest_items, Delim, MTok, ParsedEntry};

fn id(s: &str) -> MTok {
    MTok::Ident(s.to_string())
}

fn p(s: &str) -> MTok {
    MTok::Punct { text: s.to_string(), joint: false }
}

fn g(delim: Delim, inner: Vec<MTok>) -> MTok {
    MTok::Group { delim, inner }
}

fn manifest(inner: Vec<MTok>) -> MTok {
    g(Delim::Paren, inner)
}

fn new_of(e: &ParsedEntry) -> Option<(String, usize)> {
    match &e.entry.kind {
        ManifestItemKind::New { name, arity } => Some((name.clone(), *arity)),
        ManifestItemKind::Existing => None,
    }
}

#[test]
fn handlers_manifest_entries() {
    let m = manifest(vec![
        id("bind"),
        g(Delim::Brace, vec![
            id("Drag"),
            p(","),
            id("StartResize"),
            g(Delim::Paren, vec![id("ResizeEdge")]),
            p(","),
            id("ConfigChanged"),
            g(Delim::Paren, vec![id("WindowBreakpoint"), p(","), id("u64")]),
        ]),
        p(","),
        p("@"),
        id("OpenWindow"),
        p(","),
        p("#"),
        g(Delim::Bracket, vec![id("bind"), g(Delim::Paren, vec![id("manual")])]),
        p("#"),
        g(Delim::Bracket, vec![id("cfg"), g(Delim::Paren, vec![id("windows")])]),
        id("Manual"),
        g(Delim::Paren, vec![id("u32")]),
        p(","),
        id("Internal"),
        p(","),
        id("pub"),
        id("struct"),
        id("S"),
        g(Delim::Brace, vec![id("a"), p(":"), id("u32")]),
        p(","),
    ]);
    let entries = parse_manifest_items(&m, true).ok().expect("well formed");
    assert_eq!(entries.len(), 7);
    assert_eq!(new_of(&entries[0]), Some(("Drag".to_string(), 0)));
    assert!(entries[0].entry.in_bind_group);
    assert!(matches!(entries[0].form, ManifestItemForm::NewUnit));
    assert_eq!(new_of(&entries[1]), Some(("StartResize".to_string(), 1)));
    assert!(matches!(entries[1].form, ManifestItemForm::NewWithFields));
    assert_eq!(entries[1].text, "(ResizeEdge ) ");
    assert_eq!(new_of(&entries[2]), Some(("ConfigChanged".to_string(), 2)));
    assert!(entries[2].entry.in_bind_group);
    assert_eq!(new_of(&entries[3]), None);
    assert!(matches!(entries[3].form, ManifestItemForm::Existing));
    assert_eq!(entries[3].text, "OpenWindow ");
    assert!(!entries[3].entry.in_bind_group);
    assert_eq!(new_of(&entries[4]), Some(("Manual".to_string(), 1)));
    assert!(matches!(entries[4].entry.attrs[0], ManifestAttr::Bind { manual: true }));
    assert!(matches!(&entries[4].entry.attrs[1], ManifestAttr::Other(t) if t == "# [cfg (windows ) ] "));
    assert_eq!(new_of(&entries[5]), Some(("Internal".to_string(), 0)));
    assert!(!entries[5].entry.in_bind_group);
    assert_eq!(new_of(&entries[6]), Some(("S".to_string(), 1)));
    assert!(matches!(entries[6].form, ManifestItemForm::DeclaredStruct));
}

#[test]
fn bus_manifest_entries_refer_to_types() {
    let m = manifest(vec![
        id("OpenWindow"),
        p(","),
        id("Vec"),
        p("<"),
        id("A"),
        p(","),
        id("B"),
        p(">"),
    ]);
    let entries = parse_manifest_items(&m, false).ok().expect("well formed");
    assert_eq!(entries.len(), 2);
    assert!(entries.iter().all(|e| matches!(e.form, ManifestItemForm::Existing)));
    assert_eq!(entries[0].text, "OpenWindow ");
    assert_eq!(entries[1].text, "Vec < A , B > ");
    assert!(parse_manifest_items(&manifest(vec![]), false).ok().expect("empty").is_empty());
}

#[test]
fn malformed_manifests_are_refused() {
    assert!(parse_manifest_items(&manifest(vec![p("@")]), true).is_err());
    assert!(parse_manifest_items(&manifest(vec![id("A"), id("B")]), true).is_err());
    assert!(parse_manifest_items(&manifest(vec![p("#"), id("A")]), true).is_err());
    assert!(parse_manifest_items(&manifest(vec![id("A"), p(","), p(",")]), true).is_err());
}
