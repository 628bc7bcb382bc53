use uniproc::named_table::NamedTable;
use uniproc::processes::{
    cell_has_metric, column_metadata, column_widths, patch_model_plan, rows_window_plan, same_metadata, same_widths,
    ModelPatch, TableColWidth,
};
use uniproc::table_layout::TableLayout;
use uniproc::tabs::{active_tab_index, tab_page_index, TabPages};

#[test]
fn layout_widths() {
    let mut layout = TableLayout::new();
    assert_eq!(layout.get_width("pid"), 0);
    layout.set_width("pid", 40);
    assert_eq!(layout.get_width("pid"), 0);
    layout.add_column("pid".to_string(), 60);
    layout.add_column("name".to_string(), 200);
    layout.set_width("pid", 80);
    assert_eq!(layout.get_width("pid"), 80);
    let mut snap = layout.snapshot();
    snap.sort();
    assert_eq!(snap, vec![("name".to_string(), 200), ("pid".to_string(), 80)]);
}

#[test]
fn initial_widths_respect_minimums() {
    let mut mins = NamedTable::new();
    mins.insert("cpu".to_string(), 90);
    let mut layout = TableLayout::new();
    let initial = vec![("cpu".to_string(), 50), ("name".to_string(), 30), ("mem".to_string(), 120)];
    layout.apply_initial_widths(70, &initial, &mins);
    assert_eq!(layout.get_width("cpu"), 90);
    assert_eq!(layout.get_width("name"), 70);
    assert_eq!(layout.get_width("mem"), 120);
    assert_eq!(mins.len(), 1);
    assert!(mins.contains("cpu"));
    assert_eq!(mins.remove("cpu"), Some(90));
    assert!(!mins.contains("cpu"));
}

#[test]
fn column_widths_follow_definitions() {
    let defs = vec!["pid".to_string(), "name".to_string(), "cpu".to_string()];
    let widths = vec![("cpu".to_string(), 50u64), ("pid".to_string(), 30), ("cpu".to_string(), 75), ("x".to_string(), 9)];
    let shown = column_widths(&defs, &widths);
    let pairs: Vec<(String, i32)> = shown.iter().map(|w| (w.id.clone(), w.width_px)).collect();
    assert_eq!(pairs, vec![("pid".to_string(), 30), ("name".to_string(), 100), ("cpu".to_string(), 75)]);
    let huge = column_widths(&vec!["a".to_string()], &vec![("a".to_string(), u64::MAX)]);
    assert_eq!(huge[0].width_px, -1);
    assert!(same_widths(&shown, &column_widths(&defs, &widths)));
    let other = vec![TableColWidth { id: "pid".to_string(), width_px: 30 }];
    assert!(!same_widths(&shown, &other));
}

#[test]
fn column_metadata_follows_definitions() {
    let defs = vec!["cpu".to_string(), "name".to_string()];
    let data = vec![("cpu".to_string(), (false, true)), ("name".to_string(), (true, false)), ("cpu".to_string(), (true, true))];
    let shown = column_metadata(&defs, &data);
    assert_eq!(shown[0].id, "cpu");
    assert!(shown[0].is_text && shown[0].is_metric);
    assert_eq!(shown[1].id, "name");
    assert!(shown[1].is_text && !shown[1].is_metric);
    let bare = column_metadata(&vec!["x".to_string()], &Vec::new());
    assert!(!bare[0].is_text && !bare[0].is_metric);
    assert!(same_metadata(&shown, &column_metadata(&defs, &data)));
    assert!(!same_metadata(&shown, &bare));
}

#[test]
fn model_patching() {
    assert_eq!(patch_model_plan(3, 4), ModelPatch::Replace);
    assert_eq!(patch_model_plan(4, 4), ModelPatch::UpdateRows);
}

#[test]
fn rows_window() {
    let plan = rows_window_plan(10, 10, 8, 4);
    assert!(!plan.reset);
    assert_eq!(plan.writes, vec![(8, 0), (9, 1)]);
    let plan = rows_window_plan(3, 10, 0, 2);
    assert!(plan.reset);
    assert_eq!(plan.writes, vec![(0, 0), (1, 1)]);
    let plan = rows_window_plan(10, 10, 12, 2);
    assert!(plan.writes.is_empty());
    let plan = rows_window_plan(10, usize::MAX, usize::MAX - 1, 2);
    assert!(plan.reset);
    assert_eq!(plan.writes, vec![(usize::MAX - 1, 0)]);
}

#[test]
fn metric_cells() {
    assert!(cell_has_metric("memory", 0));
    assert!(!cell_has_metric("memory", 1));
    assert!(!cell_has_metric("cpu", 0));
}

fn tab(key: &str, pages: &[&str]) -> TabPages {
    TabPages { context_key: key.to_string(), route_segments: pages.iter().map(|s| s.to_string()).collect() }
}

#[test]
fn tab_lookup() {
    let tabs = vec![tab("host", &["processes", "services"]), tab("wsl:ubuntu", &["processes"]), tab("host", &["env"])];
    assert_eq!(active_tab_index(&tabs, "wsl:ubuntu"), Some(1));
    assert_eq!(active_tab_index(&tabs, "none"), None);
    assert_eq!(tab_page_index(&tabs, "host", "services"), Some((0, 1)));
    assert_eq!(tab_page_index(&tabs, "host", "env"), None);
    assert_eq!(tab_page_index(&tabs, "none", "env"), None);
}

#[test]
fn process_row_ids() {
    assert_eq!(uniproc::processes::process_row_id(1234, "explorer.exe"), "1234-explorer.exe");
    assert_eq!(uniproc::processes::process_row_id(-1, ""), "-1-");
    assert_eq!(uniproc::processes::process_row_id(0, "idle"), "0-idle");
    assert_eq!(uniproc::processes::process_row_id(i32::MIN, "x"), "-2147483648-x");
}
