use squalr_tui::project_hierarchy::{
    build_preview_value, build_tree_entries, entry_frame_action, read_u64_field, HierarchyItem, HierarchyItemKind,
    ProjectHierarchyFrameAction, ProjectHierarchyViewData,
};

fn item(path: &str, kind: HierarchyItemKind) -> HierarchyItem {
    HierarchyItem { path: path.to_string(), kind, module_field_bytes: None, address_field_bytes: None }
}

fn address_item(path: &str, module_name: &str, address: u64) -> HierarchyItem {
    HierarchyItem {
        path: path.to_string(),
        kind: HierarchyItemKind::Address,
        module_field_bytes: Some(module_name.as_bytes().to_vec()),
        address_field_bytes: Some(address.to_le_bytes().to_vec()),
    }
}

fn sample_items() -> Vec<HierarchyItem> {
    vec![
        item("/proj", HierarchyItemKind::Directory),
        address_item("/proj/b.json", "game.exe", 0x1234),
        item("/proj/a", HierarchyItemKind::Directory),
        item("/proj/a/c.json", HierarchyItemKind::Pointer),
        item("/proj/z.json", HierarchyItemKind::Other),
    ]
}

fn row_paths(view_data: &ProjectHierarchyViewData) -> Vec<(String, usize)> {
    view_data
        .tree_entries
        .iter()
        .map(|entry| (entry.project_item_path.clone(), entry.depth))
        .collect()
}

#[test]
fn u64_field_reads_little_endian_prefix() {
    assert_eq!(read_u64_field(&Some(vec![0x34, 0x12, 0, 0, 0, 0, 0, 0, 0xff])), 0x1234);
    assert_eq!(read_u64_field(&Some(vec![1, 2, 3])), 0);
    assert_eq!(read_u64_field(&None), 0);
    assert_eq!(read_u64_field(&Some(vec![0xff; 8])), u64::MAX);
}

#[test]
fn preview_shows_module_and_address() {
    assert_eq!(build_preview_value(&address_item("/p/a", "game.exe", 0xBEEF)), "game.exe+0xBEEF");
    assert_eq!(build_preview_value(&address_item("/p/a", "", 0x10)), "0x10");
    assert_eq!(build_preview_value(&item("/p/b", HierarchyItemKind::Pointer)), "Pointer");
    assert_eq!(build_preview_value(&item("/p/c", HierarchyItemKind::Other)), "");
}

#[test]
fn tree_entries_follow_sort_order_then_directories_then_names() {
    let entries = build_tree_entries(&Some("/proj".to_string()), &sample_items(), &vec!["z.json".to_string()], &vec!["/proj".to_string()]);

    let paths: Vec<&str> = entries.iter().map(|entry| entry.project_item_path.as_str()).collect();
    assert_eq!(paths, vec!["/proj/z.json", "/proj/a", "/proj/b.json"]);
    assert!(entries[1].is_directory);
    assert!(entries[1].has_children);
    assert!(!entries[1].is_expanded);
    assert_eq!(entries[2].display_name, "b.json");
    assert_eq!(entries[2].preview_value, "game.exe+0x1234");
}

#[test]
fn tree_entries_without_project_are_empty() {
    assert!(build_tree_entries(&None, &sample_items(), &Vec::new(), &Vec::new()).is_empty());
}

#[test]
fn refresh_expands_project_directory_and_toggle_shows_children() {
    let mut view_data = ProjectHierarchyViewData::new();
    assert!(view_data.begin_refresh());
    assert!(!view_data.begin_refresh());

    view_data.apply_project_items_list(Some("/proj".to_string()), vec!["z.json".to_string()], sample_items());
    assert!(!view_data.is_refreshing);
    assert_eq!(view_data.expanded_directory_paths, vec!["/proj".to_string()]);
    assert_eq!(row_paths(&view_data).len(), 3);

    view_data.toggle_directory_expansion("/proj/a");
    assert_eq!(
        row_paths(&view_data),
        vec![
            ("/proj/z.json".to_string(), 0),
            ("/proj/a".to_string(), 0),
            ("/proj/a/c.json".to_string(), 1),
            ("/proj/b.json".to_string(), 0),
        ]
    );
    assert_eq!(view_data.tree_entries[2].preview_value, "Pointer");

    view_data.toggle_directory_expansion("/proj/a");
    assert_eq!(row_paths(&view_data).len(), 3);
    assert_eq!(view_data.expanded_directory_paths, vec!["/proj".to_string()]);
}

#[test]
fn refresh_drops_selection_of_vanished_item() {
    let mut view_data = ProjectHierarchyViewData::new();
    view_data.select_project_item("/proj/b.json".to_string());
    view_data.apply_project_items_list(Some("/proj".to_string()), Vec::new(), sample_items());
    assert_eq!(view_data.selected_project_item_path.as_deref(), Some("/proj/b.json"));

    view_data.apply_project_items_list(Some("/proj".to_string()), Vec::new(), vec![item("/proj", HierarchyItemKind::Directory)]);
    assert!(view_data.selected_project_item_path.is_none());
}

#[test]
fn refresh_is_needed_when_another_project_opens() {
    let mut view_data = ProjectHierarchyViewData::new();
    assert!(!view_data.needs_refresh_for_opened_project(&None));
    assert!(view_data.needs_refresh_for_opened_project(&Some("/proj".to_string())));

    view_data.apply_project_items_list(Some("/proj".to_string()), Vec::new(), sample_items());
    assert!(!view_data.needs_refresh_for_opened_project(&Some("/proj".to_string())));
    assert!(view_data.needs_refresh_for_opened_project(&Some("/other".to_string())));
    assert!(view_data.needs_refresh_for_opened_project(&None));
}

#[test]
fn double_click_on_directory_toggles_and_click_selects() {
    assert_eq!(
        entry_frame_action(ProjectHierarchyFrameAction::NoAction, "/proj/a", true, true, true, true),
        ProjectHierarchyFrameAction::ToggleDirectoryExpansion("/proj/a".to_string())
    );
    assert_eq!(
        entry_frame_action(ProjectHierarchyFrameAction::NoAction, "/proj/a", true, false, true, true),
        ProjectHierarchyFrameAction::SelectProjectItem("/proj/a".to_string())
    );
    assert_eq!(
        entry_frame_action(ProjectHierarchyFrameAction::SelectProjectItem("/x".to_string()), "/proj/a", false, false, false, false),
        ProjectHierarchyFrameAction::SelectProjectItem("/x".to_string())
    );
}

#[test]
fn frame_actions_select_and_toggle() {
    let mut view_data = ProjectHierarchyViewData::new();
    view_data.apply_project_items_list(Some("/proj".to_string()), Vec::new(), sample_items());

    view_data.apply_frame_action(ProjectHierarchyFrameAction::SelectProjectItem("/proj/a".to_string()));
    assert_eq!(view_data.selected_project_item_path.as_deref(), Some("/proj/a"));

    view_data.apply_frame_action(ProjectHierarchyFrameAction::ToggleDirectoryExpansion("/proj/a".to_string()));
    assert_eq!(view_data.tree_entries.len(), 4);

    view_data.apply_frame_action(ProjectHierarchyFrameAction::NoAction);
    assert_eq!(view_data.tree_entries.len(), 4);
}

#[test]
fn tree_rows_hang_from_expanded_directories_only() {
    let expanded = vec!["/proj".to_string(), "/proj/a".to_string()];
    let entries = build_tree_entries(&Some("/proj".to_string()), &sample_items(), &Vec::new(), &expanded);
    assert!(entries.iter().all(|entry| entry.project_item_path != "/proj"));
    let nested_position = entries.iter().position(|entry| entry.project_item_path == "/proj/a/c.json").unwrap();
    assert_eq!(entries[nested_position].depth, 1);
    let parent_position = entries.iter().position(|entry| entry.project_item_path == "/proj/a").unwrap();
    assert!(parent_position < nested_position);
    assert_eq!(entries[parent_position].depth, 0);
    assert!(entries[parent_position].is_directory && entries[parent_position].is_expanded);

    let collapsed = build_tree_entries(&Some("/proj".to_string()), &sample_items(), &Vec::new(), &vec!["/proj".to_string()]);
    assert!(collapsed.iter().all(|entry| entry.depth == 0));
}
