use squalr_tui::engine_requests::EngineReply;
use squalr_tui::project_requests::EngineAnswer;
use squalr_tui::scan_results::ScanResultRef;
use squalr_tui::struct_edits::{
    next_project_item_commit_step, ProjectItemCommitStep,
    build_project_item_rename_request, edited_name, eq_ignore_ascii_case, finish_project_item_struct_commit,
    finish_struct_freeze_commit, finish_struct_property_commit, plan_project_item_struct_edit, plan_scan_result_struct_edit,
    EditedField, ProjectItemInfo, ProjectItemKind, ScanResultStructEdit,
};

fn edited_field(name: &str, value_bytes: Option<Vec<u8>>) -> EditedField {
    EditedField { name: name.to_string(), value_bytes }
}

#[test]
fn scan_result_freeze_edit_targets_nonzero_value() {
    let plan = plan_scan_result_struct_edit(vec![ScanResultRef::new(1)], true, edited_field("is_frozen", Some(vec![0, 1])), true);

    match plan {
        Ok(ScanResultStructEdit::Freeze(request)) => {
            assert!(request.is_frozen);
            assert_eq!(request.scan_result_refs, vec![ScanResultRef::new(1)]);
        }
        _ => panic!("expected a freeze request"),
    }

    let plan = plan_scan_result_struct_edit(vec![ScanResultRef::new(1)], true, edited_field("is_frozen", Some(vec![0, 0])), true);
    assert!(matches!(plan, Ok(ScanResultStructEdit::Freeze(request)) if !request.is_frozen));
}

#[test]
fn scan_result_nested_edit_is_rejected() {
    let plan = plan_scan_result_struct_edit(vec![ScanResultRef::new(1)], true, edited_field("value", None), false);

    assert!(matches!(plan, Err(status) if status == "Nested struct scan result edits are not supported in the TUI yet."));
}

#[test]
fn scan_result_edit_requires_selection_and_engine() {
    let plan = plan_scan_result_struct_edit(Vec::new(), true, edited_field("value", Some(vec![1])), false);
    assert!(matches!(plan, Err(status) if status == "No scan results are selected for struct edit commit."));

    let plan = plan_scan_result_struct_edit(vec![ScanResultRef::new(2)], false, edited_field("value", Some(vec![1])), false);
    assert!(matches!(plan, Err(status) if status == "No unprivileged engine state is available for scan result struct edits."));
}

#[test]
fn scan_result_value_edit_sets_named_property() {
    let plan = plan_scan_result_struct_edit(vec![ScanResultRef::new(3)], true, edited_field("value", Some(vec![7, 0])), false);

    match plan {
        Ok(ScanResultStructEdit::SetProperty { scan_result_refs, field_namespace, value_bytes }) => {
            assert_eq!(scan_result_refs, vec![ScanResultRef::new(3)]);
            assert_eq!(field_namespace, "value");
            assert_eq!(value_bytes, vec![7, 0]);
        }
        _ => panic!("expected a property request"),
    }
}

#[test]
fn struct_freeze_commit_statuses() {
    assert_eq!(finish_struct_freeze_commit(true, EngineReply::Answered(Vec::new())), ("Committed frozen state from struct viewer.".to_string(), true));
    assert_eq!(
        finish_struct_freeze_commit(false, EngineReply::Answered(vec![ScanResultRef::new(1), ScanResultRef::new(2)])),
        ("Freeze commit partially failed for 2 scan results.".to_string(), true)
    );
    assert_eq!(
        finish_struct_freeze_commit(true, EngineReply::NotDispatched),
        ("Failed to dispatch scan result freeze request from struct viewer.".to_string(), false)
    );
}

#[test]
fn struct_property_commit_statuses() {
    assert_eq!(
        finish_struct_property_commit("value", Ok(EngineReply::Answered(()))),
        ("Committed scan result field 'value' from struct viewer.".to_string(), true)
    );
    assert_eq!(
        finish_struct_property_commit("value", Err("bad".to_string())),
        ("Failed to format edited scan result value: bad".to_string(), false)
    );
}

#[test]
fn rename_appends_item_extension_unless_present() {
    let request = build_project_item_rename_request("/p/old.json", false, " health ", ".json").expect("rename is asked");
    assert_eq!(request.project_item_path, "/p/old.json");
    assert_eq!(request.project_item_name, "health.json");

    let request = build_project_item_rename_request("/p/old.json", false, "Health.JSON", ".json").expect("rename is asked");
    assert_eq!(request.project_item_name, "Health.JSON");
}

#[test]
fn rename_of_directory_keeps_name_and_skips_same_name() {
    let request = build_project_item_rename_request("/p/old", true, "new", ".json").expect("rename is asked");
    assert_eq!(request.project_item_name, "new");

    assert!(build_project_item_rename_request("/p/same", true, "same", ".json").is_none());
    assert!(build_project_item_rename_request("/p/a.json", false, "a", ".json").is_none());
    assert!(build_project_item_rename_request("/p/a.json", false, "   ", ".json").is_none());
}

#[test]
fn ascii_case_comparison() {
    assert!(eq_ignore_ascii_case("JSON", "json"));
    assert!(!eq_ignore_ascii_case("json", "jsonx"));
    assert!(!eq_ignore_ascii_case("é", "É"));
}

#[test]
fn edited_name_reads_trimmed_utf8() {
    assert_eq!(edited_name(&Some(b"  Player ".to_vec())), Some("Player".to_string()));
    assert_eq!(edited_name(&Some(vec![0xff, 0xfe])), None);
    assert_eq!(edited_name(&Some(b"   ".to_vec())), None);
    assert_eq!(edited_name(&None), None);
}

#[test]
fn project_item_name_edit_plans_renames_and_skips_root() {
    let selected_paths = vec!["/p".to_string(), "/p/a.json".to_string(), "/p/dir".to_string(), "/p/missing".to_string()];
    let found_items = vec![
        Some(ProjectItemInfo { kind: ProjectItemKind::Directory, module_name: String::new() }),
        Some(ProjectItemInfo { kind: ProjectItemKind::Address, module_name: "game.exe".to_string() }),
        Some(ProjectItemInfo { kind: ProjectItemKind::Directory, module_name: String::new() }),
        None,
    ];

    let plan = plan_project_item_struct_edit(
        &selected_paths,
        true,
        Ok(Some("/p".to_string())),
        &found_items,
        &edited_field("name", Some(b"renamed".to_vec())),
        true,
        false,
        ".json",
    )
    .expect("plan is made");

    assert_eq!(plan.property_edit_paths, vec!["/p/a.json".to_string()]);
    assert_eq!(plan.rename_requests.len(), 2);
    assert_eq!(plan.rename_requests[0].project_item_name, "renamed.json");
    assert_eq!(plan.rename_requests[1].project_item_path, "/p/dir");
    assert_eq!(plan.rename_requests[1].project_item_name, "renamed");
    assert!(plan.memory_write_requests.is_empty());
}

#[test]
fn project_item_address_edit_plans_memory_write() {
    let selected_paths = vec!["/p/a.json".to_string()];
    let found_items = vec![Some(ProjectItemInfo { kind: ProjectItemKind::Address, module_name: "m".to_string() })];

    let plan = plan_project_item_struct_edit(
        &selected_paths,
        true,
        Ok(Some("/p".to_string())),
        &found_items,
        &edited_field("address", Some(vec![0x40, 0x12, 0, 0, 0, 0, 0, 0])),
        false,
        true,
        ".json",
    )
    .expect("plan is made");

    assert_eq!(plan.property_edit_paths, vec!["/p/a.json".to_string()]);
    assert_eq!(plan.memory_write_requests.len(), 1);
    assert_eq!(plan.memory_write_requests[0].address, 0x1240);
    assert_eq!(plan.memory_write_requests[0].module_name, "m");
    assert_eq!(plan.memory_write_requests[0].value, vec![0x40, 0x12, 0, 0, 0, 0, 0, 0]);

    let plan = plan_project_item_struct_edit(
        &selected_paths,
        true,
        Ok(Some("/p".to_string())),
        &found_items,
        &edited_field("address", Some(vec![1, 2, 3, 4])),
        false,
        true,
        ".json",
    )
    .expect("plan is made");
    assert_eq!(plan.memory_write_requests[0].address, 0);
    assert_eq!(plan.memory_write_requests[0].value, vec![1, 2, 3, 4]);
}

#[test]
fn project_item_name_edit_skips_root_written_with_redundant_separators() {
    let selected_paths = vec!["/p//root/".to_string(), "/p/root/a.json".to_string()];
    let found_items = vec![
        Some(ProjectItemInfo { kind: ProjectItemKind::Directory, module_name: String::new() }),
        Some(ProjectItemInfo { kind: ProjectItemKind::Other, module_name: String::new() }),
    ];

    let plan = plan_project_item_struct_edit(
        &selected_paths,
        true,
        Ok(Some("/p/root".to_string())),
        &found_items,
        &edited_field("name", Some(b"renamed".to_vec())),
        true,
        false,
        ".json",
    )
    .expect("plan is made");

    assert_eq!(plan.property_edit_paths, vec!["/p/root/a.json".to_string()]);
    assert_eq!(plan.rename_requests.len(), 1);
    assert_eq!(plan.rename_requests[0].project_item_path, "/p/root/a.json");
}

#[test]
fn project_item_edit_errors() {
    let selected_paths = vec!["/p".to_string()];
    let found_items = vec![Some(ProjectItemInfo { kind: ProjectItemKind::Directory, module_name: String::new() })];
    let field = edited_field("name", Some(b"x".to_vec()));

    let plan = plan_project_item_struct_edit(&Vec::new(), true, Ok(Some("/p".to_string())), &Vec::new(), &field, true, false, ".json");
    assert!(matches!(plan, Err(status) if status == "No project items are selected for struct edit commit."));

    let plan = plan_project_item_struct_edit(&selected_paths, true, Err("poisoned".to_string()), &found_items, &field, true, false, ".json");
    assert!(matches!(plan, Err(status) if status == "Failed to acquire opened project lock for struct edit: poisoned"));

    let plan = plan_project_item_struct_edit(&selected_paths, true, Ok(None), &found_items, &field, true, false, ".json");
    assert!(matches!(plan, Err(status) if status == "Cannot apply struct edit because no project is currently open."));

    let plan = plan_project_item_struct_edit(&selected_paths, true, Ok(Some("/p".to_string())), &found_items, &field, true, false, ".json");
    assert!(matches!(plan, Err(status) if status == "Selected project item field cannot be committed through TUI struct routing."));
}

#[test]
fn project_item_commit_stops_at_first_failure() {
    let outcome = finish_project_item_struct_commit(
        "name",
        Some(EngineAnswer::Answered(true)),
        vec![EngineAnswer::Answered(true), EngineAnswer::Answered(false)],
        vec![EngineReply::NotDispatched],
    );
    assert_eq!(outcome, ("Project item rename failed during struct edit commit.".to_string(), false));

    let outcome = finish_project_item_struct_commit("name", Some(EngineAnswer::TimedOut("t".to_string())), Vec::new(), Vec::new());
    assert_eq!(outcome, ("Timed out waiting for project save response: t".to_string(), false));

    let outcome = finish_project_item_struct_commit("address", None, Vec::new(), vec![EngineReply::Answered(true)]);
    assert_eq!(outcome, ("Committed project item field 'address' from struct viewer.".to_string(), true));
}

#[test]
fn project_item_commit_steps_through_save_renames_and_writes() {
    let no_answers: Vec<EngineAnswer<bool>> = Vec::new();
    let no_replies: Vec<EngineReply<bool>> = Vec::new();
    let step = next_project_item_commit_step("health", true, 2, 1, &None, &no_answers, &no_replies);
    assert!(matches!(step, ProjectItemCommitStep::SendSave));

    let saved = Some(EngineAnswer::Answered(true));
    let step = next_project_item_commit_step("health", true, 2, 1, &saved, &no_answers, &no_replies);
    assert!(matches!(step, ProjectItemCommitStep::SendRename(0)));

    let one_rename = vec![EngineAnswer::Answered(true)];
    let step = next_project_item_commit_step("health", true, 2, 1, &saved, &one_rename, &no_replies);
    assert!(matches!(step, ProjectItemCommitStep::SendRename(1)));

    let both_renames = vec![EngineAnswer::Answered(true), EngineAnswer::Answered(true)];
    let step = next_project_item_commit_step("health", true, 2, 1, &saved, &both_renames, &no_replies);
    assert!(matches!(step, ProjectItemCommitStep::SendWrite(0)));

    let written = vec![EngineReply::Answered(true)];
    let step = next_project_item_commit_step("health", true, 2, 1, &saved, &both_renames, &written);
    match step {
        ProjectItemCommitStep::Finish(status, completed) => {
            assert!(completed);
            assert_eq!(status, "Committed project item field 'health' from struct viewer.");
        }
        _ => panic!("the commit should be finished"),
    }
}

#[test]
fn project_item_commit_stops_after_first_failure() {
    let saved = Some(EngineAnswer::Answered(true));
    let failed_rename = vec![EngineAnswer::Answered(false)];
    let no_replies: Vec<EngineReply<bool>> = Vec::new();
    let step = next_project_item_commit_step("health", true, 3, 2, &saved, &failed_rename, &no_replies);
    match step {
        ProjectItemCommitStep::Finish(status, completed) => {
            assert!(!completed);
            assert_eq!(status, "Project item rename failed during struct edit commit.");
        }
        _ => panic!("no request may follow a failed rename"),
    }

    let no_answers: Vec<EngineAnswer<bool>> = Vec::new();
    let timed_out_write = vec![EngineReply::TimedOut("slow".to_string())];
    let step = next_project_item_commit_step("address", false, 0, 2, &None, &no_answers, &timed_out_write);
    match step {
        ProjectItemCommitStep::Finish(status, completed) => {
            assert!(!completed);
            assert_eq!(status, "Timed out waiting for memory write response: slow");
        }
        _ => panic!("no request may follow a timed out write"),
    }

    let failed_save = Some(EngineAnswer::Answered(false));
    let step = next_project_item_commit_step("health", true, 1, 1, &failed_save, &no_answers, &no_replies);
    match step {
        ProjectItemCommitStep::Finish(status, completed) => {
            assert!(!completed);
            assert_eq!(status, "Project save failed while committing project item struct field.");
        }
        _ => panic!("no request may follow a failed save"),
    }
}

#[test]
fn rename_extension_follows_last_dot_rule() {
    let request = build_project_item_rename_request("/p/old.json", false, ".json", ".json").expect("rename is asked");
    assert_eq!(request.project_item_name, ".json.json");

    let request = build_project_item_rename_request("/p/old.json", false, "a.b.json", "json").expect("rename is asked");
    assert_eq!(request.project_item_name, "a.b.json");

    let request = build_project_item_rename_request("/p/old.json", false, "a.json.bak", ".json").expect("rename is asked");
    assert_eq!(request.project_item_name, "a.json.bak.json");
}
