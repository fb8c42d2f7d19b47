use vstd::prelude::*;
use crate::engine_requests::EngineReply;
use crate::project_requests::EngineAnswer;
use crate::paths::{spec_path_file_name, spec_path_extension, spec_same_path, path_file_name, path_extension, same_path};
use crate::project_hierarchy::{spec_u64_field, read_u64_field};
use crate::scan_results::ScanResultRef;
use crate::scan_result_requests::ScanResultsFreezeRequest;
use crate::text::{
    spec_decimal, spec_trim, spec_non_blank_trimmed, spec_option_text, spec_utf8_text, spec_texts, push_decimal_usize, owned, joined,
    trimmed, non_blank_trimmed, same_text, utf8_text,
};

verus! {

/// A field as edited in the struct viewer: its name, and the bytes of its value unless it
/// is a nested struct.
pub struct EditedField {
    pub name: String,
    pub value_bytes: Option<Vec<u8>>,
}

/// What committing a struct field edit to scan results sends: a freeze toggle, or the
/// field's new value for the engine to write into the property that the field names.
pub enum ScanResultStructEdit {
    Freeze(ScanResultsFreezeRequest),
    SetProperty { scan_result_refs: Vec<ScanResultRef>, field_namespace: String, value_bytes: Vec<u8> },
}

/// Whether some byte is not zero.
pub open spec fn spec_any_nonzero(bytes: Seq<u8>) -> bool {
    exists|k: int| 0 <= k < bytes.len() && #[trigger] bytes[k] != 0
}

fn any_nonzero(bytes: &Vec<u8>) -> (found: bool)
    ensures
        found == spec_any_nonzero(bytes@),
{
    let mut position: usize = 0;
    while position < bytes.len()
        invariant
            position <= bytes@.len(),
            forall|k: int| 0 <= k < position ==> #[trigger] bytes@[k] == 0,
        decreases bytes@.len() - position,
    {
        if bytes[position] != 0 {
            return true;
        }
        position = position + 1;
    }
    false
}

/// The frozen state that a committed field asks for: set when its value has a byte that is
/// not zero.
pub open spec fn spec_target_frozen_state(value_bytes: Option<Vec<u8>>) -> bool {
    match value_bytes {
        Some(bytes) => spec_any_nonzero(bytes@),
        None => false,
    }
}

/// Plans committing `edited_field` to the selected scan results. `is_frozen_property` says
/// whether the field is the results' frozen flag, which is committed as a freeze toggle;
/// other value fields are written as properties. The error is the status to show.
pub fn plan_scan_result_struct_edit(
    selected_scan_result_refs: Vec<ScanResultRef>,
    is_engine_available: bool,
    edited_field: EditedField,
    is_frozen_property: bool,
) -> (plan: Result<ScanResultStructEdit, String>)
    ensures
        selected_scan_result_refs@.len() == 0 ==> (plan matches Err(status) && status@
            == "No scan results are selected for struct edit commit."@),
        selected_scan_result_refs@.len() > 0 && !is_engine_available ==> (plan matches Err(status) && status@
            == "No unprivileged engine state is available for scan result struct edits."@),
        selected_scan_result_refs@.len() > 0 && is_engine_available && is_frozen_property ==> (plan matches Ok(
            ScanResultStructEdit::Freeze(request),
        ) && request.scan_result_refs@ == selected_scan_result_refs@ && request.is_frozen == spec_target_frozen_state(
            edited_field.value_bytes,
        )),
        selected_scan_result_refs@.len() > 0 && is_engine_available && !is_frozen_property ==> match edited_field.value_bytes {
            Some(bytes) => plan matches Ok(ScanResultStructEdit::SetProperty { scan_result_refs, field_namespace, value_bytes })
                && scan_result_refs@ == selected_scan_result_refs@ && field_namespace@ == edited_field.name@ && value_bytes@
                == bytes@,
            None => plan matches Err(status) && status@ == "Nested struct scan result edits are not supported in the TUI yet."@,
        },
{
    if selected_scan_result_refs.len() == 0 {
        return Err(owned("No scan results are selected for struct edit commit."));
    }
    if !is_engine_available {
        return Err(owned("No unprivileged engine state is available for scan result struct edits."));
    }
    if is_frozen_property {
        let is_frozen = match &edited_field.value_bytes {
            Some(bytes) => any_nonzero(bytes),
            None => false,
        };
        return Ok(ScanResultStructEdit::Freeze(ScanResultsFreezeRequest { scan_result_refs: selected_scan_result_refs, is_frozen }));
    }
    match edited_field.value_bytes {
        Some(bytes) => Ok(
            ScanResultStructEdit::SetProperty {
                scan_result_refs: selected_scan_result_refs,
                field_namespace: edited_field.name,
                value_bytes: bytes,
            },
        ),
        None => Err(owned("Nested struct scan result edits are not supported in the TUI yet.")),
    }
}

/// The status after a freeze committed from the struct viewer.
pub open spec fn spec_struct_freeze_status(is_frozen: bool, reply: EngineReply<Vec<ScanResultRef>>) -> Seq<char> {
    match reply {
        EngineReply::NotDispatched => "Failed to dispatch scan result freeze request from struct viewer."@,
        EngineReply::Answered(failed_refs) => if failed_refs@.len() == 0 {
            if is_frozen {
                "Committed frozen state from struct viewer."@
            } else {
                "Committed unfrozen state from struct viewer."@
            }
        } else {
            "Freeze commit partially failed for "@ + spec_decimal(failed_refs@.len()) + " scan results."@
        },
        EngineReply::TimedOut(reason) => "Timed out waiting for scan result freeze response: "@ + reason@,
    }
}

/// The status after a freeze commit with the given target state, and whether the engine
/// answered, after which the results page is refreshed and the viewer refocused.
pub fn finish_struct_freeze_commit(is_frozen: bool, reply: EngineReply<Vec<ScanResultRef>>) -> (outcome: (String, bool))
    ensures
        outcome.0@ == spec_struct_freeze_status(is_frozen, reply),
        outcome.1 == (reply is Answered),
{
    match reply {
        EngineReply::NotDispatched => (owned("Failed to dispatch scan result freeze request from struct viewer."), false),
        EngineReply::Answered(failed_refs) => {
            let failed_count = failed_refs.len();
            let status = if failed_count == 0 {
                if is_frozen {
                    owned("Committed frozen state from struct viewer.")
                } else {
                    owned("Committed unfrozen state from struct viewer.")
                }
            } else {
                let mut status = owned("Freeze commit partially failed for ");
                push_decimal_usize(&mut status, failed_count);
                status.append(" scan results.");
                status
            };
            (status, true)
        },
        EngineReply::TimedOut(reason) => (joined("Timed out waiting for scan result freeze response: ", reason.as_str()), false),
    }
}

/// The status after writing the field `field_name` into scan results, and whether the
/// engine answered, after which the results page is refreshed and the viewer refocused.
/// `Err` holds the reason the engine could not format the value, in which case nothing
/// was sent.
pub fn finish_struct_property_commit(field_name: &str, reply: Result<EngineReply<()>, String>) -> (outcome: (String, bool))
    ensures
        outcome.1 == (reply matches Ok(EngineReply::Answered(_))),
        outcome.0@ == match reply {
            Err(error) => "Failed to format edited scan result value: "@ + error@,
            Ok(EngineReply::NotDispatched) => "Failed to dispatch scan result property request from struct viewer."@,
            Ok(EngineReply::Answered(_)) => "Committed scan result field '"@ + field_name@ + "' from struct viewer."@,
            Ok(EngineReply::TimedOut(reason)) => "Timed out waiting for scan result property response: "@ + reason@,
        },
{
    match reply {
        Err(error) => (joined("Failed to format edited scan result value: ", error.as_str()), false),
        Ok(EngineReply::NotDispatched) => (owned("Failed to dispatch scan result property request from struct viewer."), false),
        Ok(EngineReply::Answered(_)) => {
            let mut status = owned("Committed scan result field '");
            status.append(field_name);
            status.append("' from struct viewer.");
            (status, true)
        },
        Ok(EngineReply::TimedOut(reason)) => (joined("Timed out waiting for scan result property response: ", reason.as_str()), false),
    }
}

/// The kind of a project item, as far as struct edits tell them apart.
#[derive(Clone, Copy, Debug, PartialEq, Eq, Structural)]
pub enum ProjectItemKind {
    Directory,
    Address,
    Other,
}

/// A selected project item as the opened project holds it: its kind and, for an address
/// item, the module its address is counted from.
pub struct ProjectItemInfo {
    pub kind: ProjectItemKind,
    pub module_name: String,
}

/// A request to rename a project item's file.
pub struct ProjectItemRenameRequest {
    pub project_item_path: String,
    pub project_item_name: String,
}

/// A request to write bytes at an address of the opened process.
pub struct MemoryWriteRequest {
    pub address: u64,
    pub module_name: String,
    pub value: Vec<u8>,
}

/// What committing a field edit to project items does: which items get the field as a
/// property (and are then saved), which files are renamed, and which values are written to
/// memory.
pub struct ProjectItemStructEditPlan {
    pub property_edit_paths: Vec<String>,
    pub rename_requests: Vec<ProjectItemRenameRequest>,
    pub memory_write_requests: Vec<MemoryWriteRequest>,
}

/// Whether two characters are equal when ASCII letters are compared without case.
pub open spec fn spec_ascii_case_equal_char(left: char, right: char) -> bool {
    ||| left == right
    ||| 'A' <= left <= 'Z' && left as u32 + 32 == right as u32
    ||| 'A' <= right <= 'Z' && right as u32 + 32 == left as u32
}

/// Whether two texts are equal when ASCII letters are compared without case, as
/// `str::eq_ignore_ascii_case` decides.
pub open spec fn spec_eq_ignore_ascii_case(left: Seq<char>, right: Seq<char>) -> bool {
    &&& left.len() == right.len()
    &&& forall|k: int| 0 <= k < left.len() ==> spec_ascii_case_equal_char(#[trigger] left[k], right[k])
}

pub fn eq_ignore_ascii_case(left: &str, right: &str) -> (is_equal: bool)
    ensures
        is_equal == spec_eq_ignore_ascii_case(left@, right@),
{
    let length = left.unicode_len();
    if length != right.unicode_len() {
        return false;
    }
    let mut position: usize = 0;
    while position < length
        invariant
            position <= length,
            length == left@.len(),
            length == right@.len(),
            forall|k: int| 0 <= k < position ==> spec_ascii_case_equal_char(#[trigger] left@[k], right@[k]),
        decreases length - position,
    {
        let left_character = left.get_char(position);
        let right_character = right.get_char(position);
        let is_same = left_character == right_character || ('A' <= left_character && left_character <= 'Z'
            && (left_character as u32) + 32 == right_character as u32) || ('A' <= right_character && right_character
            <= 'Z' && (right_character as u32) + 32 == left_character as u32);
        if !is_same {
            assert(!spec_ascii_case_equal_char(left@[position as int], right@[position as int]));
            return false;
        }
        position = position + 1;
    }
    true
}

/// The text without its leading dots.
pub open spec fn spec_trim_leading_dots(text: Seq<char>) -> Seq<char>
    decreases text.len(),
{
    if text.len() > 0 && text[0] == '.' {
        spec_trim_leading_dots(text.drop_first())
    } else {
        text
    }
}

fn trim_leading_dots(text: &str) -> (result: String)
    ensures
        result@ == spec_trim_leading_dots(text@),
{
    let length = text.unicode_len();
    let mut start: usize = 0;
    assert(text@.subrange(0, length as int) =~= text@);
    while start < length && text.get_char(start) == '.'
        invariant
            start <= length,
            length == text@.len(),
            spec_trim_leading_dots(text@) == spec_trim_leading_dots(text@.subrange(start as int, length as int)),
        decreases length - start,
    {
        assert(text@.subrange(start as int, length as int).drop_first() =~= text@.subrange(start + 1, length as int));
        start = start + 1;
    }
    String::from_str(text.substring_char(start, length))
}

/// The file name that a project item takes when renamed to `edited_name`: the last
/// component of the edited name, trimmed and not blank; for an item that is not a directory,
/// with the project item extension appended unless it already ends in it (compared without
/// ASCII case).
pub open spec fn spec_renamed_project_item_name(edited_name: Seq<char>, is_directory: bool, project_item_extension: Seq<char>) -> Option<
    Seq<char>,
> {
    match spec_path_file_name(edited_name) {
        Some(file_name) => match spec_non_blank_trimmed(file_name) {
            Some(sanitized) => if is_directory {
                Some(sanitized)
            } else {
                let expected_extension = spec_trim_leading_dots(project_item_extension);
                let has_expected_extension = match spec_path_extension(sanitized) {
                    Some(extension) => spec_eq_ignore_ascii_case(extension, expected_extension),
                    None => false,
                };
                if has_expected_extension {
                    Some(sanitized)
                } else {
                    Some(sanitized + seq!['.'] + expected_extension)
                }
            },
            None => None,
        },
        None => None,
    }
}

/// The rename that editing a project item's name asks for: none when the new file name is
/// blank or equals the item's current file name.
pub open spec fn spec_project_item_rename(
    project_item_path: Seq<char>,
    is_directory: bool,
    edited_name: Seq<char>,
    project_item_extension: Seq<char>,
) -> Option<Seq<char>> {
    match spec_renamed_project_item_name(edited_name, is_directory, project_item_extension) {
        Some(new_name) => {
            let current_file_name = match spec_path_file_name(project_item_path) {
                Some(name) => name,
                None => Seq::empty(),
            };
            if current_file_name == new_name {
                None
            } else {
                Some(new_name)
            }
        },
        None => None,
    }
}

/// Builds the rename request for a project item whose name field was edited.
pub fn build_project_item_rename_request(
    project_item_path: &str,
    is_directory: bool,
    edited_name: &str,
    project_item_extension: &str,
) -> (request: Option<ProjectItemRenameRequest>)
    ensures
        match spec_project_item_rename(project_item_path@, is_directory, edited_name@, project_item_extension@) {
            Some(new_name) => request matches Some(sent) && sent.project_item_path@ == project_item_path@
                && sent.project_item_name@ == new_name,
            None => request is None,
        },
{
    let file_name = match path_file_name(edited_name) {
        Some(file_name) => file_name,
        None => return None,
    };
    let sanitized = match non_blank_trimmed(file_name.as_str()) {
        Some(sanitized) => sanitized,
        None => return None,
    };
    let new_name = if is_directory {
        sanitized
    } else {
        let expected_extension = trim_leading_dots(project_item_extension);
        let has_expected_extension = match path_extension(sanitized.as_str()) {
            Some(extension) => eq_ignore_ascii_case(extension.as_str(), expected_extension.as_str()),
            None => false,
        };
        if has_expected_extension {
            sanitized
        } else {
            let mut with_extension = sanitized;
            with_extension.append(".");
            with_extension.append(expected_extension.as_str());
            proof {
                reveal_strlit(".");
                assert(with_extension@ =~= sanitized@ + seq!['.'] + expected_extension@);
            }
            with_extension
        }
    };
    let current_file_name = match path_file_name(project_item_path) {
        Some(name) => name,
        None => String::new(),
    };
    if same_text(current_file_name.as_str(), new_name.as_str()) {
        return None;
    }
    Some(ProjectItemRenameRequest { project_item_path: String::from_str(project_item_path), project_item_name: new_name })
}

/// The name an edited field's value gives: its bytes read as UTF-8, trimmed, when that is
/// not blank.
pub open spec fn spec_edited_name(value_bytes: Option<Vec<u8>>) -> Option<Seq<char>> {
    match value_bytes {
        Some(bytes) => match spec_utf8_text(bytes@) {
            Some(text) => spec_non_blank_trimmed(text),
            None => None,
        },
        None => None,
    }
}

pub fn edited_name(value_bytes: &Option<Vec<u8>>) -> (name: Option<String>)
    ensures
        spec_option_text(name) == spec_edited_name(*value_bytes),
{
    match value_bytes {
        Some(bytes) => match utf8_text(bytes.as_slice()) {
            Some(text) => non_blank_trimmed(text.as_str()),
            None => None,
        },
        None => None,
    }
}


/// Whether a selected item takes part in the edit: it is in the project, and it is not the
/// project's root when the name is edited.
pub open spec fn spec_is_edit_target(
    path: Seq<char>,
    item: Option<ProjectItemInfo>,
    root_path: Seq<char>,
    is_name_field: bool,
) -> bool {
    item is Some && !(is_name_field && spec_same_path(path, root_path))
}

/// The paths of the first `count` selected items whose property takes the edited field:
/// every target but a directory whose name is edited (its name is its file name).
pub open spec fn spec_property_edit_paths(
    paths: Seq<String>,
    items: Seq<Option<ProjectItemInfo>>,
    root_path: Seq<char>,
    is_name_field: bool,
    count: int,
) -> Seq<Seq<char>>
    decreases count,
{
    if count <= 0 {
        Seq::empty()
    } else {
        let previous = spec_property_edit_paths(paths, items, root_path, is_name_field, count - 1);
        let position = count - 1;
        if spec_is_edit_target(paths[position]@, items[position], root_path, is_name_field) && !(is_name_field
            && items[position].unwrap().kind == ProjectItemKind::Directory) {
            previous.push(paths[position]@)
        } else {
            previous
        }
    }
}

/// The renames, as item path and new file name, of the first `count` selected items, when
/// the edited name gives one.
pub open spec fn spec_planned_renames(
    paths: Seq<String>,
    items: Seq<Option<ProjectItemInfo>>,
    root_path: Seq<char>,
    is_name_field: bool,
    edited_name: Option<Seq<char>>,
    project_item_extension: Seq<char>,
    count: int,
) -> Seq<(Seq<char>, Seq<char>)>
    decreases count,
{
    if count <= 0 {
        Seq::empty()
    } else {
        let previous = spec_planned_renames(paths, items, root_path, is_name_field, edited_name, project_item_extension, count - 1);
        let position = count - 1;
        if spec_is_edit_target(paths[position]@, items[position], root_path, is_name_field) && edited_name is Some {
            match spec_project_item_rename(
                paths[position]@,
                items[position].unwrap().kind == ProjectItemKind::Directory,
                edited_name.unwrap(),
                project_item_extension,
            ) {
                Some(new_name) => previous.push((paths[position]@, new_name)),
                None => previous,
            }
        } else {
            previous
        }
    }
}

/// The memory writes, as address, module and bytes, of the first `count` selected items:
/// one for each address item when its address field is edited with a value. The edited value
/// is first stored as the item's address, so the write goes to the address the item then
/// holds: the value's first eight bytes read as a little-endian number (zero with fewer).
pub open spec fn spec_planned_writes(
    paths: Seq<String>,
    items: Seq<Option<ProjectItemInfo>>,
    root_path: Seq<char>,
    is_name_field: bool,
    is_address_field: bool,
    value_bytes: Option<Vec<u8>>,
    count: int,
) -> Seq<(u64, Seq<char>, Seq<u8>)>
    decreases count,
{
    if count <= 0 {
        Seq::empty()
    } else {
        let previous = spec_planned_writes(paths, items, root_path, is_name_field, is_address_field, value_bytes, count - 1);
        let position = count - 1;
        if spec_is_edit_target(paths[position]@, items[position], root_path, is_name_field) && items[position].unwrap().kind
            == ProjectItemKind::Address && is_address_field && value_bytes is Some {
            previous.push((spec_u64_field(value_bytes), items[position].unwrap().module_name@, value_bytes.unwrap()@))
        } else {
            previous
        }
    }
}

/// Renames as item path and new file name.
pub open spec fn spec_rename_views(requests: Seq<ProjectItemRenameRequest>) -> Seq<(Seq<char>, Seq<char>)> {
    requests.map_values(|request: ProjectItemRenameRequest| (request.project_item_path@, request.project_item_name@))
}

/// Writes as address, module and bytes.
pub open spec fn spec_write_views(requests: Seq<MemoryWriteRequest>) -> Seq<(u64, Seq<char>, Seq<u8>)> {
    requests.map_values(|request: MemoryWriteRequest| (request.address, request.module_name@, request.value@))
}

fn copied_bytes(bytes: &Vec<u8>) -> (copy: Vec<u8>)
    ensures
        copy@ == bytes@,
{
    let mut copy: Vec<u8> = Vec::new();
    let mut position: usize = 0;
    while position < bytes.len()
        invariant
            position <= bytes@.len(),
            copy@ == bytes@.subrange(0, position as int),
        decreases bytes@.len() - position,
    {
        copy.push(bytes[position]);
        position = position + 1;
        assert(copy@ =~= bytes@.subrange(0, position as int));
    }
    assert(bytes@.subrange(0, bytes@.len() as int) =~= bytes@);
    copy
}

/// Plans committing `edited_field` to the selected project items. `found_items` holds, for
/// each selected path, the item the opened project has there; `opened_project_root` is the
/// opened project's root path, `None` without an opened project, or the error met while
/// reaching it. `is_name_field` and `is_address_field` say whether the field is the items'
/// name or an address item's address. The error is the status to show.
#[verifier::rlimit(60)]
pub fn plan_project_item_struct_edit(
    selected_paths: &Vec<String>,
    is_engine_available: bool,
    opened_project_root: Result<Option<String>, String>,
    found_items: &Vec<Option<ProjectItemInfo>>,
    edited_field: &EditedField,
    is_name_field: bool,
    is_address_field: bool,
    project_item_extension: &str,
) -> (plan: Result<ProjectItemStructEditPlan, String>)
    requires
        found_items@.len() == selected_paths@.len(),
    ensures
        selected_paths@.len() == 0 ==> (plan matches Err(status) && status@
            == "No project items are selected for struct edit commit."@),
        selected_paths@.len() > 0 && !is_engine_available ==> (plan matches Err(status) && status@
            == "No unprivileged engine state is available for project item struct edits."@),
        selected_paths@.len() > 0 && is_engine_available ==> match opened_project_root {
            Err(error) => plan matches Err(status) && status@ == "Failed to acquire opened project lock for struct edit: "@
                + error@,
            Ok(None) => plan matches Err(status) && status@ == "Cannot apply struct edit because no project is currently open."@,
            Ok(Some(root_path)) => {
                let edited_name = if is_name_field {
                    spec_edited_name(edited_field.value_bytes)
                } else {
                    None
                };
                let property_paths = spec_property_edit_paths(
                    selected_paths@,
                    found_items@,
                    root_path@,
                    is_name_field,
                    selected_paths@.len() as int,
                );
                let renames = spec_planned_renames(
                    selected_paths@,
                    found_items@,
                    root_path@,
                    is_name_field,
                    edited_name,
                    project_item_extension@,
                    selected_paths@.len() as int,
                );
                let writes = spec_planned_writes(
                    selected_paths@,
                    found_items@,
                    root_path@,
                    is_name_field,
                    is_address_field,
                    edited_field.value_bytes,
                    selected_paths@.len() as int,
                );
                if property_paths.len() == 0 && renames.len() == 0 && writes.len() == 0 {
                    plan matches Err(status) && status@ == "Selected project item field cannot be committed through TUI struct routing."@
                } else {
                    plan matches Ok(planned) && spec_texts(planned.property_edit_paths@) == property_paths && spec_rename_views(
                        planned.rename_requests@,
                    ) == renames && spec_write_views(planned.memory_write_requests@) == writes
                }
            },
        },
{
    if selected_paths.len() == 0 {
        return Err(owned("No project items are selected for struct edit commit."));
    }
    if !is_engine_available {
        return Err(owned("No unprivileged engine state is available for project item struct edits."));
    }
    let root_path = match opened_project_root {
        Err(error) => return Err(joined("Failed to acquire opened project lock for struct edit: ", error.as_str())),
        Ok(None) => return Err(owned("Cannot apply struct edit because no project is currently open.")),
        Ok(Some(root_path)) => root_path,
    };
    let name = if is_name_field {
        edited_name(&edited_field.value_bytes)
    } else {
        None
    };
    let ghost name_view = if is_name_field {
        spec_edited_name(edited_field.value_bytes)
    } else {
        None
    };
    let mut property_edit_paths: Vec<String> = Vec::new();
    let mut rename_requests: Vec<ProjectItemRenameRequest> = Vec::new();
    let mut memory_write_requests: Vec<MemoryWriteRequest> = Vec::new();
    let mut position: usize = 0;
    while position < selected_paths.len()
        invariant
            position <= selected_paths@.len(),
            found_items@.len() == selected_paths@.len(),
            spec_option_text(name) == name_view,
            spec_texts(property_edit_paths@) == spec_property_edit_paths(
                selected_paths@,
                found_items@,
                root_path@,
                is_name_field,
                position as int,
            ),
            spec_rename_views(rename_requests@) == spec_planned_renames(
                selected_paths@,
                found_items@,
                root_path@,
                is_name_field,
                name_view,
                project_item_extension@,
                position as int,
            ),
            spec_write_views(memory_write_requests@) == spec_planned_writes(
                selected_paths@,
                found_items@,
                root_path@,
                is_name_field,
                is_address_field,
                edited_field.value_bytes,
                position as int,
            ),
        decreases selected_paths@.len() - position,
    {
        let path = &selected_paths[position];
        let is_root = same_path(path.as_str(), root_path.as_str());
        let skip_root = is_name_field && is_root;
        match &found_items[position] {
            Some(item) => {
                if !skip_root {
                    let is_directory = item.kind == ProjectItemKind::Directory;
                    if !(is_name_field && is_directory) {
                        property_edit_paths.push(path.clone());
                    }
                    match &name {
                        Some(new_name) => {
                            match build_project_item_rename_request(path.as_str(), is_directory, new_name.as_str(), project_item_extension) {
                                Some(request) => rename_requests.push(request),
                                None => {},
                            }
                        },
                        None => {},
                    }
                    if item.kind == ProjectItemKind::Address && is_address_field {
                        match &edited_field.value_bytes {
                            Some(bytes) => {
                                memory_write_requests.push(
                                    MemoryWriteRequest {
                                        address: read_u64_field(&edited_field.value_bytes),
                                        module_name: item.module_name.clone(),
                                        value: copied_bytes(bytes),
                                    },
                                );
                            },
                            None => {},
                        }
                    }
                }
            },
            None => {},
        }
        proof {
            assert(spec_texts(property_edit_paths@) =~= spec_property_edit_paths(
                selected_paths@,
                found_items@,
                root_path@,
                is_name_field,
                position + 1,
            ));
            assert(spec_rename_views(rename_requests@) =~= spec_planned_renames(
                selected_paths@,
                found_items@,
                root_path@,
                is_name_field,
                name_view,
                project_item_extension@,
                position + 1,
            ));
            assert(spec_write_views(memory_write_requests@) =~= spec_planned_writes(
                selected_paths@,
                found_items@,
                root_path@,
                is_name_field,
                is_address_field,
                edited_field.value_bytes,
                position + 1,
            ));
        }
        position = position + 1;
    }
    if property_edit_paths.len() == 0 && rename_requests.len() == 0 && memory_write_requests.len() == 0 {
        return Err(owned("Selected project item field cannot be committed through TUI struct routing."));
    }
    Ok(ProjectItemStructEditPlan { property_edit_paths, rename_requests, memory_write_requests })
}


/// The failure that a project save answer reports, if any.
pub open spec fn spec_save_failure(answer: EngineAnswer<bool>) -> Option<Seq<char>> {
    match answer {
        EngineAnswer::Answered(success) => if success {
            None
        } else {
            Some("Project save failed while committing project item struct field."@)
        },
        EngineAnswer::TimedOut(reason) => Some("Timed out waiting for project save response: "@ + reason@),
    }
}

/// The failure that a rename answer reports, if any.
pub open spec fn spec_rename_failure(answer: EngineAnswer<bool>) -> Option<Seq<char>> {
    match answer {
        EngineAnswer::Answered(success) => if success {
            None
        } else {
            Some("Project item rename failed during struct edit commit."@)
        },
        EngineAnswer::TimedOut(reason) => Some("Timed out waiting for project item rename response: "@ + reason@),
    }
}

/// The failure that a memory write outcome reports, if any.
pub open spec fn spec_write_failure(reply: EngineReply<bool>) -> Option<Seq<char>> {
    match reply {
        EngineReply::NotDispatched => Some("Failed to dispatch memory write request during struct edit commit."@),
        EngineReply::Answered(success) => if success {
            None
        } else {
            Some("Memory write failed during project item struct edit commit."@)
        },
        EngineReply::TimedOut(reason) => Some("Timed out waiting for memory write response: "@ + reason@),
    }
}

/// The first failure among the renames, in order.
pub open spec fn spec_first_rename_failure(answers: Seq<EngineAnswer<bool>>) -> Option<Seq<char>>
    decreases answers.len(),
{
    if answers.len() == 0 {
        None
    } else {
        match spec_rename_failure(answers[0]) {
            Some(failure) => Some(failure),
            None => spec_first_rename_failure(answers.drop_first()),
        }
    }
}

/// The first failure among the memory writes, in order.
pub open spec fn spec_first_write_failure(replies: Seq<EngineReply<bool>>) -> Option<Seq<char>>
    decreases replies.len(),
{
    if replies.len() == 0 {
        None
    } else {
        match spec_write_failure(replies[0]) {
            Some(failure) => Some(failure),
            None => spec_first_write_failure(replies.drop_first()),
        }
    }
}

/// The first failure of a project item commit: of the save, when one was made, then of the
/// renames, then of the memory writes.
pub open spec fn spec_project_item_commit_failure(
    save_answer: Option<EngineAnswer<bool>>,
    rename_answers: Seq<EngineAnswer<bool>>,
    write_replies: Seq<EngineReply<bool>>,
) -> Option<Seq<char>> {
    let save_failure = match save_answer {
        Some(answer) => spec_save_failure(answer),
        None => None,
    };
    match save_failure {
        Some(failure) => Some(failure),
        None => match spec_first_rename_failure(rename_answers) {
            Some(failure) => Some(failure),
            None => spec_first_write_failure(write_replies),
        },
    }
}

fn first_rename_failure(rename_answers: &Vec<EngineAnswer<bool>>) -> (failure: Option<String>)
    ensures
        spec_option_text(failure) == spec_first_rename_failure(rename_answers@),
{
    let mut position: usize = 0;
    assert(rename_answers@.skip(0) =~= rename_answers@);
    while position < rename_answers.len()
        invariant
            position <= rename_answers@.len(),
            spec_first_rename_failure(rename_answers@) == spec_first_rename_failure(rename_answers@.skip(position as int)),
        decreases rename_answers@.len() - position,
    {
        assert(rename_answers@.skip(position as int).drop_first() =~= rename_answers@.skip(position + 1));
        match &rename_answers[position] {
            EngineAnswer::Answered(success) => {
                if !*success {
                    return Some(owned("Project item rename failed during struct edit commit."));
                }
            },
            EngineAnswer::TimedOut(reason) => {
                return Some(joined("Timed out waiting for project item rename response: ", reason.as_str()));
            },
        }
        position = position + 1;
    }
    None
}

fn first_write_failure(write_replies: &Vec<EngineReply<bool>>) -> (failure: Option<String>)
    ensures
        spec_option_text(failure) == spec_first_write_failure(write_replies@),
{
    let mut position: usize = 0;
    assert(write_replies@.skip(0) =~= write_replies@);
    while position < write_replies.len()
        invariant
            position <= write_replies@.len(),
            spec_first_write_failure(write_replies@) == spec_first_write_failure(write_replies@.skip(position as int)),
        decreases write_replies@.len() - position,
    {
        assert(write_replies@.skip(position as int).drop_first() =~= write_replies@.skip(position + 1));
        match &write_replies[position] {
            EngineReply::NotDispatched => {
                return Some(owned("Failed to dispatch memory write request during struct edit commit."));
            },
            EngineReply::Answered(success) => {
                if !*success {
                    return Some(owned("Memory write failed during project item struct edit commit."));
                }
            },
            EngineReply::TimedOut(reason) => {
                return Some(joined("Timed out waiting for memory write response: ", reason.as_str()));
            },
        }
        position = position + 1;
    }
    None
}

/// The status after committing the field `field_name` to project items, from the outcomes
/// of its steps in the order they ran: the save (when properties were edited), the renames,
/// the memory writes. The commit stops at the first failure, which the status reports;
/// otherwise it is complete, after which the items are reloaded and the viewer refocused.
pub fn finish_project_item_struct_commit(
    field_name: &str,
    save_answer: Option<EngineAnswer<bool>>,
    rename_answers: Vec<EngineAnswer<bool>>,
    write_replies: Vec<EngineReply<bool>>,
) -> (outcome: (String, bool))
    ensures
        outcome.1 == (spec_project_item_commit_failure(save_answer, rename_answers@, write_replies@) is None),
        outcome.0@ == match spec_project_item_commit_failure(save_answer, rename_answers@, write_replies@) {
            Some(failure) => failure,
            None => "Committed project item field '"@ + field_name@ + "' from struct viewer."@,
        },
{
    let save_failure = match save_answer {
        Some(EngineAnswer::Answered(success)) => if success {
            None
        } else {
            Some(owned("Project save failed while committing project item struct field."))
        },
        Some(EngineAnswer::TimedOut(reason)) => Some(joined("Timed out waiting for project save response: ", reason.as_str())),
        None => None,
    };
    let failure = match save_failure {
        Some(failure) => Some(failure),
        None => match first_rename_failure(&rename_answers) {
            Some(failure) => Some(failure),
            None => first_write_failure(&write_replies),
        },
    };
    match failure {
        Some(failure) => (failure, false),
        None => {
            let mut status = owned("Committed project item field '");
            status.append(field_name);
            status.append("' from struct viewer.");
            (status, true)
        },
    }
}

/// What a project item commit does next: send the save, send the rename or the memory
/// write at the given position of the plan, or end with the status (and whether the
/// commit completed).
pub enum ProjectItemCommitStep {
    SendSave,
    SendRename(usize),
    SendWrite(usize),
    Finish(String, bool),
}

/// Decides the next step of a project item commit from the answers received so far, in the
/// order the requests went out: the save (when properties were edited), then the renames,
/// then the memory writes. After a failure nothing more is sent and the commit ends with
/// that failure; once every planned request succeeded it ends as committed.
pub fn next_project_item_commit_step(
    field_name: &str,
    has_property_edits: bool,
    rename_count: usize,
    write_count: usize,
    save_answer: &Option<EngineAnswer<bool>>,
    rename_answers: &Vec<EngineAnswer<bool>>,
    write_replies: &Vec<EngineReply<bool>>,
) -> (step: ProjectItemCommitStep)
    requires
        !has_property_edits ==> save_answer is None,
        rename_answers@.len() <= rename_count,
        write_replies@.len() <= write_count,
        has_property_edits && save_answer is None ==> rename_answers@.len() == 0,
        write_replies@.len() > 0 ==> rename_answers@.len() == rename_count,
    ensures
        match spec_project_item_commit_failure(*save_answer, rename_answers@, write_replies@) {
            Some(failure) => step matches ProjectItemCommitStep::Finish(status, completed) && status@ == failure && !completed,
            None => if has_property_edits && save_answer is None {
                step matches ProjectItemCommitStep::SendSave
            } else if rename_answers@.len() < rename_count {
                step == ProjectItemCommitStep::SendRename(rename_answers@.len() as usize)
            } else if write_replies@.len() < write_count {
                step == ProjectItemCommitStep::SendWrite(write_replies@.len() as usize)
            } else {
                step matches ProjectItemCommitStep::Finish(status, completed) && completed && status@
                    == "Committed project item field '"@ + field_name@ + "' from struct viewer."@
            },
        },
{
    let save_failure = match save_answer {
        Some(EngineAnswer::Answered(success)) => if *success {
            None
        } else {
            Some(owned("Project save failed while committing project item struct field."))
        },
        Some(EngineAnswer::TimedOut(reason)) => Some(joined("Timed out waiting for project save response: ", reason.as_str())),
        None => None,
    };
    let failure = match save_failure {
        Some(failure) => Some(failure),
        None => match first_rename_failure(rename_answers) {
            Some(failure) => Some(failure),
            None => first_write_failure(write_replies),
        },
    };
    match failure {
        Some(failure) => ProjectItemCommitStep::Finish(failure, false),
        None => {
            if has_property_edits && save_answer.is_none() {
                ProjectItemCommitStep::SendSave
            } else if rename_answers.len() < rename_count {
                ProjectItemCommitStep::SendRename(rename_answers.len())
            } else if write_replies.len() < write_count {
                ProjectItemCommitStep::SendWrite(write_replies.len())
            } else {
                let mut status = owned("Committed project item field '");
                status.append(field_name);
                status.append("' from struct viewer.");
                ProjectItemCommitStep::Finish(status, true)
            }
        },
    }
}

} // verus!
