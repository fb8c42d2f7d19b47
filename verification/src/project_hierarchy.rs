use vstd::prelude::*;
use crate::paths::{spec_path_parent, spec_path_file_name, spec_path_join, path_parent, path_file_name, path_join};
use crate::text::{spec_hex_upper, spec_utf8_text, spec_option_text, spec_texts, owned, prefixed_hex_text, push_hex_upper, utf8_text, same_text};

verus! {

/// What the project hierarchy asks for after a frame: nothing, selecting an item,
/// expanding or collapsing a directory, or setting an item's activation.
#[derive(Clone, Debug, PartialEq, Eq)]
pub enum ProjectHierarchyFrameAction {
    NoAction,
    SelectProjectItem(String),
    ToggleDirectoryExpansion(String),
    SetProjectItemActivation(String, bool),
}

/// The action a row leaves for the frame after a pointer event: a double click on a
/// directory with children toggles its expansion, else a click selects the row's item,
/// else the action already chosen stands.
pub fn entry_frame_action(
    current: ProjectHierarchyFrameAction,
    project_item_path: &str,
    is_directory: bool,
    has_children: bool,
    was_clicked: bool,
    was_double_clicked: bool,
) -> (action: ProjectHierarchyFrameAction)
    ensures
        is_directory && has_children && was_double_clicked ==> (action matches ProjectHierarchyFrameAction::ToggleDirectoryExpansion(path)
            && path@ == project_item_path@),
        !(is_directory && has_children && was_double_clicked) && was_clicked ==> (action matches ProjectHierarchyFrameAction::SelectProjectItem(path)
            && path@ == project_item_path@),
        !(is_directory && has_children && was_double_clicked) && !was_clicked ==> action == current,
{
    if is_directory && has_children && was_double_clicked {
        ProjectHierarchyFrameAction::ToggleDirectoryExpansion(String::from_str(project_item_path))
    } else if was_clicked {
        ProjectHierarchyFrameAction::SelectProjectItem(String::from_str(project_item_path))
    } else {
        current
    }
}

/// The kind of a project item, as the hierarchy shows it.
#[derive(Clone, Copy, Debug, PartialEq, Eq, Structural)]
pub enum HierarchyItemKind {
    Directory,
    Address,
    Pointer,
    Other,
}

/// A project item as the hierarchy reads it: its path, its kind, and the raw values of the
/// module and address fields that an address item previews.
pub struct HierarchyItem {
    pub path: String,
    pub kind: HierarchyItemKind,
    pub module_field_bytes: Option<Vec<u8>>,
    pub address_field_bytes: Option<Vec<u8>>,
}

/// The value of bytes `position..8` read as a little-endian number.
pub open spec fn spec_le_from(bytes: Seq<u8>, position: nat) -> nat
    decreases 8 - position,
{
    if position >= 8 {
        0
    } else {
        bytes[position as int] as nat + 256 * spec_le_from(bytes, position + 1)
    }
}

/// `256` to the power `exponent`.
pub open spec fn spec_pow256(exponent: nat) -> nat
    decreases exponent,
{
    if exponent == 0 {
        1
    } else {
        256 * spec_pow256((exponent - 1) as nat)
    }
}

proof fn lemma_le_from_bound(bytes: Seq<u8>, position: nat)
    requires
        position <= 8,
    ensures
        spec_le_from(bytes, position) < spec_pow256((8 - position) as nat),
    decreases 8 - position,
{
    if position < 8 {
        lemma_le_from_bound(bytes, position + 1);
        assert(spec_pow256((8 - position) as nat) == 256 * spec_pow256((8 - (position + 1)) as nat));
    }
}

/// A numeric field's value: its first eight bytes as a little-endian `u64`, or zero when it
/// has fewer bytes or no value.
pub open spec fn spec_u64_field(field_bytes: Option<Vec<u8>>) -> u64 {
    match field_bytes {
        Some(bytes) => if bytes@.len() < 8 {
            0
        } else {
            spec_le_from(bytes@, 0) as u64
        },
        None => 0,
    }
}

pub fn read_u64_field(field_bytes: &Option<Vec<u8>>) -> (value: u64)
    ensures
        value == spec_u64_field(*field_bytes),
{
    let bytes = match field_bytes {
        Some(bytes) => bytes,
        None => return 0,
    };
    if bytes.len() < 8 {
        return 0;
    }
    let mut value: u64 = 0;
    let mut position: usize = 8;
    proof {
        assert(spec_pow256(0) == 1);
    }
    while position > 0
        invariant
            position <= 8,
            bytes@.len() >= 8,
            value as nat == spec_le_from(bytes@, position as nat),
        decreases position,
    {
        position = position - 1;
        proof {
            lemma_le_from_bound(bytes@, position as nat);
            lemma_pow256_eight();
            lemma_pow256_monotone((8 - position) as nat, 8);
        }
        value = value * 256 + bytes[position] as u64;
    }
    proof {
        lemma_le_from_bound(bytes@, 0);
        lemma_pow256_eight();
    }
    value
}

proof fn lemma_pow256_eight()
    ensures
        spec_pow256(8) == 0x1_0000_0000_0000_0000,
{
    reveal_with_fuel(spec_pow256, 9);
}

proof fn lemma_pow256_monotone(smaller: nat, larger: nat)
    requires
        smaller <= larger,
    ensures
        spec_pow256(smaller) <= spec_pow256(larger),
    decreases larger,
{
    if smaller < larger {
        lemma_pow256_monotone(smaller, (larger - 1) as nat);
    }
}

/// A text field's value: its bytes read as UTF-8, or empty text when they are not UTF-8 or
/// there is no value.
pub open spec fn spec_string_field(field_bytes: Option<Vec<u8>>) -> Seq<char> {
    match field_bytes {
        Some(bytes) => match spec_utf8_text(bytes@) {
            Some(text) => text,
            None => Seq::empty(),
        },
        None => Seq::empty(),
    }
}

pub fn read_string_field(field_bytes: &Option<Vec<u8>>) -> (text: String)
    ensures
        text@ == spec_string_field(*field_bytes),
{
    match field_bytes {
        Some(bytes) => match utf8_text(bytes.as_slice()) {
            Some(text) => text,
            None => String::new(),
        },
        None => String::new(),
    }
}

/// The preview shown beside an item: an address item's address in hexadecimal, behind its
/// module and `+` when it has one; `Pointer` for a pointer item; nothing otherwise.
pub open spec fn spec_preview_value(item: HierarchyItem) -> Seq<char> {
    match item.kind {
        HierarchyItemKind::Address => {
            let module_name = spec_string_field(item.module_field_bytes);
            let address_text = "0x"@ + spec_hex_upper(spec_u64_field(item.address_field_bytes) as nat);
            if module_name.len() == 0 {
                address_text
            } else {
                module_name + "+"@ + address_text
            }
        },
        HierarchyItemKind::Pointer => "Pointer"@,
        _ => Seq::empty(),
    }
}

pub fn build_preview_value(item: &HierarchyItem) -> (preview: String)
    ensures
        preview@ == spec_preview_value(*item),
{
    match item.kind {
        HierarchyItemKind::Address => {
            let module_name = read_string_field(&item.module_field_bytes);
            let address = read_u64_field(&item.address_field_bytes);
            if module_name.as_str().unicode_len() == 0 {
                prefixed_hex_text(address)
            } else {
                let mut preview = module_name;
                preview.append("+0x");
                push_hex_upper(&mut preview, address);
                proof {
                    reveal_strlit("+0x");
                    reveal_strlit("+");
                    reveal_strlit("0x");
                    assert(preview@ =~= spec_preview_value(*item));
                }
                preview
            }
        },
        HierarchyItemKind::Pointer => owned("Pointer"),
        _ => String::new(),
    }
}

/// The directory an item sits in: its path's parent, or the project directory for a path
/// without one.
pub open spec fn spec_parent_of(path: Seq<char>, project_directory: Seq<char>) -> Seq<char> {
    match spec_path_parent(path) {
        Some(parent) => parent,
        None => project_directory,
    }
}

/// Whether item `index` sits directly in `parent`; the project directory's own item sits
/// nowhere.
pub open spec fn spec_is_child_of(items: Seq<HierarchyItem>, index: int, parent: Seq<char>, project_directory: Seq<char>) -> bool {
    items[index].path@ != project_directory && spec_parent_of(items[index].path@, project_directory) == parent
}

/// The indices, in item order, of the first `count` items that sit directly in `parent`.
pub open spec fn spec_child_indices(items: Seq<HierarchyItem>, parent: Seq<char>, project_directory: Seq<char>, count: int) -> Seq<int>
    decreases count,
{
    if count <= 0 {
        Seq::empty()
    } else if spec_is_child_of(items, count - 1, parent, project_directory) {
        spec_child_indices(items, parent, project_directory, count - 1).push(count - 1)
    } else {
        spec_child_indices(items, parent, project_directory, count - 1)
    }
}

/// The last position among the first `count` entries of the sort order whose path, joined
/// to the project directory, is `path`.
pub open spec fn spec_last_order_match(order: Seq<String>, project_directory: Seq<char>, path: Seq<char>, count: int) -> Option<int>
    decreases count,
{
    if count <= 0 {
        None
    } else if spec_path_join(project_directory, order[count - 1]@) == path {
        Some(count - 1)
    } else {
        spec_last_order_match(order, project_directory, path, count - 1)
    }
}

/// The place of a path in the project's sort order; unlisted paths come last.
pub open spec fn spec_sort_index(order: Seq<String>, project_directory: Seq<char>, path: Seq<char>) -> usize {
    match spec_last_order_match(order, project_directory, path, order.len() as int) {
        Some(position) => position as usize,
        None => usize::MAX,
    }
}

/// The last component of a path, or empty text without one.
pub open spec fn spec_file_name_or_empty(path: Seq<char>) -> Seq<char> {
    match spec_path_file_name(path) {
        Some(name) => name,
        None => Seq::empty(),
    }
}

/// Whether one text comes before another, comparing characters by their code.
pub open spec fn spec_text_less(left: Seq<char>, right: Seq<char>) -> bool
    decreases left.len(),
{
    if left.len() == 0 {
        right.len() > 0
    } else if right.len() == 0 {
        false
    } else if left[0] != right[0] {
        (left[0] as u32) < (right[0] as u32)
    } else {
        spec_text_less(left.drop_first(), right.drop_first())
    }
}

pub fn text_less(left: &str, right: &str) -> (is_less: bool)
    ensures
        is_less == spec_text_less(left@, right@),
{
    let left_length = left.unicode_len();
    let right_length = right.unicode_len();
    let mut position: usize = 0;
    assert(left@.skip(0) =~= left@);
    assert(right@.skip(0) =~= right@);
    while position < left_length && position < right_length
        invariant
            position <= left_length,
            position <= right_length,
            left_length == left@.len(),
            right_length == right@.len(),
            spec_text_less(left@, right@) == spec_text_less(left@.skip(position as int), right@.skip(position as int)),
        decreases left_length - position,
    {
        let left_character = left.get_char(position);
        let right_character = right.get_char(position);
        assert(left@.skip(position as int)[0] == left_character);
        assert(right@.skip(position as int)[0] == right_character);
        if left_character != right_character {
            return (left_character as u32) < (right_character as u32);
        }
        assert(left@.skip(position as int).drop_first() =~= left@.skip(position + 1));
        assert(right@.skip(position as int).drop_first() =~= right@.skip(position + 1));
        position = position + 1;
    }
    position == left_length && position < right_length
}

/// How children are ordered: by their place in the sort order, then directories first,
/// then by file name.
pub struct HierarchySortKey {
    pub sort_index: usize,
    pub is_directory: bool,
    pub file_name: String,
}

/// The sort key of item `index`.
pub open spec fn spec_sort_key(items: Seq<HierarchyItem>, order: Seq<String>, project_directory: Seq<char>, index: int) -> (usize, bool, Seq<char>) {
    (
        spec_sort_index(order, project_directory, items[index].path@),
        items[index].kind == HierarchyItemKind::Directory,
        spec_file_name_or_empty(items[index].path@),
    )
}

/// Whether the first key sorts strictly before the second.
pub open spec fn spec_key_less(left: (usize, bool, Seq<char>), right: (usize, bool, Seq<char>)) -> bool {
    ||| left.0 < right.0
    ||| left.0 == right.0 && left.1 && !right.1
    ||| left.0 == right.0 && left.1 == right.1 && spec_text_less(left.2, right.2)
}

/// The keys viewed as plain values.
pub open spec fn spec_key_views(keys: Seq<HierarchySortKey>) -> Seq<(usize, bool, Seq<char>)> {
    keys.map_values(|key: HierarchySortKey| (key.sort_index, key.is_directory, key.file_name@))
}

/// `sorted` with `index` put before the first entry whose key is greater than its own.
pub open spec fn spec_insert_sorted(keys: Seq<(usize, bool, Seq<char>)>, sorted: Seq<int>, index: int) -> Seq<int>
    decreases sorted.len(),
{
    if sorted.len() == 0 {
        seq![index]
    } else if spec_key_less(keys[index], keys[sorted[0]]) {
        seq![index] + sorted
    } else {
        seq![sorted[0]] + spec_insert_sorted(keys, sorted.drop_first(), index)
    }
}

/// The indices sorted by their keys, by insertion in turn; equal keys keep their order.
pub open spec fn spec_sorted_indices(keys: Seq<(usize, bool, Seq<char>)>, indices: Seq<int>) -> Seq<int>
    decreases indices.len(),
{
    if indices.len() == 0 {
        Seq::empty()
    } else {
        spec_insert_sorted(keys, spec_sorted_indices(keys, indices.drop_last()), indices.last())
    }
}

proof fn lemma_insert_at(keys: Seq<(usize, bool, Seq<char>)>, sorted: Seq<int>, index: int, position: int)
    requires
        0 <= position <= sorted.len(),
        forall|k: int| 0 <= k < position ==> !spec_key_less(keys[index], keys[#[trigger] sorted[k]]),
        position < sorted.len() ==> spec_key_less(keys[index], keys[sorted[position]]),
    ensures
        spec_insert_sorted(keys, sorted, index) == sorted.take(position) + seq![index] + sorted.skip(position),
    decreases position,
{
    if position == 0 {
        assert(sorted.skip(0) =~= sorted);
        assert(sorted.take(0) =~= Seq::<int>::empty());
        if sorted.len() == 0 {
            assert(seq![index] + sorted =~= seq![index]);
        }
        assert(Seq::<int>::empty() + seq![index] + sorted =~= seq![index] + sorted);
    } else {
        let rest = sorted.drop_first();
        assert forall|k: int| 0 <= k < position - 1 implies !spec_key_less(keys[index], keys[#[trigger] rest[k]]) by {
            assert(rest[k] == sorted[k + 1]);
        }
        if position - 1 < rest.len() {
            assert(rest[position - 1] == sorted[position]);
        }
        lemma_insert_at(keys, rest, index, position - 1);
        assert(!spec_key_less(keys[index], keys[sorted[0]]));
        assert(seq![sorted[0]] + (rest.take(position - 1) + seq![index] + rest.skip(position - 1)) =~= sorted.take(position)
            + seq![index] + sorted.skip(position));
    }
}

/// The sort key of every item.
pub fn build_sort_keys(items: &Vec<HierarchyItem>, order: &Vec<String>, project_directory: &str) -> (keys: Vec<HierarchySortKey>)
    ensures
        keys@.len() == items@.len(),
        forall|index: int| 0 <= index < items@.len() ==> spec_key_views(keys@)[index] == spec_sort_key(
            items@,
            order@,
            project_directory@,
            index,
        ),
{
    let mut keys: Vec<HierarchySortKey> = Vec::new();
    let mut position: usize = 0;
    while position < items.len()
        invariant
            position <= items@.len(),
            keys@.len() == position,
            forall|index: int| 0 <= index < position ==> spec_key_views(keys@)[index] == spec_sort_key(
                items@,
                order@,
                project_directory@,
                index,
            ),
        decreases items@.len() - position,
    {
        let path = items[position].path.as_str();
        let mut last_match: Option<usize> = None;
        let mut order_position: usize = 0;
        while order_position < order.len()
            invariant
                order_position <= order@.len(),
                position < items@.len(),
                path@ == items@[position as int].path@,
                match last_match {
                    Some(found) => spec_last_order_match(order@, project_directory@, path@, order_position as int) == Some(
                        found as int,
                    ),
                    None => spec_last_order_match(order@, project_directory@, path@, order_position as int) is None,
                },
            decreases order@.len() - order_position,
        {
            let joined = path_join(project_directory, order[order_position].as_str());
            if same_text(joined.as_str(), path) {
                last_match = Some(order_position);
            }
            order_position = order_position + 1;
        }
        let sort_index = match last_match {
            Some(found) => found,
            None => usize::MAX,
        };
        let file_name = match path_file_name(path) {
            Some(name) => name,
            None => String::new(),
        };
        let is_directory = items[position].kind == HierarchyItemKind::Directory;
        let ghost previous_keys = keys@;
        keys.push(HierarchySortKey { sort_index, is_directory, file_name });
        proof {
            assert forall|index: int| 0 <= index < position + 1 implies spec_key_views(keys@)[index] == spec_sort_key(
                items@,
                order@,
                project_directory@,
                index,
            ) by {
                if index < position {
                    assert(keys@[index] == previous_keys[index]);
                    assert(spec_key_views(keys@)[index] == spec_key_views(previous_keys)[index]);
                } else {
                    assert(keys@[index].sort_index == sort_index);
                    assert(spec_sort_index(order@, project_directory@, path@) == sort_index);
                    assert(spec_file_name_or_empty(path@) == file_name@);
                }
            }
        }
        position = position + 1;
    }
    keys
}

fn key_less(left: &HierarchySortKey, right: &HierarchySortKey) -> (is_less: bool)
    ensures
        is_less == spec_key_less(
            (left.sort_index, left.is_directory, left.file_name@),
            (right.sort_index, right.is_directory, right.file_name@),
        ),
{
    if left.sort_index != right.sort_index {
        return left.sort_index < right.sort_index;
    }
    if left.is_directory != right.is_directory {
        return left.is_directory;
    }
    text_less(left.file_name.as_str(), right.file_name.as_str())
}

/// Indices as integers.
pub open spec fn spec_index_views(indices: Seq<usize>) -> Seq<int> {
    indices.map_values(|index: usize| index as int)
}

/// The items sitting directly in `parent`, in the order the hierarchy lists them.
pub open spec fn spec_sorted_children(
    items: Seq<HierarchyItem>,
    keys: Seq<(usize, bool, Seq<char>)>,
    parent: Seq<char>,
    project_directory: Seq<char>,
) -> Seq<int> {
    spec_sorted_indices(keys, spec_child_indices(items, parent, project_directory, items.len() as int))
}

/// The items sitting directly in `parent`, sorted.
pub fn sorted_children(
    items: &Vec<HierarchyItem>,
    keys: &Vec<HierarchySortKey>,
    parent: &str,
    project_directory: &str,
) -> (children: Vec<usize>)
    requires
        keys@.len() == items@.len(),
    ensures
        spec_index_views(children@) == spec_sorted_children(items@, spec_key_views(keys@), parent@, project_directory@),
        forall|k: int| 0 <= k < children@.len() ==> children@[k] < items@.len(),
{
    let ghost key_views = spec_key_views(keys@);
    let mut children: Vec<usize> = Vec::new();
    let mut position: usize = 0;
    while position < items.len()
        invariant
            position <= items@.len(),
            keys@.len() == items@.len(),
            key_views == spec_key_views(keys@),
            spec_index_views(children@) == spec_sorted_indices(key_views, spec_child_indices(
                items@,
                parent@,
                project_directory@,
                position as int,
            )),
            forall|k: int| 0 <= k < children@.len() ==> children@[k] < position,
        decreases items@.len() - position,
    {
        let path = items[position].path.as_str();
        let is_project_directory = same_text(path, project_directory);
        let is_child = if is_project_directory {
            false
        } else {
            match path_parent(path) {
                Some(item_parent) => same_text(item_parent.as_str(), parent),
                None => same_text(project_directory, parent),
            }
        };
        if is_child {
            let mut insert_position: usize = 0;
            while insert_position < children.len() && !key_less(&keys[position], &keys[children[insert_position]])
                invariant
                    insert_position <= children@.len(),
                    position < items@.len(),
                    keys@.len() == items@.len(),
                    key_views == spec_key_views(keys@),
                    forall|k: int| 0 <= k < children@.len() ==> children@[k] < position,
                    forall|k: int| 0 <= k < insert_position ==> !spec_key_less(
                        key_views[position as int],
                        key_views[#[trigger] spec_index_views(children@)[k]],
                    ),
                decreases children@.len() - insert_position,
            {
                insert_position = insert_position + 1;
            }
            let ghost before = spec_index_views(children@);
            proof {
                assert forall|k: int| 0 <= k < insert_position implies !spec_key_less(
                    key_views[position as int],
                    key_views[#[trigger] before[k]],
                ) by {}
                lemma_insert_at(key_views, before, position as int, insert_position as int);
                let indices = spec_child_indices(items@, parent@, project_directory@, position + 1);
                assert(spec_is_child_of(items@, position as int, parent@, project_directory@));
                assert(indices.drop_last() == spec_child_indices(items@, parent@, project_directory@, position as int));
                assert(indices.last() == position as int);
            }
            children.insert(insert_position, position);
            proof {
                assert(spec_index_views(children@) =~= before.take(insert_position as int) + seq![position as int] + before.skip(
                    insert_position as int,
                ));
            }
        } else {
            proof {
                assert(!spec_is_child_of(items@, position as int, parent@, project_directory@));
            }
        }
        position = position + 1;
    }
    children
}

/// One visible row of the project hierarchy.
pub struct ProjectHierarchyTreeEntry {
    pub project_item_path: String,
    pub display_name: String,
    pub preview_value: String,
    pub depth: usize,
    pub is_directory: bool,
    pub has_children: bool,
    pub is_expanded: bool,
}

/// A hierarchy row as plain values.
pub struct TreeEntryView {
    pub project_item_path: Seq<char>,
    pub display_name: Seq<char>,
    pub preview_value: Seq<char>,
    pub depth: nat,
    pub is_directory: bool,
    pub has_children: bool,
    pub is_expanded: bool,
}

pub open spec fn spec_entry_views(entries: Seq<ProjectHierarchyTreeEntry>) -> Seq<TreeEntryView> {
    entries.map_values(
        |entry: ProjectHierarchyTreeEntry|
            TreeEntryView {
                project_item_path: entry.project_item_path@,
                display_name: entry.display_name@,
                preview_value: entry.preview_value@,
                depth: entry.depth as nat,
                is_directory: entry.is_directory,
                has_children: entry.has_children,
                is_expanded: entry.is_expanded,
            },
    )
}

/// Whether a list of texts holds `text`.
pub open spec fn spec_contains_text(texts: Seq<String>, text: Seq<char>) -> bool {
    exists|k: int| 0 <= k < texts.len() && #[trigger] texts[k]@ == text
}

pub fn contains_text(texts: &Vec<String>, text: &str) -> (is_contained: bool)
    ensures
        is_contained == spec_contains_text(texts@, text@),
{
    let mut position: usize = 0;
    while position < texts.len()
        invariant
            position <= texts@.len(),
            forall|k: int| 0 <= k < position ==> #[trigger] texts@[k]@ != text@,
        decreases texts@.len() - position,
    {
        if same_text(texts[position].as_str(), text) {
            return true;
        }
        position = position + 1;
    }
    false
}

/// Whether some item sits directly in `parent`.
fn has_child_items(items: &Vec<HierarchyItem>, parent: &str, project_directory: &str) -> (has_children: bool)
    ensures
        has_children == (spec_child_indices(items@, parent@, project_directory@, items@.len() as int).len() > 0),
{
    let mut position: usize = 0;
    while position < items.len()
        invariant
            position <= items@.len(),
            spec_child_indices(items@, parent@, project_directory@, position as int).len() == 0,
        decreases items@.len() - position,
    {
        let path = items[position].path.as_str();
        let is_child = if same_text(path, project_directory) {
            false
        } else {
            match path_parent(path) {
                Some(item_parent) => same_text(item_parent.as_str(), parent),
                None => same_text(project_directory, parent),
            }
        };
        if is_child {
            proof {
                lemma_child_indices_grow(items@, parent@, project_directory@, position as int + 1, items@.len() as int);
            }
            return true;
        }
        position = position + 1;
    }
    false
}

proof fn lemma_child_indices_grow(items: Seq<HierarchyItem>, parent: Seq<char>, project_directory: Seq<char>, smaller: int, larger: int)
    requires
        0 <= smaller <= larger,
    ensures
        spec_child_indices(items, parent, project_directory, smaller).len() <= spec_child_indices(
            items,
            parent,
            project_directory,
            larger,
        ).len(),
    decreases larger - smaller,
{
    if smaller < larger {
        lemma_child_indices_grow(items, parent, project_directory, smaller, larger - 1);
    }
}

/// The row of item `index` at `depth`.
pub open spec fn spec_entry_view(
    items: Seq<HierarchyItem>,
    expanded: Seq<String>,
    project_directory: Seq<char>,
    index: int,
    depth: nat,
) -> TreeEntryView {
    let path = items[index].path@;
    TreeEntryView {
        project_item_path: path,
        display_name: spec_file_name_or_empty(path),
        preview_value: spec_preview_value(items[index]),
        depth,
        is_directory: items[index].kind == HierarchyItemKind::Directory,
        has_children: spec_child_indices(items, path, project_directory, items.len() as int).len() > 0,
        is_expanded: spec_contains_text(expanded, path),
    }
}

/// The rows of `children` at `depth`, each followed, when it is an expanded directory, by
/// the rows of its own children one level deeper; `budget` bounds how deep the rows go.
pub open spec fn spec_visible_rows(
    items: Seq<HierarchyItem>,
    keys: Seq<(usize, bool, Seq<char>)>,
    expanded: Seq<String>,
    project_directory: Seq<char>,
    children: Seq<int>,
    depth: nat,
    budget: nat,
) -> Seq<TreeEntryView>
    decreases budget, children.len(),
{
    if children.len() == 0 {
        Seq::empty()
    } else {
        let first = children[0];
        let entry = spec_entry_view(items, expanded, project_directory, first, depth);
        let nested = if entry.is_directory && entry.is_expanded && budget > 0 {
            spec_visible_rows(
                items,
                keys,
                expanded,
                project_directory,
                spec_sorted_children(items, keys, items[first].path@, project_directory),
                depth + 1,
                (budget - 1) as nat,
            )
        } else {
            Seq::empty()
        };
        seq![entry] + nested + spec_visible_rows(items, keys, expanded, project_directory, children.drop_first(), depth, budget)
    }
}

fn append_visible_entries(
    entries: &mut Vec<ProjectHierarchyTreeEntry>,
    items: &Vec<HierarchyItem>,
    keys: &Vec<HierarchySortKey>,
    expanded: &Vec<String>,
    project_directory: &str,
    children: &Vec<usize>,
    depth: usize,
    budget: usize,
)
    requires
        keys@.len() == items@.len(),
        forall|k: int| 0 <= k < children@.len() ==> children@[k] < items@.len(),
        depth + budget <= usize::MAX,
    ensures
        spec_entry_views(final(entries)@) == spec_entry_views(old(entries)@) + spec_visible_rows(
            items@,
            spec_key_views(keys@),
            expanded@,
            project_directory@,
            spec_index_views(children@),
            depth as nat,
            budget as nat,
        ),
    decreases budget,
{
    let ghost key_views = spec_key_views(keys@);
    let ghost initial = spec_entry_views(entries@);
    let ghost all_children = spec_index_views(children@);
    let mut position: usize = 0;
    proof {
        assert(all_children.skip(0) =~= all_children);
    }
    while position < children.len()
        invariant
            position <= children@.len(),
            keys@.len() == items@.len(),
            key_views == spec_key_views(keys@),
            all_children == spec_index_views(children@),
            forall|k: int| 0 <= k < children@.len() ==> children@[k] < items@.len(),
            depth + budget <= usize::MAX,
            initial + spec_visible_rows(items@, key_views, expanded@, project_directory@, all_children, depth as nat, budget as nat)
                == spec_entry_views(entries@) + spec_visible_rows(
                items@,
                key_views,
                expanded@,
                project_directory@,
                all_children.skip(position as int),
                depth as nat,
                budget as nat,
            ),
        decreases children@.len() - position,
    {
        let index = children[position];
        let path = items[index].path.as_str();
        let display_name = match path_file_name(path) {
            Some(name) => name,
            None => String::new(),
        };
        let preview_value = build_preview_value(&items[index]);
        let is_directory = items[index].kind == HierarchyItemKind::Directory;
        let has_children = has_child_items(items, path, project_directory);
        let is_expanded = contains_text(expanded, path);
        let ghost before_push = spec_entry_views(entries@);
        let ghost rest = all_children.skip(position as int);
        entries.push(
            ProjectHierarchyTreeEntry {
                project_item_path: String::from_str(path),
                display_name,
                preview_value,
                depth,
                is_directory,
                has_children,
                is_expanded,
            },
        );
        proof {
            assert(rest[0] == index as int);
            assert(rest.drop_first() =~= all_children.skip(position + 1));
            assert(spec_entry_views(entries@) =~= before_push.push(
                spec_entry_view(items@, expanded@, project_directory@, index as int, depth as nat),
            ));
        }
        if is_directory && is_expanded && budget > 0 {
            let grandchildren = sorted_children(items, keys, path, project_directory);
            let ghost before_nested = spec_entry_views(entries@);
            append_visible_entries(entries, items, keys, expanded, project_directory, &grandchildren, depth + 1, budget - 1);
            proof {
                assert(initial + spec_visible_rows(
                    items@,
                    key_views,
                    expanded@,
                    project_directory@,
                    all_children,
                    depth as nat,
                    budget as nat,
                ) =~= spec_entry_views(entries@) + spec_visible_rows(
                    items@,
                    key_views,
                    expanded@,
                    project_directory@,
                    all_children.skip(position + 1),
                    depth as nat,
                    budget as nat,
                ));
            }
        } else {
            proof {
                assert(initial + spec_visible_rows(
                    items@,
                    key_views,
                    expanded@,
                    project_directory@,
                    all_children,
                    depth as nat,
                    budget as nat,
                ) =~= spec_entry_views(entries@) + spec_visible_rows(
                    items@,
                    key_views,
                    expanded@,
                    project_directory@,
                    all_children.skip(position + 1),
                    depth as nat,
                    budget as nat,
                ));
            }
        }
        position = position + 1;
    }
    proof {
        assert(all_children.skip(position as int) =~= Seq::<int>::empty());
        assert(spec_entry_views(entries@) + Seq::<TreeEntryView>::empty() =~= spec_entry_views(entries@));
    }
}

/// The rows of the hierarchy: the items under the project directory, each directory's
/// children listed by the sort order, then directories first, then by file name, and the
/// children of expanded directories shown under them one level deeper. Without a project
/// directory there are no rows.
pub open spec fn spec_tree_entries(
    project_directory: Option<String>,
    items: Seq<HierarchyItem>,
    order: Seq<String>,
    expanded: Seq<String>,
) -> Seq<TreeEntryView> {
    match project_directory {
        Some(directory) => {
            let keys = Seq::new(items.len(), |index: int| spec_sort_key(items, order, directory@, index));
            spec_visible_rows(
                items,
                keys,
                expanded,
                directory@,
                spec_sorted_children(items, keys, directory@, directory@),
                0,
                items.len(),
            )
        },
        None => Seq::empty(),
    }
}

pub fn build_tree_entries(
    project_directory: &Option<String>,
    items: &Vec<HierarchyItem>,
    order: &Vec<String>,
    expanded: &Vec<String>,
) -> (entries: Vec<ProjectHierarchyTreeEntry>)
    ensures
        spec_entry_views(entries@) == spec_tree_entries(*project_directory, items@, order@, expanded@),
{
    let mut entries: Vec<ProjectHierarchyTreeEntry> = Vec::new();
    let directory = match project_directory {
        Some(directory) => directory.as_str(),
        None => return entries,
    };
    let keys = build_sort_keys(items, order, directory);
    proof {
        assert(spec_key_views(keys@) =~= Seq::new(items@.len(), |index: int| spec_sort_key(items@, order@, directory@, index)));
    }
    let children = sorted_children(items, &keys, directory, directory);
    append_visible_entries(&mut entries, items, &keys, expanded, directory, &children, 0, items.len());
    proof {
        assert(spec_entry_views(Seq::<ProjectHierarchyTreeEntry>::empty()) =~= Seq::<TreeEntryView>::empty());
        assert(Seq::<TreeEntryView>::empty() + spec_visible_rows(
            items@,
            spec_key_views(keys@),
            expanded@,
            directory@,
            spec_index_views(children@),
            0,
            items@.len(),
        ) =~= spec_visible_rows(items@, spec_key_views(keys@), expanded@, directory@, spec_index_views(children@), 0, items@.len()));
    }
    entries
}

/// The texts of a list other than `text`, in order.
pub open spec fn spec_without_text(texts: Seq<Seq<char>>, text: Seq<char>) -> Seq<Seq<char>>
    decreases texts.len(),
{
    if texts.len() == 0 {
        Seq::empty()
    } else if texts.last() == text {
        spec_without_text(texts.drop_last(), text)
    } else {
        spec_without_text(texts.drop_last(), text).push(texts.last())
    }
}

/// The texts with `text` taken out when they hold it, else with `text` added at the end.
pub open spec fn spec_toggled_texts(texts: Seq<Seq<char>>, text: Seq<char>) -> Seq<Seq<char>> {
    if texts.contains(text) {
        spec_without_text(texts, text)
    } else {
        texts.push(text)
    }
}

/// Whether some row shows the item at `path`.
pub open spec fn spec_has_entry_for(entries: Seq<TreeEntryView>, path: Seq<char>) -> bool {
    exists|k: int| 0 <= k < entries.len() && #[trigger] entries[k].project_item_path == path
}

fn has_entry_for(entries: &Vec<ProjectHierarchyTreeEntry>, path: &str) -> (has_entry: bool)
    ensures
        has_entry == spec_has_entry_for(spec_entry_views(entries@), path@),
{
    let mut position: usize = 0;
    while position < entries.len()
        invariant
            position <= entries@.len(),
            forall|k: int| 0 <= k < position ==> #[trigger] spec_entry_views(entries@)[k].project_item_path != path@,
        decreases entries@.len() - position,
    {
        if same_text(entries[position].project_item_path.as_str(), path) {
            assert(spec_entry_views(entries@)[position as int].project_item_path == path@);
            return true;
        }
        position = position + 1;
    }
    false
}

/// The state of the project hierarchy view: the opened project's directory, its sort order
/// and items, the visible rows built from them, the selected item, the expanded directories,
/// the item a context menu is open for, and whether a reload is under way.
pub struct ProjectHierarchyViewData {
    pub project_directory_path: Option<String>,
    pub project_item_sort_order: Vec<String>,
    pub project_items: Vec<HierarchyItem>,
    pub tree_entries: Vec<ProjectHierarchyTreeEntry>,
    pub selected_project_item_path: Option<String>,
    pub expanded_directory_paths: Vec<String>,
    pub context_menu_project_item_path: Option<String>,
    pub is_refreshing: bool,
}

impl ProjectHierarchyViewData {
    /// The rows match the items, the sort order and the expanded directories.
    pub open spec fn spec_rows_are_current(&self) -> bool {
        spec_entry_views(self.tree_entries@) == spec_tree_entries(
            self.project_directory_path,
            self.project_items@,
            self.project_item_sort_order@,
            self.expanded_directory_paths@,
        )
    }

    /// An empty hierarchy: no project, no rows, nothing selected or expanded.
    pub fn new() -> (view_data: ProjectHierarchyViewData)
        ensures
            view_data.project_directory_path is None,
            view_data.project_item_sort_order@.len() == 0,
            view_data.project_items@.len() == 0,
            view_data.tree_entries@.len() == 0,
            view_data.selected_project_item_path is None,
            view_data.expanded_directory_paths@.len() == 0,
            view_data.context_menu_project_item_path is None,
            !view_data.is_refreshing,
            view_data.spec_rows_are_current(),
    {
        let view_data = ProjectHierarchyViewData {
            project_directory_path: None,
            project_item_sort_order: Vec::new(),
            project_items: Vec::new(),
            tree_entries: Vec::new(),
            selected_project_item_path: None,
            expanded_directory_paths: Vec::new(),
            context_menu_project_item_path: None,
            is_refreshing: false,
        };
        assert(spec_entry_views(view_data.tree_entries@) =~= Seq::<TreeEntryView>::empty());
        view_data
    }

    /// Starts reloading the items; returns `false`, changing nothing, while a reload is
    /// already under way.
    pub fn begin_refresh(&mut self) -> (should_send: bool)
        ensures
            should_send == !old(self).is_refreshing,
            *final(self) == (ProjectHierarchyViewData { is_refreshing: true, ..*old(self) }),
    {
        if self.is_refreshing {
            return false;
        }
        self.is_refreshing = true;
        true
    }

    /// Takes the items of the opened project: the project directory is expanded, the rows
    /// are rebuilt, a selection that no row shows any more is dropped, and the reload is over.
    pub fn apply_project_items_list(
        &mut self,
        project_directory_path: Option<String>,
        project_item_sort_order: Vec<String>,
        project_items: Vec<HierarchyItem>,
    )
        ensures
            final(self).project_directory_path == project_directory_path,
            final(self).project_item_sort_order == project_item_sort_order,
            final(self).project_items == project_items,
            spec_texts(final(self).expanded_directory_paths@) == match project_directory_path {
                Some(directory) => if spec_contains_text(old(self).expanded_directory_paths@, directory@) {
                    spec_texts(old(self).expanded_directory_paths@)
                } else {
                    spec_texts(old(self).expanded_directory_paths@).push(directory@)
                },
                None => spec_texts(old(self).expanded_directory_paths@),
            },
            final(self).spec_rows_are_current(),
            final(self).selected_project_item_path == match old(self).selected_project_item_path {
                Some(path) => if spec_has_entry_for(spec_entry_views(final(self).tree_entries@), path@) {
                    Some(path)
                } else {
                    None
                },
                None => None,
            },
            final(self).context_menu_project_item_path == old(self).context_menu_project_item_path,
            !final(self).is_refreshing,
    {
        match &project_directory_path {
            Some(directory) => {
                if !contains_text(&self.expanded_directory_paths, directory.as_str()) {
                    self.expanded_directory_paths.push(directory.clone());
                    assert(spec_texts(self.expanded_directory_paths@) =~= spec_texts(
                        old(self).expanded_directory_paths@,
                    ).push(directory@));
                }
            },
            None => {},
        }
        self.project_directory_path = project_directory_path;
        self.project_item_sort_order = project_item_sort_order;
        self.project_items = project_items;
        self.tree_entries = build_tree_entries(
            &self.project_directory_path,
            &self.project_items,
            &self.project_item_sort_order,
            &self.expanded_directory_paths,
        );
        let keeps_selection = match &self.selected_project_item_path {
            Some(path) => has_entry_for(&self.tree_entries, path.as_str()),
            None => false,
        };
        if !keeps_selection {
            self.selected_project_item_path = None;
        }
        self.is_refreshing = false;
    }

    /// Whether the engine has another project open than the one whose items are shown, by
    /// the projects' directories; the items are then reloaded.
    pub fn needs_refresh_for_opened_project(&self, opened_project_directory_path: &Option<String>) -> (needs_refresh: bool)
        ensures
            needs_refresh == (spec_option_text(*opened_project_directory_path) != spec_option_text(self.project_directory_path)),
    {
        match (opened_project_directory_path, &self.project_directory_path) {
            (Some(opened), Some(loaded)) => !same_text(opened.as_str(), loaded.as_str()),
            (None, None) => false,
            _ => true,
        }
    }

    /// Carries out the action a frame left: selecting an item or toggling a directory's
    /// expansion; other actions leave the view's data as it is.
    pub fn apply_frame_action(&mut self, action: ProjectHierarchyFrameAction)
        ensures
            match action {
                ProjectHierarchyFrameAction::SelectProjectItem(path) => *final(self) == (ProjectHierarchyViewData {
                    selected_project_item_path: Some(path),
                    ..*old(self)
                }),
                ProjectHierarchyFrameAction::ToggleDirectoryExpansion(path) => {
                    &&& spec_texts(final(self).expanded_directory_paths@) == spec_toggled_texts(
                        spec_texts(old(self).expanded_directory_paths@),
                        path@,
                    )
                    &&& final(self).spec_rows_are_current()
                    &&& final(self).project_directory_path == old(self).project_directory_path
                    &&& final(self).project_item_sort_order == old(self).project_item_sort_order
                    &&& final(self).project_items == old(self).project_items
                    &&& final(self).selected_project_item_path == old(self).selected_project_item_path
                    &&& final(self).context_menu_project_item_path == old(self).context_menu_project_item_path
                    &&& final(self).is_refreshing == old(self).is_refreshing
                },
                _ => *final(self) == *old(self),
            },
    {
        match action {
            ProjectHierarchyFrameAction::SelectProjectItem(path) => self.select_project_item(path),
            ProjectHierarchyFrameAction::ToggleDirectoryExpansion(path) => self.toggle_directory_expansion(path.as_str()),
            _ => {},
        }
    }

    /// Selects the item at `project_item_path`.
    pub fn select_project_item(&mut self, project_item_path: String)
        ensures
            *final(self) == (ProjectHierarchyViewData { selected_project_item_path: Some(project_item_path), ..*old(self) }),
    {
        self.selected_project_item_path = Some(project_item_path);
    }

    /// Collapses the directory at `project_item_path` when it is expanded, else expands it,
    /// and rebuilds the rows.
    pub fn toggle_directory_expansion(&mut self, project_item_path: &str)
        ensures
            spec_texts(final(self).expanded_directory_paths@) == spec_toggled_texts(
                spec_texts(old(self).expanded_directory_paths@),
                project_item_path@,
            ),
            spec_contains_text(final(self).expanded_directory_paths@, project_item_path@) != spec_contains_text(
                old(self).expanded_directory_paths@,
                project_item_path@,
            ),
            final(self).spec_rows_are_current(),
            final(self).project_directory_path == old(self).project_directory_path,
            final(self).project_item_sort_order == old(self).project_item_sort_order,
            final(self).project_items == old(self).project_items,
            final(self).selected_project_item_path == old(self).selected_project_item_path,
            final(self).context_menu_project_item_path == old(self).context_menu_project_item_path,
            final(self).is_refreshing == old(self).is_refreshing,
    {
        proof {
            lemma_contains_text_in_texts(self.expanded_directory_paths@, project_item_path@);
        }
        if contains_text(&self.expanded_directory_paths, project_item_path) {
            let kept = without_text(&self.expanded_directory_paths, project_item_path);
            self.expanded_directory_paths = kept;
        } else {
            self.expanded_directory_paths.push(String::from_str(project_item_path));
            proof {
                assert(spec_texts(self.expanded_directory_paths@) =~= spec_texts(old(self).expanded_directory_paths@).push(
                    project_item_path@,
                ));
                assert(self.expanded_directory_paths@[self.expanded_directory_paths@.len() - 1]@ == project_item_path@);
            }
        }
        self.tree_entries = build_tree_entries(
            &self.project_directory_path,
            &self.project_items,
            &self.project_item_sort_order,
            &self.expanded_directory_paths,
        );
    }
}

/// The texts of a list other than `text`, in order.
fn without_text(texts: &Vec<String>, text: &str) -> (kept: Vec<String>)
    ensures
        spec_texts(kept@) == spec_without_text(spec_texts(texts@), text@),
        !spec_contains_text(kept@, text@),
{
    let mut kept: Vec<String> = Vec::new();
    let mut position: usize = 0;
    while position < texts.len()
        invariant
            position <= texts@.len(),
            spec_texts(kept@) == spec_without_text(spec_texts(texts@.take(position as int)), text@),
            forall|k: int| 0 <= k < kept@.len() ==> #[trigger] kept@[k]@ != text@,
        decreases texts@.len() - position,
    {
        proof {
            assert(spec_texts(texts@.take(position + 1)).drop_last() =~= spec_texts(texts@.take(position as int)));
            assert(spec_texts(texts@.take(position + 1)).last() == texts@[position as int]@);
        }
        if !same_text(texts[position].as_str(), text) {
            kept.push(texts[position].clone());
            proof {
                assert(spec_texts(kept@) =~= spec_without_text(spec_texts(texts@.take(position as int)), text@).push(
                    texts@[position as int]@,
                ));
            }
        }
        position = position + 1;
    }
    proof {
        assert(texts@.take(texts@.len() as int) =~= texts@);
    }
    kept
}

proof fn lemma_contains_text_in_texts(texts: Seq<String>, text: Seq<char>)
    ensures
        spec_contains_text(texts, text) == spec_texts(texts).contains(text),
{
    if spec_contains_text(texts, text) {
        let k = choose|k: int| 0 <= k < texts.len() && #[trigger] texts[k]@ == text;
        assert(spec_texts(texts)[k] == text);
    }
    if spec_texts(texts).contains(text) {
        let k = choose|k: int| 0 <= k < spec_texts(texts).len() && spec_texts(texts)[k] == text;
        assert(texts[k]@ == text);
    }
}

proof fn lemma_without_text_contains(texts: Seq<Seq<char>>, removed: Seq<char>, text: Seq<char>)
    ensures
        spec_without_text(texts, removed).contains(text) == (texts.contains(text) && text != removed),
    decreases texts.len(),
{
    if texts.len() > 0 {
        lemma_without_text_contains(texts.drop_last(), removed, text);
        let earlier = spec_without_text(texts.drop_last(), removed);
        if texts.contains(text) && text != removed {
            let k = choose|k: int| 0 <= k < texts.len() && texts[k] == text;
            if k < texts.len() - 1 {
                assert(texts.drop_last()[k] == text);
            }
        }
        if texts.drop_last().contains(text) {
            let k = choose|k: int| 0 <= k < texts.drop_last().len() && texts.drop_last()[k] == text;
            assert(texts[k] == text);
        }
        if texts.last() != removed {
            assert(earlier.push(texts.last()).contains(text) == (earlier.contains(text) || texts.last() == text)) by {
                if earlier.push(texts.last()).contains(text) {
                    let k = choose|k: int| 0 <= k < earlier.len() + 1 && earlier.push(texts.last())[k] == text;
                    if k < earlier.len() {
                        assert(earlier[k] == text);
                    }
                }
                if earlier.contains(text) {
                    let k = choose|k: int| 0 <= k < earlier.len() && earlier[k] == text;
                    assert(earlier.push(texts.last())[k] == text);
                }
                if texts.last() == text {
                    assert(earlier.push(texts.last())[earlier.len() as int] == text);
                }
            }
        }
        if texts.last() == text {
            assert(texts[texts.len() - 1] == text);
        }
    }
}

proof fn lemma_toggled_twice_membership(texts: Seq<Seq<char>>, toggled: Seq<char>, text: Seq<char>)
    ensures
        spec_toggled_texts(spec_toggled_texts(texts, toggled), toggled).contains(text) == texts.contains(text),
{
    let once = spec_toggled_texts(texts, toggled);
    if texts.contains(toggled) {
        lemma_without_text_contains(texts, toggled, toggled);
        lemma_without_text_contains(texts, toggled, text);
        assert(!once.contains(toggled));
        let twice = once.push(toggled);
        assert(twice[once.len() as int] == toggled);
        if once.contains(text) {
            let k = choose|k: int| 0 <= k < once.len() && once[k] == text;
            assert(twice[k] == text);
        }
        if twice.contains(text) && text != toggled {
            let k = choose|k: int| 0 <= k < twice.len() && twice[k] == text;
            assert(once[k] == text);
        }
    } else {
        let pushed = texts.push(toggled);
        assert(pushed[texts.len() as int] == toggled);
        assert(pushed.contains(toggled));
        lemma_without_text_contains(pushed, toggled, text);
        if texts.contains(text) {
            let k = choose|k: int| 0 <= k < texts.len() && texts[k] == text;
            assert(pushed[k] == text);
        }
        if pushed.contains(text) && text != toggled {
            let k = choose|k: int| 0 <= k < pushed.len() && pushed[k] == text;
            assert(texts[k] == text);
        }
    }
}

proof fn lemma_rows_follow_membership(
    items: Seq<HierarchyItem>,
    keys: Seq<(usize, bool, Seq<char>)>,
    expanded: Seq<String>,
    other_expanded: Seq<String>,
    project_directory: Seq<char>,
    children: Seq<int>,
    depth: nat,
    budget: nat,
)
    requires
        forall|text: Seq<char>| spec_contains_text(expanded, text) == spec_contains_text(other_expanded, text),
    ensures
        spec_visible_rows(items, keys, expanded, project_directory, children, depth, budget) == spec_visible_rows(
            items,
            keys,
            other_expanded,
            project_directory,
            children,
            depth,
            budget,
        ),
    decreases budget, children.len(),
{
    if children.len() > 0 {
        let first = children[0];
        let entry = spec_entry_view(items, expanded, project_directory, first, depth);
        assert(entry == spec_entry_view(items, other_expanded, project_directory, first, depth)) by {
            assert(spec_contains_text(expanded, items[first].path@) == spec_contains_text(other_expanded, items[first].path@));
        }
        if entry.is_directory && entry.is_expanded && budget > 0 {
            lemma_rows_follow_membership(
                items,
                keys,
                expanded,
                other_expanded,
                project_directory,
                spec_sorted_children(items, keys, items[first].path@, project_directory),
                depth + 1,
                (budget - 1) as nat,
            );
        }
        lemma_rows_follow_membership(items, keys, expanded, other_expanded, project_directory, children.drop_first(), depth, budget);
    }
}

/// Expanding a directory and collapsing it again, or the other way round, gives back the
/// rows shown before: the rows depend on the expanded directories only through which ones
/// are expanded.
pub proof fn lemma_expansion_toggle_round_trip(
    project_directory: Option<String>,
    items: Seq<HierarchyItem>,
    order: Seq<String>,
    expanded: Seq<String>,
    toggled_once: Seq<String>,
    toggled_twice: Seq<String>,
    project_item_path: Seq<char>,
)
    requires
        spec_texts(toggled_once) == spec_toggled_texts(spec_texts(expanded), project_item_path),
        spec_texts(toggled_twice) == spec_toggled_texts(spec_texts(toggled_once), project_item_path),
    ensures
        spec_tree_entries(project_directory, items, order, toggled_twice) == spec_tree_entries(project_directory, items, order, expanded),
{
    assert forall|text: Seq<char>| spec_contains_text(toggled_twice, text) == spec_contains_text(expanded, text) by {
        lemma_contains_text_in_texts(toggled_twice, text);
        lemma_contains_text_in_texts(expanded, text);
        lemma_toggled_twice_membership(spec_texts(expanded), project_item_path, text);
    }
    match project_directory {
        Some(directory) => {
            let keys = Seq::new(items.len(), |index: int| spec_sort_key(items, order, directory@, index));
            lemma_rows_follow_membership(
                items,
                keys,
                toggled_twice,
                expanded,
                directory@,
                spec_sorted_children(items, keys, directory@, directory@),
                0,
                items.len(),
            );
        },
        None => {},
    }
}

/// Whether every index of a list names an item that sits directly in `parent`.
pub open spec fn spec_all_children_of(items: Seq<HierarchyItem>, indices: Seq<int>, parent: Seq<char>, project_directory: Seq<char>) -> bool {
    forall|k: int|
        0 <= k < indices.len() ==> 0 <= #[trigger] indices[k] < items.len() && spec_is_child_of(
            items,
            indices[k],
            parent,
            project_directory,
        )
}

/// Whether `row` is listed as a child of `parent_row`: one level deeper, under the path of its
/// own parent directory, which is an expanded directory.
pub open spec fn spec_row_opens_into(parent_row: TreeEntryView, row: TreeEntryView, project_directory: Seq<char>) -> bool {
    &&& parent_row.depth + 1 == row.depth
    &&& parent_row.project_item_path == spec_parent_of(row.project_item_path, project_directory)
    &&& parent_row.is_directory
    &&& parent_row.is_expanded
}

/// Whether rows listed from `depth` under `parent` hang together as a tree: no row is the
/// project directory itself, the rows at `depth` sit in `parent`, and every deeper row comes
/// after the row of its parent directory, which is expanded.
pub open spec fn spec_rows_hang_from(rows: Seq<TreeEntryView>, depth: nat, parent: Seq<char>, project_directory: Seq<char>) -> bool {
    forall|k: int|
        0 <= k < rows.len() ==> {
            &&& #[trigger] rows[k].depth >= depth
            &&& rows[k].project_item_path != project_directory
            &&& rows[k].depth == depth ==> spec_parent_of(rows[k].project_item_path, project_directory) == parent
            &&& rows[k].depth > depth ==> exists|j: int|
                0 <= j < k && spec_row_opens_into(#[trigger] rows[j], rows[k], project_directory)
        }
}

proof fn lemma_child_indices_are_children(items: Seq<HierarchyItem>, parent: Seq<char>, project_directory: Seq<char>, count: int)
    requires
        count <= items.len(),
    ensures
        spec_all_children_of(items, spec_child_indices(items, parent, project_directory, count), parent, project_directory),
    decreases count,
{
    if count > 0 {
        lemma_child_indices_are_children(items, parent, project_directory, count - 1);
    }
}

proof fn lemma_insert_sorted_keeps_children(
    items: Seq<HierarchyItem>,
    keys: Seq<(usize, bool, Seq<char>)>,
    sorted: Seq<int>,
    index: int,
    parent: Seq<char>,
    project_directory: Seq<char>,
)
    requires
        spec_all_children_of(items, sorted, parent, project_directory),
        0 <= index < items.len(),
        spec_is_child_of(items, index, parent, project_directory),
    ensures
        spec_all_children_of(items, spec_insert_sorted(keys, sorted, index), parent, project_directory),
    decreases sorted.len(),
{
    let result = spec_insert_sorted(keys, sorted, index);
    if sorted.len() == 0 {
    } else if spec_key_less(keys[index], keys[sorted[0]]) {
        assert forall|k: int| 0 <= k < result.len() implies 0 <= #[trigger] result[k] < items.len() && spec_is_child_of(
            items,
            result[k],
            parent,
            project_directory,
        ) by {
            if k > 0 {
                assert(result[k] == sorted[k - 1]);
            }
        }
    } else {
        let rest = sorted.drop_first();
        assert forall|k: int| 0 <= k < rest.len() implies 0 <= #[trigger] rest[k] < items.len() && spec_is_child_of(
            items,
            rest[k],
            parent,
            project_directory,
        ) by {
            assert(rest[k] == sorted[k + 1]);
        }
        lemma_insert_sorted_keeps_children(items, keys, rest, index, parent, project_directory);
        let inserted = spec_insert_sorted(keys, rest, index);
        assert forall|k: int| 0 <= k < result.len() implies 0 <= #[trigger] result[k] < items.len() && spec_is_child_of(
            items,
            result[k],
            parent,
            project_directory,
        ) by {
            if k > 0 {
                assert(result[k] == inserted[k - 1]);
            } else {
                assert(result[0] == sorted[0]);
            }
        }
    }
}

proof fn lemma_sorted_indices_keep_children(
    items: Seq<HierarchyItem>,
    keys: Seq<(usize, bool, Seq<char>)>,
    indices: Seq<int>,
    parent: Seq<char>,
    project_directory: Seq<char>,
)
    requires
        spec_all_children_of(items, indices, parent, project_directory),
    ensures
        spec_all_children_of(items, spec_sorted_indices(keys, indices), parent, project_directory),
    decreases indices.len(),
{
    if indices.len() > 0 {
        let front = indices.drop_last();
        assert forall|k: int| 0 <= k < front.len() implies 0 <= #[trigger] front[k] < items.len() && spec_is_child_of(
            items,
            front[k],
            parent,
            project_directory,
        ) by {
            assert(front[k] == indices[k]);
        }
        lemma_sorted_indices_keep_children(items, keys, front, parent, project_directory);
        assert(indices.last() == indices[indices.len() - 1]);
        lemma_insert_sorted_keeps_children(items, keys, spec_sorted_indices(keys, front), indices.last(), parent, project_directory);
    }
}

proof fn lemma_sorted_children_are_children(
    items: Seq<HierarchyItem>,
    keys: Seq<(usize, bool, Seq<char>)>,
    parent: Seq<char>,
    project_directory: Seq<char>,
)
    ensures
        spec_all_children_of(items, spec_sorted_children(items, keys, parent, project_directory), parent, project_directory),
{
    lemma_child_indices_are_children(items, parent, project_directory, items.len() as int);
    lemma_sorted_indices_keep_children(
        items,
        keys,
        spec_child_indices(items, parent, project_directory, items.len() as int),
        parent,
        project_directory,
    );
}

proof fn lemma_visible_rows_hang_from(
    items: Seq<HierarchyItem>,
    keys: Seq<(usize, bool, Seq<char>)>,
    expanded: Seq<String>,
    project_directory: Seq<char>,
    children: Seq<int>,
    parent: Seq<char>,
    depth: nat,
    budget: nat,
)
    requires
        spec_all_children_of(items, children, parent, project_directory),
    ensures
        spec_rows_hang_from(
            spec_visible_rows(items, keys, expanded, project_directory, children, depth, budget),
            depth,
            parent,
            project_directory,
        ),
    decreases budget, children.len(),
{
    let rows = spec_visible_rows(items, keys, expanded, project_directory, children, depth, budget);
    if children.len() > 0 {
        let first = children[0];
        let entry = spec_entry_view(items, expanded, project_directory, first, depth);
        let path = items[first].path@;
        let opens = entry.is_directory && entry.is_expanded && budget > 0;
        let grandchildren = spec_sorted_children(items, keys, path, project_directory);
        let nested = if opens {
            spec_visible_rows(items, keys, expanded, project_directory, grandchildren, depth + 1, (budget - 1) as nat)
        } else {
            Seq::empty()
        };
        let rest_children = children.drop_first();
        let rest = spec_visible_rows(items, keys, expanded, project_directory, rest_children, depth, budget);
        assert(rows == seq![entry] + nested + rest);
        assert(spec_is_child_of(items, children[0], parent, project_directory));
        if opens {
            lemma_sorted_children_are_children(items, keys, path, project_directory);
            lemma_visible_rows_hang_from(items, keys, expanded, project_directory, grandchildren, path, depth + 1, (budget - 1) as nat);
        }
        assert forall|k: int| 0 <= k < rest_children.len() implies 0 <= #[trigger] rest_children[k] < items.len() && spec_is_child_of(
            items,
            rest_children[k],
            parent,
            project_directory,
        ) by {
            assert(rest_children[k] == children[k + 1]);
        }
        lemma_visible_rows_hang_from(items, keys, expanded, project_directory, rest_children, parent, depth, budget);
        let offset = 1 + nested.len();
        assert forall|k: int| 0 <= k < rows.len() implies {
            &&& #[trigger] rows[k].depth >= depth
            &&& rows[k].project_item_path != project_directory
            &&& rows[k].depth == depth ==> spec_parent_of(rows[k].project_item_path, project_directory) == parent
            &&& rows[k].depth > depth ==> exists|j: int|
                0 <= j < k && spec_row_opens_into(#[trigger] rows[j], rows[k], project_directory)
        } by {
            if k == 0 {
                assert(rows[0] == entry);
            } else if k < offset {
                let n = k - 1;
                assert(rows[k] == nested[n]);
                assert(opens);
                assert(nested[n].depth >= depth + 1);
                if nested[n].depth == depth + 1 {
                    assert(rows[0] == entry);
                    assert(spec_row_opens_into(rows[0], rows[k], project_directory));
                } else {
                    let j = choose|j: int| 0 <= j < n && spec_row_opens_into(#[trigger] nested[j], nested[n], project_directory);
                    assert(rows[j + 1] == nested[j]);
                    assert(spec_row_opens_into(rows[j + 1], rows[k], project_directory));
                }
            } else {
                let r = k - offset;
                assert(rows[k] == rest[r]);
                if rest[r].depth > depth {
                    let j = choose|j: int| 0 <= j < r && spec_row_opens_into(#[trigger] rest[j], rest[r], project_directory);
                    assert(rows[j + offset] == rest[j]);
                    assert(spec_row_opens_into(rows[j + offset], rows[k], project_directory));
                }
            }
        }
    }
}

/// Whether a sort key may stand before another among siblings: an earlier place in the sort
/// order; at the same place, a directory before an item that is not one; at the same place and
/// of the same kind, a file name that is not greater, comparing characters by their code.
pub open spec fn spec_key_in_order(first: (usize, bool, Seq<char>), second: (usize, bool, Seq<char>)) -> bool {
    ||| first.0 < second.0
    ||| first.0 == second.0 && first.1 && !second.1
    ||| first.0 == second.0 && first.1 == second.1 && !spec_text_less(second.2, first.2)
}

/// The sort key a row shows: its path's place in the sort order, whether it is a directory,
/// and its displayed name.
pub open spec fn spec_row_sort_key(order: Seq<String>, project_directory: Seq<char>, row: TreeEntryView) -> (usize, bool, Seq<char>) {
    (spec_sort_index(order, project_directory, row.project_item_path), row.is_directory, row.display_name)
}

/// Whether rows `first` and `second` are neighbouring siblings: the same depth, with only
/// deeper rows between them.
pub open spec fn spec_neighbouring_siblings(rows: Seq<TreeEntryView>, first: int, second: int) -> bool {
    &&& 0 <= first < second < rows.len()
    &&& rows[first].depth == rows[second].depth
    &&& forall|between: int| first < between < second ==> (#[trigger] rows[between]).depth > rows[first].depth
}

/// Whether every pair of neighbouring siblings among the rows is in sort order.
pub open spec fn spec_siblings_in_order(rows: Seq<TreeEntryView>, order: Seq<String>, project_directory: Seq<char>) -> bool {
    forall|first: int, second: int|
        #![trigger rows[first], rows[second]]
        spec_neighbouring_siblings(rows, first, second) ==> spec_key_in_order(
            spec_row_sort_key(order, project_directory, rows[first]),
            spec_row_sort_key(order, project_directory, rows[second]),
        )
}

/// Whether each index of a list has a key that may stand before the next one's.
pub open spec fn spec_indices_in_key_order(keys: Seq<(usize, bool, Seq<char>)>, indices: Seq<int>) -> bool {
    forall|k: int| 0 <= k < indices.len() - 1 ==> spec_key_in_order(keys[#[trigger] indices[k]], keys[indices[k + 1]])
}

proof fn lemma_text_less_asymmetric(left: Seq<char>, right: Seq<char>)
    ensures
        spec_text_less(left, right) ==> !spec_text_less(right, left),
    decreases left.len(),
{
    if left.len() > 0 && right.len() > 0 && left[0] == right[0] {
        lemma_text_less_asymmetric(left.drop_first(), right.drop_first());
    }
}

proof fn lemma_key_less_orders(first: (usize, bool, Seq<char>), second: (usize, bool, Seq<char>))
    ensures
        spec_key_less(first, second) ==> spec_key_in_order(first, second),
        !spec_key_less(first, second) ==> spec_key_in_order(second, first),
{
    lemma_text_less_asymmetric(first.2, second.2);
}

proof fn lemma_insert_sorted_in_key_order(keys: Seq<(usize, bool, Seq<char>)>, sorted: Seq<int>, index: int)
    requires
        spec_indices_in_key_order(keys, sorted),
    ensures
        spec_indices_in_key_order(keys, spec_insert_sorted(keys, sorted, index)),
        spec_insert_sorted(keys, sorted, index).len() == sorted.len() + 1,
        spec_insert_sorted(keys, sorted, index)[0] == index || (sorted.len() > 0 && spec_insert_sorted(keys, sorted, index)[0]
            == sorted[0]),
    decreases sorted.len(),
{
    let result = spec_insert_sorted(keys, sorted, index);
    if sorted.len() == 0 {
    } else if spec_key_less(keys[index], keys[sorted[0]]) {
        lemma_key_less_orders(keys[index], keys[sorted[0]]);
        assert forall|k: int| 0 <= k < result.len() - 1 implies spec_key_in_order(keys[#[trigger] result[k]], keys[result[k + 1]]) by {
            if k > 0 {
                assert(result[k] == sorted[k - 1]);
                assert(result[k + 1] == sorted[k]);
            }
        }
    } else {
        lemma_key_less_orders(keys[index], keys[sorted[0]]);
        let rest = sorted.drop_first();
        assert forall|k: int| 0 <= k < rest.len() - 1 implies spec_key_in_order(keys[#[trigger] rest[k]], keys[rest[k + 1]]) by {
            assert(rest[k] == sorted[k + 1]);
            assert(rest[k + 1] == sorted[k + 2]);
        }
        lemma_insert_sorted_in_key_order(keys, rest, index);
        let inserted = spec_insert_sorted(keys, rest, index);
        assert(result == seq![sorted[0]] + inserted);
        assert forall|k: int| 0 <= k < result.len() - 1 implies spec_key_in_order(keys[#[trigger] result[k]], keys[result[k + 1]]) by {
            if k == 0 {
                assert(result[0] == sorted[0]);
                assert(result[1] == inserted[0]);
                if inserted[0] != index {
                    assert(inserted[0] == rest[0]);
                    assert(rest[0] == sorted[1]);
                    assert(spec_key_in_order(keys[sorted[0]], keys[sorted[1]]));
                }
            } else {
                assert(result[k] == inserted[k - 1]);
                assert(result[k + 1] == inserted[k]);
            }
        }
    }
}

proof fn lemma_sorted_indices_in_key_order(keys: Seq<(usize, bool, Seq<char>)>, indices: Seq<int>)
    ensures
        spec_indices_in_key_order(keys, spec_sorted_indices(keys, indices)),
    decreases indices.len(),
{
    if indices.len() > 0 {
        lemma_sorted_indices_in_key_order(keys, indices.drop_last());
        lemma_insert_sorted_in_key_order(keys, spec_sorted_indices(keys, indices.drop_last()), indices.last());
    }
}

proof fn lemma_joined_rows_siblings_in_order(
    entry: TreeEntryView,
    nested: Seq<TreeEntryView>,
    rest: Seq<TreeEntryView>,
    depth: nat,
    order: Seq<String>,
    project_directory: Seq<char>,
)
    requires
        entry.depth == depth,
        forall|k: int| 0 <= k < nested.len() ==> (#[trigger] nested[k]).depth >= depth + 1,
        spec_siblings_in_order(nested, order, project_directory),
        spec_siblings_in_order(rest, order, project_directory),
        rest.len() > 0 ==> rest[0].depth == depth && spec_key_in_order(
            spec_row_sort_key(order, project_directory, entry),
            spec_row_sort_key(order, project_directory, rest[0]),
        ),
    ensures
        spec_siblings_in_order(seq![entry] + nested + rest, order, project_directory),
{
    let rows = seq![entry] + nested + rest;
    let offset = (1 + nested.len()) as int;
    assert forall|a: int, b: int|
        #![trigger rows[a], rows[b]]
        spec_neighbouring_siblings(rows, a, b) implies spec_key_in_order(
            spec_row_sort_key(order, project_directory, rows[a]),
            spec_row_sort_key(order, project_directory, rows[b]),
        ) by {
        if a == 0 {
            assert(rows[0] == entry);
            if b < offset {
                assert(rows[b] == nested[b - 1]);
            } else {
                let r = b - offset;
                assert(rows[b] == rest[r]);
                if r > 0 {
                    assert(rows[offset] == rest[0]);
                    assert(a < offset < b);
                    assert(rows[offset].depth > rows[a].depth);
                }
            }
        } else if a < offset {
            assert(rows[a] == nested[a - 1]);
            if b < offset {
                assert(rows[b] == nested[b - 1]);
                assert forall|between: int| a - 1 < between < b - 1 implies (#[trigger] nested[between]).depth > nested[a - 1].depth by {
                    assert(rows[between + 1] == nested[between]);
                    assert(a < between + 1 < b);
                }
                assert(spec_neighbouring_siblings(nested, a - 1, b - 1));
            } else {
                let r = b - offset;
                assert(rows[b] == rest[r]);
                assert(rows[offset] == rest[0]);
                if r > 0 {
                    assert(a < offset < b);
                    assert(rows[offset].depth > rows[a].depth);
                }
            }
        } else {
            assert(rows[a] == rest[a - offset]);
            assert(rows[b] == rest[b - offset]);
            assert forall|between: int| a - offset < between < b - offset implies (#[trigger] rest[between]).depth
                > rest[a - offset].depth by {
                assert(rows[between + offset] == rest[between]);
                assert(a < between + offset < b);
            }
            assert(spec_neighbouring_siblings(rest, a - offset, b - offset));
        }
    }
}

proof fn lemma_visible_rows_siblings_in_order(
    items: Seq<HierarchyItem>,
    keys: Seq<(usize, bool, Seq<char>)>,
    order: Seq<String>,
    expanded: Seq<String>,
    project_directory: Seq<char>,
    children: Seq<int>,
    parent: Seq<char>,
    depth: nat,
    budget: nat,
)
    requires
        spec_all_children_of(items, children, parent, project_directory),
        spec_indices_in_key_order(keys, children),
        forall|index: int| 0 <= index < items.len() ==> #[trigger] keys[index] == spec_sort_key(items, order, project_directory, index),
    ensures
        spec_siblings_in_order(
            spec_visible_rows(items, keys, expanded, project_directory, children, depth, budget),
            order,
            project_directory,
        ),
    decreases budget, children.len(),
{
    let rows = spec_visible_rows(items, keys, expanded, project_directory, children, depth, budget);
    if children.len() > 0 {
        let first = children[0];
        let path = items[first].path@;
        let entry = spec_entry_view(items, expanded, project_directory, first, depth);
        let opens = entry.is_directory && entry.is_expanded && budget > 0;
        let grandchildren = spec_sorted_children(items, keys, path, project_directory);
        let nested = if opens {
            spec_visible_rows(items, keys, expanded, project_directory, grandchildren, depth + 1, (budget - 1) as nat)
        } else {
            Seq::empty()
        };
        let rest_children = children.drop_first();
        let rest = spec_visible_rows(items, keys, expanded, project_directory, rest_children, depth, budget);
        assert(rows == seq![entry] + nested + rest);
        assert(spec_row_sort_key(order, project_directory, entry) == keys[first]);
        if opens {
            lemma_sorted_children_are_children(items, keys, path, project_directory);
            lemma_sorted_indices_in_key_order(keys, spec_child_indices(items, path, project_directory, items.len() as int));
            lemma_visible_rows_hang_from(items, keys, expanded, project_directory, grandchildren, path, depth + 1, (budget - 1) as nat);
            lemma_visible_rows_siblings_in_order(
                items,
                keys,
                order,
                expanded,
                project_directory,
                grandchildren,
                path,
                depth + 1,
                (budget - 1) as nat,
            );
        }
        assert forall|k: int| 0 <= k < rest_children.len() implies 0 <= #[trigger] rest_children[k] < items.len() && spec_is_child_of(
            items,
            rest_children[k],
            parent,
            project_directory,
        ) by {
            assert(rest_children[k] == children[k + 1]);
        }
        assert forall|k: int| 0 <= k < rest_children.len() - 1 implies spec_key_in_order(
            keys[#[trigger] rest_children[k]],
            keys[rest_children[k + 1]],
        ) by {
            assert(rest_children[k] == children[k + 1]);
            assert(rest_children[k + 1] == children[k + 2]);
        }
        lemma_visible_rows_siblings_in_order(items, keys, order, expanded, project_directory, rest_children, parent, depth, budget);
        if rest_children.len() > 0 {
            let second = rest_children[0];
            let second_entry = spec_entry_view(items, expanded, project_directory, second, depth);
            assert(rest[0] == second_entry);
            assert(second == children[1]);
            assert(spec_key_in_order(keys[children[0]], keys[children[1]]));
            assert(spec_row_sort_key(order, project_directory, second_entry) == keys[second]);
        }
        lemma_joined_rows_siblings_in_order(entry, nested, rest, depth, order, project_directory);
    }
}

/// Siblings in the hierarchy's rows come in sort order: of two neighbouring rows of the same
/// directory (the same depth, with only deeper rows between), the first has the earlier place
/// in the project's sort order; at the same place a directory comes before an item that is not
/// one; and at the same place and of the same kind, the first's displayed name is not greater,
/// comparing characters by their code.
pub proof fn lemma_tree_siblings_in_sort_order(
    project_directory: Option<String>,
    items: Seq<HierarchyItem>,
    order: Seq<String>,
    expanded: Seq<String>,
)
    ensures
        project_directory matches Some(directory) ==> spec_siblings_in_order(
            spec_tree_entries(project_directory, items, order, expanded),
            order,
            directory@,
        ),
{
    match project_directory {
        Some(directory) => {
            let keys = Seq::new(items.len(), |index: int| spec_sort_key(items, order, directory@, index));
            lemma_sorted_children_are_children(items, keys, directory@, directory@);
            lemma_sorted_indices_in_key_order(keys, spec_child_indices(items, directory@, directory@, items.len() as int));
            lemma_visible_rows_siblings_in_order(
                items,
                keys,
                order,
                expanded,
                directory@,
                spec_sorted_children(items, keys, directory@, directory@),
                directory@,
                0,
                items.len(),
            );
        },
        None => {},
    }
}

proof fn lemma_visible_rows_expansion_flags(
    items: Seq<HierarchyItem>,
    keys: Seq<(usize, bool, Seq<char>)>,
    expanded: Seq<String>,
    project_directory: Seq<char>,
    children: Seq<int>,
    depth: nat,
    budget: nat,
)
    ensures
        forall|k: int|
            0 <= k < spec_visible_rows(items, keys, expanded, project_directory, children, depth, budget).len() ==> (#[trigger] spec_visible_rows(
                items,
                keys,
                expanded,
                project_directory,
                children,
                depth,
                budget,
            )[k]).is_expanded == spec_contains_text(
                expanded,
                spec_visible_rows(items, keys, expanded, project_directory, children, depth, budget)[k].project_item_path,
            ),
    decreases budget, children.len(),
{
    let rows = spec_visible_rows(items, keys, expanded, project_directory, children, depth, budget);
    if children.len() > 0 {
        let first = children[0];
        let entry = spec_entry_view(items, expanded, project_directory, first, depth);
        let opens = entry.is_directory && entry.is_expanded && budget > 0;
        let grandchildren = spec_sorted_children(items, keys, items[first].path@, project_directory);
        let nested = if opens {
            spec_visible_rows(items, keys, expanded, project_directory, grandchildren, depth + 1, (budget - 1) as nat)
        } else {
            Seq::empty()
        };
        let rest = spec_visible_rows(items, keys, expanded, project_directory, children.drop_first(), depth, budget);
        assert(rows == seq![entry] + nested + rest);
        if opens {
            lemma_visible_rows_expansion_flags(items, keys, expanded, project_directory, grandchildren, depth + 1, (budget - 1) as nat);
        }
        lemma_visible_rows_expansion_flags(items, keys, expanded, project_directory, children.drop_first(), depth, budget);
        assert forall|k: int| 0 <= k < rows.len() implies (#[trigger] rows[k]).is_expanded == spec_contains_text(
            expanded,
            rows[k].project_item_path,
        ) by {
            if k == 0 {
                assert(rows[0] == entry);
            } else if k < 1 + nested.len() {
                assert(rows[k] == nested[k - 1]);
            } else {
                assert(rows[k] == rest[k - 1 - nested.len()]);
            }
        }
    }
}

/// The hierarchy's rows form a tree under the project directory: the project directory
/// itself is never a row, every top-level row sits directly in the project directory, and
/// every deeper row comes after the row of the directory it sits in, one level shallower,
/// which is an expanded directory. So children are listed only under expanded directories,
/// each one level deeper than its parent. A row is marked expanded exactly when its path is
/// among the expanded directories.
pub proof fn lemma_tree_entries_hang_from_expanded_directories(
    project_directory: Option<String>,
    items: Seq<HierarchyItem>,
    order: Seq<String>,
    expanded: Seq<String>,
)
    ensures
        project_directory matches Some(directory) ==> spec_rows_hang_from(
            spec_tree_entries(project_directory, items, order, expanded),
            0,
            directory@,
            directory@,
        ),
        project_directory is None ==> spec_tree_entries(project_directory, items, order, expanded).len() == 0,
        forall|k: int|
            0 <= k < spec_tree_entries(project_directory, items, order, expanded).len() ==> (#[trigger] spec_tree_entries(
                project_directory,
                items,
                order,
                expanded,
            )[k]).is_expanded == spec_contains_text(
                expanded,
                spec_tree_entries(project_directory, items, order, expanded)[k].project_item_path,
            ),
{
    match project_directory {
        Some(directory) => {
            let keys = Seq::new(items.len(), |index: int| spec_sort_key(items, order, directory@, index));
            lemma_sorted_children_are_children(items, keys, directory@, directory@);
            lemma_visible_rows_hang_from(
                items,
                keys,
                expanded,
                directory@,
                spec_sorted_children(items, keys, directory@, directory@),
                directory@,
                0,
                items.len(),
            );
            lemma_visible_rows_expansion_flags(
                items,
                keys,
                expanded,
                directory@,
                spec_sorted_children(items, keys, directory@, directory@),
                0,
                items.len(),
            );
        },
        None => {},
    }
}

} // verus!
