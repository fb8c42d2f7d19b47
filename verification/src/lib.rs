//! Keyboard-driven terminal front end state for a memory scanner: pane layout,
//! focus and visibility rules, the per-pane state machines and summaries, the key
//! bindings, the engine request workflows as begin and finish steps, struct field edit
//! planning, and the rows of the project hierarchy.
pub mod pane;
pub mod text;
pub mod pane_layout;
pub mod viewport;
pub mod pane_entry_row;
pub mod output;
pub mod selection;
pub mod process_selector;
pub mod scan_results;
pub mod element_scanner;
pub mod settings;
pub mod paths;
pub mod project_explorer;
pub mod struct_viewer;
pub mod workspace_page;
pub mod app_state;
pub mod theme;
pub mod session;
pub mod key_routing;
pub mod pane_keys;
pub mod rendering;
pub mod engine_requests;
pub mod project_requests;
pub mod settings_requests;
pub mod scan_result_requests;
pub mod project_item_requests;
pub mod struct_edits;
pub mod project_hierarchy;
