use prompt_catalog::browser::{NameFor, PromptsModalMode, PromptsModalState, PromptsTab, Rect};
use prompt_catalog::catalog::PromptId;
use prompt_catalog::keys::{
    caret_for_column, InputOutcome, MouseInput, MouseKind, ScrollTarget, ScrollbarClick,
};
use prompt_catalog::layout::{editor_header, preset_row_label, preset_row_meta, row_label};
use prompt_catalog::model::PromptPresetInfo;
use prompt_catalog::model::PresetWriteMode;
use prompt_catalog::ops::{activate_session, save_preset, use_defaults_only};
use prompt_catalog::store::CatalogStore;
use prompt_catalog::keys::{KeyCode, KeyInput};

fn home_store() -> CatalogStore {
    CatalogStore::new(Some("/home/user/.grok".to_string()))
}

fn drawn(store: &CatalogStore) -> PromptsModalState {
    let mut state = PromptsModalState::new(store);
    state.list_area = Rect { x: 0, y: 0, width: 30, height: 20 };
    state.preview_area = Rect { x: 31, y: 0, width: 40, height: 10 };
    state.preview_total_lines = 25;
    state
}

#[test]
fn shortcuts_follow_the_mode() {
    let store = home_store();
    let mut state = PromptsModalState::new(&store);
    assert_eq!(
        state.build_shortcuts(),
        vec!["↑/↓ nav", "Enter edit", "r reset", "n save preset", "Tab presets", "Esc close"]
    );
    state.mode = PromptsModalMode::FilterFocused;
    assert_eq!(state.build_shortcuts(), vec!["type to filter", "Esc done"]);
    state.mode = PromptsModalMode::Browse;
    state.switch_tab(&store, PromptsTab::Presets);
    assert_eq!(state.build_shortcuts().last(), Some(&"Tab catalog"));
}

#[test]
fn list_hint_and_rows() {
    let store = home_store();
    let mut state = PromptsModalState::new(&store);
    assert_eq!(state.list_hint(), "/ to filter...");
    state.mode = PromptsModalMode::FilterFocused;
    assert_eq!(state.list_hint(), "type to filter...");
    state.switch_tab(&store, PromptsTab::Presets);
    assert_eq!(state.list_hint(), "Active: (custom / defaults)");

    assert_eq!(row_label("Compact system", 20), "Compact system");
    assert_eq!(row_label("Compact system", 10), "Compact...");
    let p = PromptPresetInfo {
        name: "work".to_string(),
        override_count: 3,
        is_active: true,
        description: None,
        updated: None,
    };
    assert_eq!(preset_row_label(&p), "work ●");
    assert_eq!(preset_row_meta(&p), "3 ov");
    assert_eq!(
        editor_header(PromptId::SubagentPlan, true),
        "Editing plan (modified) — Ctrl+S save · Esc cancel · Ctrl+E $EDITOR · click to place caret"
    );
}

#[test]
fn scrolling_keeps_the_selection_visible() {
    let store = home_store();
    let mut state = PromptsModalState::new(&store);
    state.selected = 8;
    state.scroll_offset = 0;
    state.keep_selection_visible(4);
    assert_eq!(state.scroll_offset, 5);
    state.selected = 2;
    state.keep_selection_visible(4);
    assert_eq!(state.scroll_offset, 2);
}

#[test]
fn clicks_select_rows_and_wheel_moves() {
    let store = home_store();
    let mut state = drawn(&store);
    // Row 1 of the list area is shown position 0 (a header): nothing happens.
    let click = |row| MouseInput { kind: MouseKind::LeftDown, column: 3, row };
    assert!(matches!(state.handle_mouse(&store, &click(1), ""), InputOutcome::Unchanged));
    assert!(matches!(state.handle_mouse(&store, &click(3), ""), InputOutcome::Changed));
    assert_eq!(state.selected, 2);
    let wheel = MouseInput { kind: MouseKind::ScrollDown, column: 3, row: 5 };
    state.handle_mouse(&store, &wheel, "");
    assert_eq!(state.selected, 6, "three rows down, skipping the header");
    let preview_wheel = MouseInput { kind: MouseKind::ScrollDown, column: 40, row: 5 };
    for _ in 0..10 {
        state.handle_mouse(&store, &preview_wheel, "");
    }
    assert_eq!(state.preview_scroll, 15, "the preview stops at its last page");
    let preview_up = MouseInput { kind: MouseKind::ScrollUp, column: 40, row: 5 };
    state.handle_mouse(&store, &preview_up, "");
    assert_eq!(state.preview_scroll, 12);
}

#[test]
fn scrollbars_are_left_to_the_application_to_map() {
    let store = home_store();
    let mut state = drawn(&store);
    state.list_scrollbar_area = Some(Rect { x: 29, y: 1, width: 1, height: 19 });
    let drag = MouseInput { kind: MouseKind::LeftDrag, column: 29, row: 10 };
    assert!(matches!(
        state.handle_mouse(&store, &drag, ""),
        InputOutcome::ScrollbarHit(ScrollTarget::List)
    ));
    assert_eq!(state.scrollbar_extent(ScrollTarget::List), (9, 19));
    assert_eq!(state.scrollbar_extent(ScrollTarget::Preview), (25, 10));
    state.apply_scrollbar_jump(ScrollTarget::Preview, ScrollbarClick::Bottom);
    assert_eq!(state.preview_scroll, 15);
    state.apply_scrollbar_jump(ScrollTarget::Preview, ScrollbarClick::Offset(99));
    assert_eq!(state.preview_scroll, 15);
    state.apply_scrollbar_jump(ScrollTarget::Preview, ScrollbarClick::Top);
    assert_eq!(state.preview_scroll, 0);
}

#[test]
fn clicking_the_name_field_places_the_caret() {
    let store = home_store();
    let mut state = drawn(&store);
    state.mode = PromptsModalMode::NamingPreset {
        purpose: NameFor::New,
        suggestion: "hello".to_string(),
        error: None,
    };
    state.edit_area = Some(Rect { x: 6, y: 2, width: 20, height: 1 });
    let click = MouseInput { kind: MouseKind::LeftDown, column: 9, row: 2 };
    assert!(matches!(state.handle_mouse(&store, &click, "hello"), InputOutcome::PlaceCaret(3)));
    assert_eq!(caret_for_column("日本", 3), 1);
    assert_eq!(caret_for_column("ab", 10), 2);
}

#[test]
fn status_line_always_names_the_source() {
    let mut store = home_store();
    activate_session(&mut store, "s-1").unwrap();
    let mut state = PromptsModalState::new(&store);
    assert_eq!(state.status_line(&store), "Source: unnamed overrides");

    save_preset(&mut store, "one", PresetWriteMode::Create).unwrap();
    state.refresh(&store);
    state.handle_key(&mut store, &KeyInput { code: KeyCode::Tab, control: false, other_modifiers: false, release: false }, "");
    state.handle_key(&mut store, &KeyInput { code: KeyCode::Enter, control: false, other_modifiers: false, release: false }, "");
    assert_eq!(state.status_line(&store), "Applied preset `one` · Source: one");

    use_defaults_only(&mut store).unwrap();
    state.status = None;
    assert_eq!(state.status_line(&store), "Source: built-in defaults");
}

#[test]
fn mouse_click_moves_editor_caret() {
    let store = home_store();
    let mut state = PromptsModalState::new(&store);
    state.begin_edit(&store, PromptId::CompactSystem);
    state.place_editor(Rect { x: 0, y: 0, width: 80, height: 24 }, Some((0, 1)));
    let edit = state.edit_area.expect("edit_area once laid out");
    assert_eq!(edit, Rect { x: 0, y: 1, width: 80, height: 23 });
    assert_eq!(state.caret(), Some((0, 1)));
    // A click on the typing surface goes to the editor, which places the caret.
    let click = MouseInput { kind: MouseKind::LeftDown, column: edit.x + 5, row: edit.y };
    assert!(matches!(state.handle_mouse(&store, &click, ""), InputOutcome::Forward));
    // Too little room leaves no surface and no caret.
    state.place_editor(Rect { x: 0, y: 0, width: 80, height: 1 }, Some((0, 1)));
    assert_eq!(state.edit_area, None);
    assert_eq!(state.caret(), None);
}

#[test]
fn list_layout_scrolls_and_makes_room_for_a_scrollbar() {
    let store = home_store();
    let mut state = PromptsModalState::new(&store);
    let area = Rect { x: 2, y: 3, width: 30, height: 5 };
    assert_eq!(state.place_list(area), 28);
    assert_eq!(state.list_area, area);
    assert_eq!(state.list_scrollbar_area, Some(Rect { x: 31, y: 4, width: 1, height: 4 }));
    assert_eq!(state.scroll_offset, 0);
    assert_eq!(state.shown_range(4), (0, 4));

    state.selected = 8;
    state.place_list(area);
    assert_eq!(state.scroll_offset, 5, "the last row stays in view");
    assert_eq!(state.shown_range(4), (5, 9));

    // Everything fits: no scrollbar, the whole width for the rows.
    let tall = Rect { x: 0, y: 0, width: 30, height: 20 };
    assert_eq!(state.place_list(tall), 30);
    assert_eq!(state.list_scrollbar_area, None);
    assert_eq!(state.shown_range(19), (5, 9));
}

#[test]
fn name_field_layout_and_caret() {
    let store = home_store();
    let mut state = PromptsModalState::new(&store);
    state.place_name_field(Rect { x: 4, y: 1, width: 26, height: 6 }, 3);
    assert_eq!(state.edit_area, Some(Rect { x: 10, y: 3, width: 20, height: 1 }));
    assert_eq!(state.caret(), Some((13, 3)));
    state.place_name_field(Rect { x: 4, y: 1, width: 26, height: 6 }, 50);
    assert_eq!(state.caret(), Some((29, 3)), "kept on the field's last cell");
    state.place_name_field(Rect { x: 0, y: 0, width: 3, height: 6 }, 0);
    assert_eq!(state.edit_area, Some(Rect { x: 6, y: 2, width: 1, height: 1 }));
}
