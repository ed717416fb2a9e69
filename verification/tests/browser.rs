use prompt_catalog::browser::{
    NameFor, build_catalog_entries, compute_filtered, contains_str, sat_u16, truncate_to_width,
    PromptsModalMode, PromptsModalState, PromptsTab,
};
use prompt_catalog::catalog::PromptId;
use prompt_catalog::keys::{InputOutcome, KeyCode, KeyInput, LineEditOutcome};
use prompt_catalog::model::PresetWriteMode;
use prompt_catalog::ops::{
    activate_session, has_override, resolve_body, save_override, save_preset, set_preset_description,
};
use prompt_catalog::store::CatalogStore;
use prompt_catalog::templates::COMPACT_SYSTEM_PROMPT;

fn home_store() -> CatalogStore {
    CatalogStore::new(Some("/home/user/.grok".to_string()))
}

fn key(code: KeyCode) -> KeyInput {
    KeyInput { code, control: false, other_modifiers: false, release: false }
}

fn ctrl(c: char) -> KeyInput {
    KeyInput { code: KeyCode::Char(c), control: true, other_modifiers: false, release: false }
}

#[test]
fn new_state_has_session_and_subagent_sections() {
    let store = home_store();
    let state = PromptsModalState::new(&store);
    assert!(state.entries.iter().any(|e| e.is_header && e.label == "Session"));
    assert!(state.entries.iter().any(|e| e.is_header && e.label == "Subagents"));
    assert!(state.entries.iter().any(|e| e.id == Some(PromptId::BaseSystem)));
    assert!(state.selected_entry().is_some());
    assert!(state.preview.is_some());
    assert_eq!(state.tab, PromptsTab::Catalog);
}

#[test]
fn filter_narrows_list() {
    let store = home_store();
    let mut state = PromptsModalState::new(&store);
    state.query = "explore".to_string();
    state.invalidate_filter();
    state.clamp_selected(&store);
    let ids: Vec<_> = state
        .filtered_cache
        .iter()
        .filter_map(|&i| state.entries[i].id)
        .collect();
    assert_eq!(ids, vec![PromptId::SubagentExplore]);
}

#[test]
fn begin_edit_loads_body() {
    let store = home_store();
    let mut state = PromptsModalState::new(&store);
    state.begin_edit(&store, PromptId::CompactSystem);
    match &state.mode {
        PromptsModalMode::Editing { id, dirty, original } => {
            assert_eq!(*id, PromptId::CompactSystem);
            assert!(!dirty);
            assert!(!original.is_empty());
        }
        _ => panic!("expected Editing mode"),
    }
}

#[test]
fn switch_tab_to_presets() {
    let store = home_store();
    let mut state = PromptsModalState::new(&store);
    state.switch_tab(&store, PromptsTab::Presets);
    assert_eq!(state.tab, PromptsTab::Presets);
}

#[test]
fn catalog_rows_group_prompts_under_headers() {
    let store = home_store();
    let rows = build_catalog_entries(&store);
    let labels: Vec<&str> = rows.iter().map(|r| r.label.as_str()).collect();
    assert_eq!(
        labels,
        vec![
            "Session",
            "Base system",
            "Subagent shell",
            "Apply-patch",
            "Compact system",
            "Subagents",
            "general-purpose",
            "explore",
            "plan"
        ]
    );
    assert!(rows.iter().filter(|r| !r.is_header).all(|r| r.meta_display == "default"));
}

#[test]
fn overridden_rows_are_marked_modified() {
    let mut store = home_store();
    save_override(&mut store, PromptId::SubagentPlan, "plan carefully").unwrap();
    let rows = build_catalog_entries(&store);
    let plan = rows.iter().find(|r| r.id == Some(PromptId::SubagentPlan)).unwrap();
    assert!(plan.is_override);
    assert_eq!(plan.meta_display, "modified");
}

#[test]
fn filter_matches_title_file_name_and_description() {
    let store = home_store();
    let rows = build_catalog_entries(&store);
    // Empty query: every row.
    assert_eq!(compute_filtered(&rows, ""), (0..rows.len()).collect::<Vec<_>>());
    // Case-insensitive title match keeps the header of its category.
    assert_eq!(compute_filtered(&rows, "COMPACT"), vec![0, 4]);
    // File name match.
    assert_eq!(compute_filtered(&rows, "apply-patch"), vec![0, 3]);
    // Description match ("read-only" appears in explore and plan).
    assert_eq!(compute_filtered(&rows, "read-only"), vec![5, 7, 8]);
    // No match at all.
    assert!(compute_filtered(&rows, "zzz-nothing").is_empty());
}

#[test]
fn substring_search() {
    assert!(contains_str("hello world", "o w"));
    assert!(contains_str("abc", ""));
    assert!(!contains_str("abc", "abcd"));
    assert!(!contains_str("abc", "ac"));
}

#[test]
fn text_fitting() {
    assert_eq!(sat_u16(12), 12);
    assert_eq!(sat_u16(70_000), u16::MAX);
    assert_eq!(truncate_to_width("hello", 10), "hello");
    assert_eq!(truncate_to_width("hello", 3), "hel");
    assert_eq!(truncate_to_width("日本語", 4), "日本");
}

#[test]
fn navigation_skips_headers() {
    let store = home_store();
    let mut state = PromptsModalState::new(&store);
    assert_eq!(state.selected, 1);
    for _ in 0..3 {
        state.select_next(&store);
    }
    assert_eq!(state.selected, 4);
    state.select_next(&store);
    assert_eq!(state.selected, 6, "the Subagents header is skipped");
    state.select_prev(&store);
    assert_eq!(state.selected, 4);
    assert!(!state.select_at(&store, 5), "headers cannot be selected");
    assert!(state.select_at(&store, 8));
    assert!(!state.advance_next());
    assert_eq!(state.selected_entry().unwrap().id, Some(PromptId::SubagentPlan));
}

#[test]
fn preview_describes_the_selection() {
    let store = home_store();
    let state = PromptsModalState::new(&store);
    let preview = state.preview.clone().unwrap();
    assert!(preview.starts_with("# Base system\n\n"));
    assert!(preview.contains("**Status:** default (built-in — updates with Grok Build)"));
    assert!(preview.ends_with("```\n"));
}

#[test]
fn keys_edit_and_save_an_override() {
    let mut store = home_store();
    let mut state = PromptsModalState::new(&store);
    // Move to "Compact system" and open the editor.
    for _ in 0..3 {
        state.handle_key(&mut store, &key(KeyCode::Down), "");
    }
    assert!(matches!(state.handle_key(&mut store, &key(KeyCode::Enter), ""), InputOutcome::Changed));
    match &state.mode {
        PromptsModalMode::Editing { id, .. } => assert_eq!(*id, PromptId::CompactSystem),
        _ => panic!("expected Editing"),
    }
    // Typing goes to the editor widget.
    assert!(matches!(state.handle_key(&mut store, &key(KeyCode::Char('x')), ""), InputOutcome::Forward));
    state.set_editor_text("a new body");
    assert!(matches!(&state.mode, PromptsModalMode::Editing { dirty: true, .. }));
    // Ctrl+S saves into the session's source.
    state.handle_key(&mut store, &ctrl('s'), "a new body");
    assert_eq!(state.status.as_deref(), Some("Saved compact-system"));
    assert!(matches!(state.mode, PromptsModalMode::Browse));
    assert_eq!(resolve_body(&store, PromptId::CompactSystem), "a new body");
    let row = state.selected_entry().unwrap();
    assert_eq!(row.id, Some(PromptId::CompactSystem));
    assert!(row.is_override);

    // `r` twice resets it.
    state.handle_key(&mut store, &key(KeyCode::Char('r')), "");
    assert!(matches!(state.mode, PromptsModalMode::ConfirmingReset { idx: 4 }));
    state.handle_key(&mut store, &key(KeyCode::Char('r')), "");
    assert_eq!(state.status.as_deref(), Some("Reset compact-system"));
    assert!(!has_override(&store, PromptId::CompactSystem));
    assert_eq!(resolve_body(&store, PromptId::CompactSystem), COMPACT_SYSTEM_PROMPT);
}

#[test]
fn escape_cancels_an_edit() {
    let mut store = home_store();
    let mut state = PromptsModalState::new(&store);
    state.handle_key(&mut store, &key(KeyCode::Char('e')), "");
    state.handle_key(&mut store, &key(KeyCode::Esc), "");
    assert!(matches!(state.mode, PromptsModalMode::Browse));
    assert_eq!(state.status.as_deref(), Some("Edit cancelled"));
}

#[test]
fn naming_a_preset_saves_it_and_shows_the_presets_tab() {
    let mut store = home_store();
    activate_session(&mut store, "s-1").unwrap();
    save_override(&mut store, PromptId::CompactSystem, "x").unwrap();
    let mut state = PromptsModalState::new(&store);
    state.handle_key(&mut store, &key(KeyCode::Char('n')), "");
    match &state.mode {
        PromptsModalMode::NamingPreset { purpose: NameFor::New, suggestion, error: None } => {
            assert_eq!(suggestion, "preset", "the field starts on a free name")
        }
        _ => panic!("expected the name field"),
    }
    state.handle_key(&mut store, &key(KeyCode::Enter), "  mine  ");
    assert_eq!(state.status.as_deref(), Some("Preset `mine` saved"));
    assert_eq!(state.tab, PromptsTab::Presets);
    assert_eq!(state.presets.len(), 1);
    assert_eq!(state.active_preset.as_deref(), Some("mine"));

    // Saving under a name that is taken asks first; `Esc` keeps the preset.
    state.handle_key(&mut store, &key(KeyCode::Char('n')), "");
    state.handle_key(&mut store, &key(KeyCode::Enter), "mine");
    assert!(matches!(&state.mode, PromptsModalMode::ConfirmingOverwrite { preset } if preset == "mine"));
    assert_eq!(state.build_shortcuts(), vec!["o replace", "Esc keep"]);
    state.handle_key(&mut store, &key(KeyCode::Esc), "");
    assert!(matches!(state.mode, PromptsModalMode::Browse));

    // `o` replaces it.
    save_override(&mut store, PromptId::CompactSystem, "y").unwrap();
    state.handle_key(&mut store, &key(KeyCode::Char('n')), "");
    state.handle_key(&mut store, &key(KeyCode::Enter), "mine");
    state.handle_key(&mut store, &key(KeyCode::Char('o')), "");
    assert_eq!(state.status.as_deref(), Some("Preset `mine` saved"));
    assert_eq!(resolve_body(&store, PromptId::CompactSystem), "y");

    // A name the validator refuses is reported in the field.
    state.handle_key(&mut store, &key(KeyCode::Char('n')), "");
    state.handle_key(&mut store, &key(KeyCode::Enter), "no good");
    match &state.mode {
        PromptsModalMode::NamingPreset { error: Some(e), .. } => {
            assert_eq!(e, "invalid preset name: no good")
        }
        _ => panic!("expected a naming error"),
    }
}

#[test]
fn defaults_from_the_presets_tab_ask_first_and_delete_nothing() {
    let mut store = home_store();
    activate_session(&mut store, "s-1").unwrap();
    save_override(&mut store, PromptId::CompactSystem, "kept").unwrap();
    save_preset(&mut store, "keep", PresetWriteMode::Create).unwrap();
    let mut state = PromptsModalState::new(&store);
    state.handle_key(&mut store, &key(KeyCode::Tab), "");
    state.handle_key(&mut store, &key(KeyCode::Char('c')), "");
    assert!(matches!(state.mode, PromptsModalMode::ConfirmingDefaults));
    state.handle_key(&mut store, &key(KeyCode::Char('c')), "");
    assert_eq!(
        state.status.as_deref(),
        Some("This session now runs on the built-in prompts. Presets are untouched.")
    );
    assert_eq!(resolve_body(&store, PromptId::CompactSystem), COMPACT_SYSTEM_PROMPT);
    assert_eq!(state.presets.len(), 1);
    assert_eq!(store.preset("keep").unwrap().files[PromptId::CompactSystem.index()].as_deref(), Some("kept"));
}

#[test]
fn presets_tab_applies_and_deletes() {
    let mut store = home_store();
    activate_session(&mut store, "s-1").unwrap();
    save_override(&mut store, PromptId::CompactSystem, "p").unwrap();
    save_preset(&mut store, "one", PresetWriteMode::Create).unwrap();
    let mut state = PromptsModalState::new(&store);
    state.handle_key(&mut store, &key(KeyCode::Tab), "");
    assert_eq!(state.tab, PromptsTab::Presets);
    assert_eq!(state.selected_preset_name().as_deref(), Some("one"));
    state.handle_key(&mut store, &key(KeyCode::Enter), "");
    assert_eq!(state.status.as_deref(), Some("Applied preset `one`"));
    state.handle_key(&mut store, &key(KeyCode::Char('d')), "");
    assert!(matches!(&state.mode, PromptsModalMode::ConfirmingDeletePreset { name } if name == "one"));
    state.handle_key(&mut store, &key(KeyCode::Char('d')), "");
    assert_eq!(state.status.as_deref(), Some("Deleted preset `one`"));
    assert!(state.presets.is_empty());
    assert_eq!(
        state.preview.as_deref().map(|p| p.starts_with("# Presets\n\nNo presets yet.")),
        Some(true)
    );
}

#[test]
fn filter_mode_hands_keys_to_the_field() {
    let mut store = home_store();
    let mut state = PromptsModalState::new(&store);
    state.handle_key(&mut store, &key(KeyCode::Char('/')), "");
    assert!(matches!(state.mode, PromptsModalMode::FilterFocused));
    assert!(matches!(state.handle_key(&mut store, &key(KeyCode::Char('p')), ""), InputOutcome::Forward));
    state.finish_filter_edit(&store, LineEditOutcome::TextChanged, "plan");
    assert_eq!(state.query(), "plan");
    assert_eq!(state.filtered_cache, vec![5, 8]);
    assert_eq!(state.selected, 1);
    state.handle_key(&mut store, &key(KeyCode::Esc), "");
    assert!(matches!(state.mode, PromptsModalMode::Browse));
}

#[test]
fn released_keys_and_fullscreen() {
    let mut store = home_store();
    let mut state = PromptsModalState::new(&store);
    let mut release = key(KeyCode::Down);
    release.release = true;
    assert!(matches!(state.handle_key(&mut store, &release, ""), InputOutcome::Unchanged));
    assert!(!state.fullscreen);
    state.handle_key(&mut store, &ctrl('f'), "");
    assert!(state.fullscreen);
    state.handle_key(&mut store, &key(KeyCode::Char('f')), "");
    assert!(!state.fullscreen);
}

#[test]
fn presets_can_be_renamed_and_duplicated_from_the_presets_tab() {
    let mut store = home_store();
    activate_session(&mut store, "s-1").unwrap();
    save_override(&mut store, PromptId::CompactSystem, "body").unwrap();
    save_preset(&mut store, "orig", PresetWriteMode::Create).unwrap();
    let mut state = PromptsModalState::new(&store);
    state.handle_key(&mut store, &key(KeyCode::Tab), "");

    state.handle_key(&mut store, &key(KeyCode::Char('y')), "");
    match &state.mode {
        PromptsModalMode::NamingPreset { purpose: NameFor::Duplicate(from), suggestion, .. } => {
            assert_eq!(from, "orig");
            assert_eq!(suggestion, "orig-2");
        }
        _ => panic!("expected the name field"),
    }
    state.handle_key(&mut store, &key(KeyCode::Enter), "orig-2");
    assert_eq!(state.status.as_deref(), Some("Duplicated preset `orig` as `orig-2`"));
    assert_eq!(state.presets.len(), 2);

    state.handle_key(&mut store, &KeyInput { code: KeyCode::Char('R'), control: false, other_modifiers: true, release: false }, "");
    match &state.mode {
        PromptsModalMode::NamingPreset { purpose: NameFor::Rename(from), suggestion, .. } => {
            assert_eq!(from, "orig");
            assert_eq!(suggestion, "orig");
        }
        _ => panic!("expected the name field"),
    }
    state.handle_key(&mut store, &key(KeyCode::Enter), "main");
    assert_eq!(state.status.as_deref(), Some("Renamed preset `orig` to `main`"));
    assert_eq!(state.active_preset.as_deref(), Some("main"));
    assert_eq!(resolve_body(&store, PromptId::CompactSystem), "body");

    // A refused name keeps the field open with the error.
    state.handle_key(&mut store, &key(KeyCode::Char('y')), "");
    state.handle_key(&mut store, &key(KeyCode::Enter), "main");
    match &state.mode {
        PromptsModalMode::NamingPreset { error: Some(e), .. } => assert_eq!(e, "preset already exists: main"),
        _ => panic!("expected the refusal"),
    }
}

#[test]
fn presets_filter_by_name_or_description() {
    let mut store = home_store();
    activate_session(&mut store, "s-1").unwrap();
    save_override(&mut store, PromptId::CompactSystem, "x").unwrap();
    for name in ["alpha", "beta", "gamma"] {
        save_preset(&mut store, name, PresetWriteMode::Create).unwrap();
    }
    set_preset_description(&mut store, "gamma", Some("For BETA testers")).unwrap();
    let mut state = PromptsModalState::new(&store);
    state.handle_key(&mut store, &key(KeyCode::Tab), "");
    assert_eq!(state.filtered_cache, vec![0, 1, 2]);

    state.handle_key(&mut store, &key(KeyCode::Char('/')), "");
    assert!(matches!(state.mode, PromptsModalMode::FilterFocused));
    assert_eq!(state.list_hint(), "type to filter...");
    state.finish_filter_edit(&store, LineEditOutcome::TextChanged, "Beta");
    assert_eq!(state.filtered_cache, vec![1, 2], "by name, and by description ignoring case");
    assert_eq!(state.selected_preset_name().as_deref(), Some("beta"));
    assert_eq!(state.list_hint(), "Beta");
    state.handle_key(&mut store, &key(KeyCode::Down), "");
    assert_eq!(state.selected_preset_name().as_deref(), Some("gamma"));
    assert!(state.preview.as_deref().unwrap().starts_with("# Preset `gamma`"));

    state.handle_key(&mut store, &key(KeyCode::Esc), "");
    state.handle_key(&mut store, &key(KeyCode::Enter), "");
    assert_eq!(state.status.as_deref(), Some("Applied preset `gamma`"));
    assert_eq!(state.filtered_cache, vec![1, 2], "the filter survives a refresh");
    assert_eq!(state.selected_preset_name().as_deref(), Some("gamma"));

    state.finish_filter_edit(&store, LineEditOutcome::TextChanged, "zzz");
    assert!(state.filtered_cache.is_empty());
    assert_eq!(state.selected_preset_name(), None);
    assert!(matches!(state.handle_key(&mut store, &key(KeyCode::Enter), ""), InputOutcome::Unchanged));

    // Back on the Catalog tab the filter starts empty again.
    state.handle_key(&mut store, &key(KeyCode::Tab), "");
    assert_eq!(state.query(), "");
}

#[test]
fn a_filter_with_no_matching_preset_says_so() {
    let mut store = home_store();
    activate_session(&mut store, "s-1").unwrap();
    save_preset(&mut store, "alpha", PresetWriteMode::Create).unwrap();
    let mut state = PromptsModalState::new(&store);
    state.switch_tab(&store, PromptsTab::Presets);
    state.query = "nothing".to_string();
    state.invalidate_filter();
    state.load_preview(&store);
    assert!(state.filtered_cache.is_empty());
    assert_eq!(
        state.preview.as_deref().map(|p| p.starts_with("# Presets\n\nNo preset matches the filter.")),
        Some(true)
    );
}

#[test]
fn saving_from_a_filtered_catalog_lands_on_every_preset() {
    let mut store = home_store();
    activate_session(&mut store, "s-1").unwrap();
    save_preset(&mut store, "alpha", PresetWriteMode::Create).unwrap();
    let mut state = PromptsModalState::new(&store);
    state.handle_key(&mut store, &key(KeyCode::Char('/')), "");
    state.finish_filter_edit(&store, LineEditOutcome::TextChanged, "plan");
    state.handle_key(&mut store, &key(KeyCode::Esc), "");
    state.handle_key(&mut store, &key(KeyCode::Char('n')), "");
    state.handle_key(&mut store, &key(KeyCode::Enter), "beta");
    assert_eq!(state.tab, PromptsTab::Presets);
    assert_eq!(state.query(), "");
    assert_eq!(state.filtered_cache, vec![0, 1]);
}
