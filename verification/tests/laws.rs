use prompt_catalog::catalog::PromptId;
use prompt_catalog::model::{PresetWriteMode, PromptSource};
use prompt_catalog::ops::{
    activate_session_at, apply_preset_at, delete_preset, duplicate_preset_at, effective_prompt,
    rename_preset_at, resolve_body, save_override_at, save_preset_at, set_session_source_at,
    deactivate_session, source_for_session, suggest_preset_name,
};
use prompt_catalog::restore::{restore_marker, restore_scratch_file};
use prompt_catalog::store::CatalogStore;

fn home_store() -> CatalogStore {
    CatalogStore::new(Some("/home/user/.grok".to_string()))
}

#[test]
fn read_after_write_and_default_clearing() {
    let mut store = home_store();
    let id = PromptId::SubagentGeneralPurpose;
    save_override_at(&mut store, id, "  be brief  ", "t1").unwrap();
    let ep = effective_prompt(&store, id).unwrap();
    assert!(ep.is_override);
    assert_eq!(ep.body, "  be brief  ");
    let default = prompt_catalog::catalog::default_body(id);
    save_override_at(&mut store, id, &format!("\n{}\n\n", default.trim()), "t2").unwrap();
    assert!(!effective_prompt(&store, id).unwrap().is_override);
    assert_eq!(resolve_body(&store, id), default);
}

#[test]
fn bindings_are_pruned_to_the_newest() {
    let mut store = home_store();
    for i in 0..300usize {
        let sid = format!("s-{i:03}");
        activate_session_at(&mut store, &sid, "t0").unwrap();
        let stamp = format!("2024-01-01T00:{:02}:{:02}Z", i / 60, i % 60);
        set_session_source_at(&mut store, PromptSource::Scratch, &stamp).unwrap();
    }
    let bindings = store.binding_entries();
    assert_eq!(bindings.len(), 256);
    // The oldest 44 were dropped.
    assert!(bindings.iter().all(|(k, _)| k.as_str() >= "s-044"));
}

#[test]
fn other_sessions_keep_their_bindings() {
    let mut store = home_store();
    activate_session_at(&mut store, "a", "t").unwrap();
    save_override_at(&mut store, PromptId::ApplyPatch, "a-body", "t").unwrap();
    save_preset_at(&mut store, "pa", PresetWriteMode::Create, "t").unwrap();
    activate_session_at(&mut store, "b", "t").unwrap();
    save_preset_at(&mut store, "pb", PresetWriteMode::Create, "t").unwrap();
    apply_preset_at(&mut store, "pb", "t").unwrap();
    assert_eq!(source_for_session(&store, Some("a")), PromptSource::Preset("pa".into()));
    assert_eq!(source_for_session(&store, Some("b")), PromptSource::Preset("pb".into()));
    // A session with no binding starts on the last preset applied.
    assert_eq!(source_for_session(&store, Some("new")), PromptSource::Preset("pb".into()));
}

#[test]
fn deleting_forgets_bindings_and_marker() {
    let mut store = home_store();
    activate_session_at(&mut store, "a", "t").unwrap();
    save_preset_at(&mut store, "gone", PresetWriteMode::Create, "t").unwrap();
    delete_preset(&mut store, "gone").unwrap();
    assert!(store.binding_entries().iter().all(|(_, b)| b.source != PromptSource::Preset("gone".into())));
    assert!(store.marker().is_none());
    assert_eq!(source_for_session(&store, Some("a")), PromptSource::Scratch);
}

#[test]
fn rename_moves_marker_and_bindings() {
    let mut store = home_store();
    activate_session_at(&mut store, "a", "t").unwrap();
    save_preset_at(&mut store, "old", PresetWriteMode::Create, "t").unwrap();
    rename_preset_at(&mut store, "old", "new", "t2").unwrap();
    assert_eq!(store.marker().as_deref(), Some("new\n"));
    let (_, b) = &store.binding_entries()[0];
    assert_eq!(b.source, PromptSource::Preset("new".into()));
    assert_eq!(b.updated, "t2");
    assert!(rename_preset_at(&mut store, "new", "new", "t3").is_ok());
}

#[test]
fn duplicate_leaves_the_session_alone() {
    let mut store = home_store();
    activate_session_at(&mut store, "a", "t").unwrap();
    save_override_at(&mut store, PromptId::BaseSystem, "mine", "t").unwrap();
    save_preset_at(&mut store, "src", PresetWriteMode::Create, "t").unwrap();
    duplicate_preset_at(&mut store, "src", "dst", "t4").unwrap();
    assert_eq!(store.preset("dst").unwrap().files, store.preset("src").unwrap().files);
    assert_eq!(store.preset("dst").unwrap().meta.created.as_deref(), Some("t4"));
    assert_eq!(source_for_session(&store, None), PromptSource::Preset("src".into()));
}

#[test]
fn migration_keeps_an_existing_marker() {
    let mut store = home_store();
    assert!(restore_scratch_file(&mut store, PromptId::SubagentPlan, Some("old plan".to_string())));
    assert!(restore_marker(&mut store, Some("elsewhere\n".to_string())));
    activate_session_at(&mut store, "a", "t").unwrap();
    assert!(store.preset("perso").is_some());
    assert_eq!(store.marker().as_deref(), Some("elsewhere\n"));
    // A second activation changes nothing.
    activate_session_at(&mut store, "b", "t").unwrap();
    assert!(store.preset("perso-2").is_none());
}

#[test]
fn suggestions_skip_taken_names() {
    let mut store = home_store();
    activate_session_at(&mut store, "a", "t").unwrap();
    save_preset_at(&mut store, "x", PresetWriteMode::Create, "t").unwrap();
    save_preset_at(&mut store, "x-2", PresetWriteMode::Create, "t").unwrap();
    assert_eq!(suggest_preset_name(&store, " x "), "x-3");
    assert_eq!(suggest_preset_name(&store, "bad name"), "preset");
}

#[test]
fn resume_restores_whatever_source_was_set() {
    let mut store = home_store();
    activate_session_at(&mut store, "s", "t").unwrap();
    save_preset_at(&mut store, "p", PresetWriteMode::Create, "t").unwrap();
    for src in [PromptSource::Defaults, PromptSource::Scratch, PromptSource::Preset("p".into())] {
        activate_session_at(&mut store, "s", "t").unwrap();
        set_session_source_at(&mut store, src.clone(), "t2").unwrap();
        deactivate_session(&mut store);
        assert_eq!(source_for_session(&store, Some("s")), src);
        assert_eq!(activate_session_at(&mut store, "s", "t3").unwrap(), src);
        deactivate_session(&mut store);
    }
    // The preset switch also made it the default for a session never seen.
    assert_eq!(activate_session_at(&mut store, "never-seen", "t4").unwrap(), PromptSource::Preset("p".into()));
}
