use prompt_catalog::catalog::{default_body, list_prompts, PromptCategory, PromptDefinition, PromptId};
use prompt_catalog::model::{PresetWriteMode, PromptCatalogError, PromptSource};
use prompt_catalog::names::validate_preset_name;
use prompt_catalog::ops::{
    activate_session, active_preset_name, apply_preset, clear_active_preset, delete_preset,
    duplicate_preset, effective_prompt, has_override, list_presets, materialize_for_edit,
    override_path, preset_exists, rename_preset, reset_override, resolve_body, save_override,
    save_preset, suggest_preset_name, use_defaults_only, MIGRATED_PRESET_NAME,
};
use prompt_catalog::restore::restore_scratch_file;
use prompt_catalog::store::CatalogStore;
use prompt_catalog::templates::COMPACT_SYSTEM_PROMPT;

fn home_store() -> CatalogStore {
    CatalogStore::new(Some("/home/user/.grok".to_string()))
}

fn file_name(path: &str) -> Option<&str> {
    std::path::Path::new(path).file_name().and_then(|n| n.to_str())
}

#[test]
fn list_prompts_covers_all_ids() {
    let list = list_prompts();
    assert_eq!(list.len(), PromptId::ALL.len());
    assert_eq!(list[0].id, PromptId::BaseSystem);
    assert!(list.iter().any(|d| d.id == PromptId::SubagentExplore));
}

#[test]
fn parse_round_trips() {
    for id in PromptId::ALL.iter() {
        assert_eq!(PromptId::parse(id.as_str()), Some(*id));
    }
    assert_eq!(PromptId::parse("nope"), None);
}

#[test]
fn default_bodies_non_empty() {
    for id in PromptId::ALL.iter() {
        let body = default_body(*id);
        assert!(!body.trim().is_empty(), "default body empty for {}", id.as_str());
    }
}

#[test]
fn save_load_reset_override() {
    let mut store = home_store();
    let id = PromptId::CompactSystem;
    assert!(!has_override(&store, id));
    let ep = effective_prompt(&store, id).unwrap();
    assert!(!ep.is_override);
    assert_eq!(ep.body, COMPACT_SYSTEM_PROMPT);

    let custom = "You are a custom compact agent.";
    let path = save_override(&mut store, id, custom).unwrap();
    assert_eq!(file_name(&path), Some("compact-system.md"));
    assert_eq!(path, "/home/user/.grok/prompts/compact-system.md");
    assert!(
        store.scratch_file(id.index()).as_deref() == Some(custom),
        "override written under {}",
        path
    );
    assert!(has_override(&store, id));

    let ep = effective_prompt(&store, id).unwrap();
    assert!(ep.is_override);
    assert_eq!(ep.body, custom);
    assert_eq!(resolve_body(&store, id), custom);

    reset_override(&mut store, id).unwrap();
    assert!(!has_override(&store, id));
    assert_eq!(resolve_body(&store, id), COMPACT_SYSTEM_PROMPT);
}

#[test]
fn materialize_for_edit_creates_file_once() {
    let mut store = home_store();
    let id = PromptId::BaseSystem;
    let path1 = materialize_for_edit(&mut store, id).unwrap();
    assert_eq!(store.scratch_file(id.index()).clone(), Some(default_body(id)));

    // Second call keeps existing content (the user may have edited it).
    assert!(restore_scratch_file(&mut store, id, Some("edited by user".to_string())));
    let path2 = materialize_for_edit(&mut store, id).unwrap();
    assert_eq!(path1, path2);
    assert_eq!(store.scratch_file(id.index()).as_deref(), Some("edited by user"));
}

#[test]
fn empty_override_falls_through_to_default() {
    let mut store = home_store();
    let id = PromptId::CompactSystem;
    assert!(override_path(&store, id).is_some());
    assert!(restore_scratch_file(&mut store, id, Some("   \n  ".to_string())));
    let ep = effective_prompt(&store, id).unwrap();
    assert!(!ep.is_override);
    assert_eq!(ep.body, COMPACT_SYSTEM_PROMPT);
}

#[test]
fn save_equal_to_default_clears_override() {
    let mut store = home_store();
    let id = PromptId::CompactSystem;
    save_override(&mut store, id, "custom").unwrap();
    assert!(has_override(&store, id));
    save_override(&mut store, id, COMPACT_SYSTEM_PROMPT).unwrap();
    assert!(!has_override(&store, id));
    assert_eq!(resolve_body(&store, id), COMPACT_SYSTEM_PROMPT);
}

#[test]
fn preset_save_apply_delete() {
    let mut store = home_store();
    activate_session(&mut store, "s-1").unwrap();
    let id = PromptId::CompactSystem;
    save_override(&mut store, id, "preset-body-a").unwrap();
    save_preset(&mut store, "alpha", PresetWriteMode::Create).unwrap();
    assert_eq!(active_preset_name(&store).unwrap().as_deref(), Some("alpha"));
    assert_eq!(resolve_body(&store, id), "preset-body-a");

    use_defaults_only(&mut store).unwrap();
    assert!(!has_override(&store, id));
    assert!(active_preset_name(&store).unwrap().is_none());
    assert_eq!(resolve_body(&store, id), COMPACT_SYSTEM_PROMPT);

    apply_preset(&mut store, "alpha").unwrap();
    assert_eq!(resolve_body(&store, id), "preset-body-a");
    assert_eq!(active_preset_name(&store).unwrap().as_deref(), Some("alpha"));

    let list = list_presets(&store).unwrap();
    assert_eq!(list.len(), 1);
    assert!(list[0].is_active);
    assert_eq!(list[0].override_count, 1);
    assert!(list[0].updated.is_some(), "meta.json stamps updated");

    delete_preset(&mut store, "alpha").unwrap();
    assert!(list_presets(&store).unwrap().is_empty());
    assert!(active_preset_name(&store).unwrap().is_none());
    assert!(!preset_exists(&store, "alpha"));
}

#[test]
fn reject_bad_preset_names() {
    assert!(validate_preset_name("").is_err());
    assert!(validate_preset_name("..").is_err());
    assert!(validate_preset_name(".active").is_err());
    assert!(validate_preset_name("has space").is_err());
    assert!(validate_preset_name("ok-name_1").is_ok());
}

#[test]
fn create_mode_refuses_to_clobber_an_existing_preset() {
    let mut store = home_store();
    activate_session(&mut store, "s-1").unwrap();
    save_override(&mut store, PromptId::CompactSystem, "first").unwrap();
    save_preset(&mut store, "dup", PresetWriteMode::Create).unwrap();

    use_defaults_only(&mut store).unwrap();
    clear_active_preset(&mut store).unwrap();
    save_override(&mut store, PromptId::CompactSystem, "second").unwrap();

    let err = save_preset(&mut store, "dup", PresetWriteMode::Create).unwrap_err();
    assert!(
        matches!(err, PromptCatalogError::PresetExists(ref n) if n == "dup"),
        "expected PresetExists, got {err:?}"
    );
    // The original preset is intact.
    apply_preset(&mut store, "dup").unwrap();
    assert_eq!(resolve_body(&store, PromptId::CompactSystem), "first");

    // Overwrite is the explicit path and does replace it.
    clear_active_preset(&mut store).unwrap();
    save_preset(&mut store, "dup", PresetWriteMode::Overwrite).unwrap();
    assert_eq!(resolve_body(&store, PromptId::CompactSystem), "second");
}

#[test]
fn sessions_bind_to_their_own_preset() {
    let mut store = home_store();
    // Session 1 builds and runs on `alpha`.
    activate_session(&mut store, "s-1").unwrap();
    save_override(&mut store, PromptId::CompactSystem, "body-alpha").unwrap();
    save_preset(&mut store, "alpha", PresetWriteMode::Create).unwrap();

    // Session 2 builds and runs on `beta`.
    activate_session(&mut store, "s-2").unwrap();
    use_defaults_only(&mut store).unwrap();
    clear_active_preset(&mut store).unwrap();
    save_override(&mut store, PromptId::CompactSystem, "body-beta").unwrap();
    save_preset(&mut store, "beta", PresetWriteMode::Create).unwrap();
    assert_eq!(resolve_body(&store, PromptId::CompactSystem), "body-beta");

    // Coming back to session 1 restores its own preset and body.
    let source = activate_session(&mut store, "s-1").unwrap();
    assert_eq!(source, PromptSource::Preset("alpha".into()));
    assert_eq!(resolve_body(&store, PromptId::CompactSystem), "body-alpha");

    // And session 2 still resolves its own.
    assert_eq!(
        activate_session(&mut store, "s-2").unwrap(),
        PromptSource::Preset("beta".into())
    );
    assert_eq!(resolve_body(&store, PromptId::CompactSystem), "body-beta");
}

#[test]
fn editing_a_preset_leaves_the_others_untouched() {
    let mut store = home_store();
    activate_session(&mut store, "s-1").unwrap();
    save_override(&mut store, PromptId::CompactSystem, "shared").unwrap();
    save_preset(&mut store, "one", PresetWriteMode::Create).unwrap();
    save_preset(&mut store, "two", PresetWriteMode::Create).unwrap();

    apply_preset(&mut store, "one").unwrap();
    save_override(&mut store, PromptId::CompactSystem, "only-in-one").unwrap();

    apply_preset(&mut store, "two").unwrap();
    assert_eq!(
        resolve_body(&store, PromptId::CompactSystem),
        "shared",
        "editing `one` must not write through to `two`"
    );
}

#[test]
fn new_session_starts_on_the_last_used_preset() {
    let mut store = home_store();
    activate_session(&mut store, "s-1").unwrap();
    save_override(&mut store, PromptId::CompactSystem, "inherited").unwrap();
    save_preset(&mut store, "shared", PresetWriteMode::Create).unwrap();

    // A session with no binding inherits the `.active` default.
    let source = activate_session(&mut store, "fresh").unwrap();
    assert_eq!(source, PromptSource::Preset("shared".into()));
    assert_eq!(resolve_body(&store, PromptId::CompactSystem), "inherited");
}

#[test]
fn defaults_only_is_not_destructive() {
    let mut store = home_store();
    activate_session(&mut store, "s-1").unwrap();
    save_override(&mut store, PromptId::CompactSystem, "kept").unwrap();
    save_preset(&mut store, "keeper", PresetWriteMode::Create).unwrap();

    use_defaults_only(&mut store).unwrap();
    assert_eq!(resolve_body(&store, PromptId::CompactSystem), COMPACT_SYSTEM_PROMPT);
    assert!(save_override(&mut store, PromptId::CompactSystem, "x").is_err());

    apply_preset(&mut store, "keeper").unwrap();
    assert_eq!(resolve_body(&store, PromptId::CompactSystem), "kept");
}

#[test]
fn rename_and_duplicate_preserve_bodies_and_binding() {
    let mut store = home_store();
    activate_session(&mut store, "s-1").unwrap();
    save_override(&mut store, PromptId::CompactSystem, "body").unwrap();
    save_preset(&mut store, "orig", PresetWriteMode::Create).unwrap();

    duplicate_preset(&mut store, "orig", "copy").unwrap();
    assert!(preset_exists(&store, "copy"));
    // Duplicating does not move the session.
    assert_eq!(active_preset_name(&store).unwrap().as_deref(), Some("orig"));

    let err = duplicate_preset(&mut store, "orig", "copy").unwrap_err();
    assert!(matches!(err, PromptCatalogError::PresetExists(_)));

    rename_preset(&mut store, "orig", "renamed").unwrap();
    assert!(!preset_exists(&store, "orig"));
    assert_eq!(active_preset_name(&store).unwrap().as_deref(), Some("renamed"));
    assert_eq!(resolve_body(&store, PromptId::CompactSystem), "body");

    // The persisted binding followed the rename.
    let source = activate_session(&mut store, "s-1").unwrap();
    assert_eq!(source, PromptSource::Preset("renamed".into()));
}

#[test]
fn scratch_overrides_migrate_into_a_preset_once() {
    let mut store = home_store();
    // Pre-existing layout written by an older binary.
    assert!(restore_scratch_file(
        &mut store,
        PromptId::CompactSystem,
        Some("legacy-body".to_string())
    ));

    let source = activate_session(&mut store, "s-1").unwrap();
    assert_eq!(source, PromptSource::Preset(MIGRATED_PRESET_NAME.into()));
    assert_eq!(resolve_body(&store, PromptId::CompactSystem), "legacy-body");

    // Non-destructive: the legacy file is still readable by an old binary.
    assert_eq!(
        store.scratch_file(PromptId::CompactSystem.index()).as_deref(),
        Some("legacy-body")
    );

    // Idempotent: a second activation does not create `perso-2`.
    activate_session(&mut store, "s-2").unwrap();
    let names: Vec<String> = list_presets(&store)
        .unwrap()
        .into_iter()
        .map(|p| p.name)
        .collect();
    assert_eq!(names, vec![MIGRATED_PRESET_NAME.to_string()]);
}

#[test]
fn presets_survive_a_binary_update_that_changes_defaults() {
    let mut store = home_store();
    activate_session(&mut store, "s-1").unwrap();
    // Only the prompts the user actually customized are stored…
    save_override(&mut store, PromptId::CompactSystem, "user-body").unwrap();
    save_preset(&mut store, "kept", PresetWriteMode::Create).unwrap();

    let dir = store.preset("kept").unwrap();
    assert!(dir.files[PromptId::CompactSystem.index()].is_some());
    assert!(
        dir.files[PromptId::BaseSystem.index()].is_none(),
        "untouched prompts must not be snapshotted, so updates keep delivering them"
    );

    // …so an updated binary shipping a new default still wins for them.
    assert_eq!(
        resolve_body(&store, PromptId::BaseSystem),
        default_body(PromptId::BaseSystem)
    );
    assert_eq!(resolve_body(&store, PromptId::CompactSystem), "user-body");
}

#[test]
fn suggested_names_avoid_collisions() {
    let mut store = home_store();
    activate_session(&mut store, "s-1").unwrap();
    assert_eq!(suggest_preset_name(&store, "perso"), "perso");
    save_override(&mut store, PromptId::CompactSystem, "b").unwrap();
    save_preset(&mut store, "perso", PresetWriteMode::Create).unwrap();
    assert_eq!(suggest_preset_name(&store, "perso"), "perso-2");
}

#[test]
fn corrupt_state_file_does_not_wedge_resolution() {
    // A state file that cannot be read leaves the catalog with no bindings
    // and nothing migrated, which is what a fresh catalog holds.
    let mut store = home_store();
    let source = activate_session(&mut store, "s-1").unwrap();
    assert_eq!(source, PromptSource::Scratch);
    assert_eq!(resolve_body(&store, PromptId::CompactSystem), COMPACT_SYSTEM_PROMPT);
}

#[test]
fn definitions_follow_the_catalog() {
    let d = PromptDefinition::from(PromptId::SubagentExplore);
    assert_eq!(d.title, "explore");
    assert_eq!(d.category, PromptCategory::Subagents);
    assert!(d.is_minijinja_template);
    assert!(!PromptDefinition::of(PromptId::CompactSystem).is_minijinja_template);
    assert_eq!(PromptCategory::Session.label(), "Session");
    assert_eq!(PromptId::at(3), PromptId::CompactSystem);
    assert_eq!(PromptId::ApplyPatch.index(), 2);
}
