use prompt_catalog::catalog::PromptId;
use prompt_catalog::keys::InputOutcome;
use prompt_catalog::browser::{NameFor, PromptsModalMode, PromptsModalState};
use prompt_catalog::model::{PresetWriteMode, PromptCatalogError, PromptSource};
use prompt_catalog::ops::{
    activate_session, current_session_id, deactivate_session, list_presets, override_path_in,
    presets_root, prompts_dir, save_override, save_preset, session_source, set_preset_description,
    set_preset_description_at,
};
use prompt_catalog::restore::{restore_binding, restore_migrated, restore_preset};
use prompt_catalog::store::{CatalogStore, PresetMeta, SessionBinding};

fn home_store() -> CatalogStore {
    CatalogStore::new(Some("/home/user/.grok/".to_string()))
}

#[test]
fn paths_live_under_the_home() {
    let store = home_store();
    assert_eq!(prompts_dir(&store).as_deref(), Some("/home/user/.grok/prompts"));
    assert_eq!(presets_root(&store).as_deref(), Some("/home/user/.grok/prompt-presets"));
    assert_eq!(
        override_path_in("/srv/home", PromptId::SubagentExplore),
        "/srv/home/prompts/subagent-explore.md"
    );
    let none = CatalogStore::new(None);
    assert!(prompts_dir(&none).is_none());
}

#[test]
fn sessions_can_be_forgotten() {
    let mut store = home_store();
    activate_session(&mut store, "s-9").unwrap();
    assert_eq!(current_session_id(&store).as_deref(), Some("s-9"));
    deactivate_session(&mut store);
    assert!(current_session_id(&store).is_none());
    assert_eq!(session_source(&store), PromptSource::Scratch);
}

#[test]
fn descriptions_are_trimmed_and_blank_ones_cleared() {
    let mut store = home_store();
    save_override(&mut store, PromptId::CompactSystem, "x").unwrap();
    save_preset(&mut store, "d", PresetWriteMode::Create).unwrap();
    set_preset_description_at(&mut store, "d", Some("  my set  "), "t9").unwrap();
    let info = &list_presets(&store).unwrap()[0];
    assert_eq!(info.description.as_deref(), Some("my set"));
    assert_eq!(info.updated.as_deref(), Some("t9"));
    set_preset_description(&mut store, "d", Some("   ")).unwrap();
    assert!(list_presets(&store).unwrap()[0].description.is_none());
    assert!(matches!(
        set_preset_description(&mut store, "nope", None),
        Err(PromptCatalogError::PresetNotFound(_))
    ));
}

#[test]
fn every_error_has_its_text() {
    let mut bare = CatalogStore::new(None);
    let no_home = save_override(&mut bare, PromptId::BaseSystem, "x").unwrap_err();
    assert!(matches!(no_home, PromptCatalogError::NoGrokHome));
    assert_eq!(no_home.message(), "could not resolve GROK_HOME for prompt overrides");

    let mut store = home_store();
    let bad = save_preset(&mut store, "a b", PresetWriteMode::Create).unwrap_err();
    assert_eq!(bad.message(), "invalid preset name: a b");
    let missing = prompt_catalog::ops::apply_preset(&mut store, "ghost").unwrap_err();
    assert_eq!(missing.message(), "preset not found: ghost");
    save_preset(&mut store, "here", PresetWriteMode::Create).unwrap();
    let exists = save_preset(&mut store, "here", PresetWriteMode::Create).unwrap_err();
    assert_eq!(exists.message(), "preset already exists: here");
    prompt_catalog::ops::use_defaults_only(&mut store).unwrap();
    let ro = save_override(&mut store, PromptId::BaseSystem, "x").unwrap_err();
    assert_eq!(
        ro.message(),
        "prompt source is read-only: built-in defaults cannot be edited in place"
    );
    assert_eq!(PromptCatalogError::UnknownId("zz".into()).message(), "unknown prompt id: zz");
    assert_eq!(
        PromptCatalogError::Io("denied".into()).message(),
        "io error for prompt override: denied"
    );
}

#[test]
fn restoring_checks_what_it_is_given() {
    let mut store = home_store();
    let meta = || PresetMeta { description: None, created: None, updated: None };
    assert!(!restore_preset(&mut store, ".state", vec![None; 7], meta()));
    assert!(!restore_preset(&mut store, "ok", vec![None; 3], meta()));
    assert!(restore_preset(&mut store, "ok", vec![None; 7], meta()));
    assert!(store.preset("ok").is_some());
    assert!(restore_binding(
        &mut store,
        "s-1".to_string(),
        SessionBinding { source: PromptSource::Preset("ok".into()), updated: "t".into() }
    ));
    assert!(restore_migrated(&mut store, true));
    assert_eq!(activate_session(&mut store, "s-1").unwrap(), PromptSource::Preset("ok".into()));

    let mut bare = CatalogStore::new(None);
    assert!(!restore_migrated(&mut bare, true));
    assert!(!restore_preset(&mut bare, "ok", vec![None; 7], meta()));
}

#[test]
fn pasting_goes_to_the_focused_field() {
    let store = home_store();
    let mut state = PromptsModalState::new(&store);
    assert!(matches!(state.handle_paste(), InputOutcome::Unchanged));
    state.mode = PromptsModalMode::NamingPreset {
        purpose: NameFor::New,
        suggestion: "x".into(),
        error: Some("bad".into()),
    };
    assert!(matches!(state.handle_paste(), InputOutcome::Forward));
    assert!(matches!(state.mode, PromptsModalMode::NamingPreset { error: None, .. }));
}
