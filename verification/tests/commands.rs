use prompt_catalog::catalog::PromptId;
use prompt_catalog::commands::{
    list_presets_text, Action, AgentCommand, CommandExecCtx, CommandResult, PromptsCommand,
};
use prompt_catalog::model::{PromptPresetInfo, PromptSource};
use prompt_catalog::ops::{activate_session, resolve_body, save_override};
use prompt_catalog::store::CatalogStore;

fn exec_ctx() -> CommandExecCtx {
    CommandExecCtx { session_id: None, store: CatalogStore::new(None) }
}

fn home_ctx(session: Option<&str>) -> CommandExecCtx {
    CommandExecCtx {
        session_id: session.map(|s| s.to_string()),
        store: CatalogStore::new(Some("/home/user/.grok".to_string())),
    }
}

#[test]
fn a_name_opens_a_session_on_that_agent() {
    let result = AgentCommand.run(&mut exec_ctx(), "  researcher  ");
    match result {
        CommandResult::Action(Action::OpenSessionWithAgent(name)) => {
            assert_eq!(name, "researcher", "the name must be trimmed")
        }
        other => panic!("expected OpenSessionWithAgent, got {other:?}"),
    }
}

#[test]
fn no_name_explains_the_usage() {
    match AgentCommand.run(&mut exec_ctx(), "") {
        CommandResult::Error(msg) => {
            assert!(msg.contains("/agent <name>"));
            assert!(msg.contains("--agent"), "point at the launch-time equivalent");
        }
        other => panic!("expected a usage error, got {other:?}"),
    }
}

#[test]
fn opens_prompts_modal() {
    let result = PromptsCommand.run(&mut exec_ctx(), "");
    assert!(matches!(result, CommandResult::Action(Action::OpenPromptsModal)));
}

#[test]
fn rejects_an_unknown_subcommand() {
    let result = PromptsCommand.run(&mut exec_ctx(), "frobnicate");
    assert!(matches!(result, CommandResult::Error(_)));
}

#[test]
fn use_without_a_name_explains_the_usage() {
    let result = PromptsCommand.run(&mut exec_ctx(), "use");
    match result {
        CommandResult::Error(msg) => assert!(msg.contains("/prompts use <name>")),
        other => panic!("expected a usage error, got {other:?}"),
    }
}

fn message(r: CommandResult) -> String {
    match r {
        CommandResult::Message(m) => m,
        other => panic!("expected a message, got {other:?}"),
    }
}

fn error(r: CommandResult) -> String {
    match r {
        CommandResult::Error(m) => m,
        other => panic!("expected an error, got {other:?}"),
    }
}

#[test]
fn command_names_and_usage() {
    assert_eq!(AgentCommand.name(), "agent");
    assert_eq!(AgentCommand.aliases(), vec!["use-agent"]);
    assert_eq!(AgentCommand.usage(), "/agent <name>");
    assert_eq!(AgentCommand.description(), "Open a new session on a named agent definition");
    assert_eq!(PromptsCommand.name(), "prompts");
    assert_eq!(PromptsCommand.aliases(), vec!["prompt", "system-prompts"]);
    assert_eq!(
        PromptsCommand.usage(),
        "/prompts [list | use <name> | save <name> | update <name> | defaults]"
    );
}

#[test]
fn agent_usage_text_is_exact() {
    assert_eq!(
        error(AgentCommand.run(&mut exec_ctx(), "   ")),
        "Usage: /agent <name> — opens a new session running that agent. Browse and edit definitions with /agents; `grok --agent <name>` (or GROK_AGENT=<name>) does the same at launch."
    );
}

#[test]
fn prompts_blank_arguments_open_the_modal() {
    let result = PromptsCommand.run(&mut exec_ctx(), "  \t ");
    assert!(matches!(result, CommandResult::Action(Action::OpenPromptsModal)));
}

#[test]
fn unknown_subcommand_names_the_verb() {
    assert_eq!(
        error(PromptsCommand.run(&mut exec_ctx(), "frobnicate now")),
        "Unknown /prompts subcommand `frobnicate`. Try: list, use, save, update, defaults."
    );
}

#[test]
fn save_use_update_and_list_drive_presets() {
    let mut ctx = home_ctx(Some("s-1"));
    activate_session(&mut ctx.store, "s-1").unwrap();
    save_override(&mut ctx.store, PromptId::CompactSystem, "mine").unwrap();

    assert_eq!(
        message(PromptsCommand.run(&mut ctx, "save work")),
        "Saved this session's prompts as preset `work`."
    );
    assert_eq!(
        error(PromptsCommand.run(&mut ctx, "new work")),
        "Preset `work` already exists. Use `/prompts update work` to replace it."
    );
    assert_eq!(message(PromptsCommand.run(&mut ctx, "update work")), "Preset `work` updated.");
    assert_eq!(
        error(PromptsCommand.run(&mut ctx, "update other")),
        "No preset named `other`. Use `/prompts save other` to create it."
    );
    assert_eq!(
        message(PromptsCommand.run(&mut ctx, "use   work  ")),
        "This session now uses prompt preset `work`."
    );
    assert_eq!(
        error(PromptsCommand.run(&mut ctx, "apply missing")),
        "preset not found: missing"
    );
    assert_eq!(
        message(PromptsCommand.run(&mut ctx, "list")),
        "Prompt presets (this session reads from: work):\n* work — 1 override(s)"
    );
    assert_eq!(
        message(PromptsCommand.run(&mut ctx, "defaults")),
        "This session now runs on the built-in prompts. Presets are untouched."
    );
    assert_eq!(
        message(PromptsCommand.run(&mut ctx, "ls")),
        "Prompt presets (this session reads from: built-in defaults):\n  work — 1 override(s)\n\nNo preset is applied here; prompts come from the binary."
    );
    assert_eq!(
        resolve_body(&ctx.store, PromptId::CompactSystem),
        prompt_catalog::templates::COMPACT_SYSTEM_PROMPT
    );
}

#[test]
fn usage_errors_for_missing_names() {
    let mut ctx = home_ctx(None);
    assert_eq!(error(PromptsCommand.run(&mut ctx, "save")), "Usage: /prompts save <name>");
    assert_eq!(error(PromptsCommand.run(&mut ctx, "update   ")), "Usage: /prompts update <name>");
}

#[test]
fn listing_without_presets_says_where_prompts_come_from() {
    let mut ctx = home_ctx(None);
    assert_eq!(
        message(PromptsCommand.run(&mut ctx, "list")),
        "No prompt presets yet (this session reads from: unnamed overrides).\nSave one with `/prompts save <name>`."
    );
}

#[test]
fn activation_failure_is_reported() {
    // Without a home directory the session cannot be activated.
    let mut ctx = CommandExecCtx {
        session_id: Some("s-1".to_string()),
        store: CatalogStore::new(None),
    };
    assert_eq!(
        error(PromptsCommand.run(&mut ctx, "list")),
        "Could not read prompt presets: could not resolve GROK_HOME for prompt overrides"
    );
}

#[test]
fn listing_text_marks_the_active_preset_and_descriptions() {
    let presets = vec![
        PromptPresetInfo {
            name: "a".to_string(),
            override_count: 2,
            is_active: false,
            description: Some("first".to_string()),
            updated: None,
        },
        PromptPresetInfo {
            name: "b".to_string(),
            override_count: 0,
            is_active: true,
            description: None,
            updated: None,
        },
    ];
    assert_eq!(
        list_presets_text(&presets, &PromptSource::Preset("b".to_string())),
        "Prompt presets (this session reads from: b):\n  a — 2 override(s) — first\n* b — 0 override(s)"
    );
}
