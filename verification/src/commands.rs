//! The `/agent` and `/prompts` slash commands: argument parsing, the catalog
//! calls each subcommand makes, and the exact text the user sees back.
use vstd::prelude::*;

use crate::clock::now_rfc3339;
use crate::model::{
    error_message, infos_view, source_label, CatalogErr, PresetInfoView, PresetWriteMode,
    PromptCatalogError, PromptPresetInfo, PromptSource, SourceView,
};
use crate::ops::{
    activate_session_at, apply_preset_at, list_presets, preset_exists, save_preset_at,
    session_source, set_session_source_at, unit_view,
};
use crate::semantics::{
    activate_post, apply_post, listed, preset_exists_spec, save_preset_post, session_source_spec,
    set_source_post,
};
use crate::store::{opt_view, CatalogStore, StoreView};
use crate::text::{chars_of, dec, decimal, is_whitespace, is_ws, str_eq, trim, trim_seq};

verus! {

/// What a command asks the application to do.
#[derive(Debug)]
pub enum Action {
    /// Open the prompts browser.
    OpenPromptsModal,
    /// Open a new session running the named agent definition.
    OpenSessionWithAgent(String),
}

/// Abstract value of an [`Action`].
pub enum ActionView {
    OpenPromptsModal,
    OpenSessionWithAgent(Seq<char>),
}

impl View for Action {
    type V = ActionView;

    open spec fn view(&self) -> ActionView {
        match self {
            Action::OpenPromptsModal => ActionView::OpenPromptsModal,
            Action::OpenSessionWithAgent(n) => ActionView::OpenSessionWithAgent(n@),
        }
    }
}

/// What running a slash command produced.
#[derive(Debug)]
pub enum CommandResult {
    Action(Action),
    Message(String),
    Error(String),
}

/// Abstract value of a [`CommandResult`].
pub enum OutcomeView {
    Action(ActionView),
    Message(Seq<char>),
    Error(Seq<char>),
}

impl View for CommandResult {
    type V = OutcomeView;

    open spec fn view(&self) -> OutcomeView {
        match self {
            CommandResult::Action(a) => OutcomeView::Action(a@),
            CommandResult::Message(m) => OutcomeView::Message(m@),
            CommandResult::Error(e) => OutcomeView::Error(e@),
        }
    }
}

/// What a command runs against: the caller's session and the prompt catalog.
pub struct CommandExecCtx {
    /// The session the command was typed in, when there is one.
    pub session_id: Option<String>,
    /// The prompt catalog.
    pub store: CatalogStore,
}

// ── Argument parsing ───────────────────────────────────────────────────────

/// `i` is the first whitespace position of `s`.
pub open spec fn first_ws_at(s: Seq<char>, i: int) -> bool {
    &&& 0 <= i < s.len()
    &&& is_ws(s[i])
    &&& forall|k: int| 0 <= k < i ==> !is_ws(#[trigger] s[k])
}

/// `s` split at its first whitespace character (which is dropped); all of
/// `s` and nothing when it has none.
pub open spec fn split_verb(s: Seq<char>) -> (Seq<char>, Seq<char>) {
    if exists|i: int| first_ws_at(s, i) {
        let i = choose|i: int| first_ws_at(s, i);
        (s.take(i), s.skip(i + 1))
    } else {
        (s, Seq::empty())
    }
}

proof fn lemma_first_ws_unique(s: Seq<char>, i: int, j: int)
    requires
        first_ws_at(s, i),
        first_ws_at(s, j),
    ensures
        i == j,
{
    if i < j {
        assert(!is_ws(s[i]));
    } else if j < i {
        assert(!is_ws(s[j]));
    }
}

/// Split `s` at its first whitespace character, as `str::split_once` with
/// `char::is_whitespace` does, with `(s, "")` when there is none.
fn split_first_ws(s: &str) -> (r: (&str, &str))
    ensures
        (r.0@, r.1@) == split_verb(s@),
{
    let v = chars_of(s);
    let n = v.len();
    let mut i: usize = 0;
    while i < n && !is_whitespace(v[i])
        invariant
            i <= n,
            n == s@.len(),
            v@ == s@,
            forall|k: int| 0 <= k < i ==> !is_ws(#[trigger] s@[k]),
        decreases n - i,
    {
        i = i + 1;
    }
    if i == n {
        proof {
            if exists|j: int| first_ws_at(s@, j) {
                let j = choose|j: int| first_ws_at(s@, j);
                assert(!is_ws(s@[j]));
            }
            reveal_strlit("");
            assert(""@ =~= Seq::<char>::empty());
        }
        (s, "")
    } else {
        proof {
            assert(first_ws_at(s@, i as int));
            let j = choose|j: int| first_ws_at(s@, j);
            lemma_first_ws_unique(s@, i as int, j);
        }
        let verb = s.substring_char(0, i);
        let rest = s.substring_char(i + 1, n);
        assert(verb@ =~= s@.take(i as int));
        assert(rest@ =~= s@.skip(i + 1));
        (verb, rest)
    }
}

// ── Messages ───────────────────────────────────────────────────────────────

/// One line of the preset listing.
pub open spec fn preset_line(p: PresetInfoView) -> Seq<char> {
    "\n"@ + (if p.is_active { "*"@ } else { " "@ }) + " "@ + p.name + " — "@ + dec(
        p.override_count,
    ) + " override(s)"@ + match p.description {
        Some(d) => " — "@ + d,
        None => Seq::<char>::empty(),
    }
}

/// The lines of the preset listing, in order.
pub open spec fn preset_lines(v: Seq<PresetInfoView>) -> Seq<char>
    decreases v.len(),
{
    if v.len() == 0 {
        Seq::empty()
    } else {
        preset_lines(v.drop_last()) + preset_line(v.last())
    }
}

/// The reply to `/prompts list`, given the listing and the session's source.
pub open spec fn listing_text(v: Seq<PresetInfoView>, src: SourceView) -> Seq<char> {
    if v.len() == 0 {
        "No prompt presets yet (this session reads from: "@ + source_label(src)
            + ").\nSave one with `/prompts save <name>`."@
    } else {
        "Prompt presets (this session reads from: "@ + source_label(src) + "):"@ + preset_lines(v)
            + if src == SourceView::Defaults {
            "\n\nNo preset is applied here; prompts come from the binary."@
        } else {
            Seq::<char>::empty()
        }
    }
}

/// Reply to a catalog call that returns nothing: `ok` on success, the
/// error's text otherwise.
pub open spec fn unit_outcome(rr: Result<(), CatalogErr>, ok: Seq<char>) -> OutcomeView {
    match rr {
        Ok(_) => OutcomeView::Message(ok),
        Err(e) => OutcomeView::Error(error_message(e)),
    }
}

/// Reply to `/prompts save <name>`.
pub open spec fn save_outcome(rr: Result<(), CatalogErr>, name: Seq<char>) -> OutcomeView {
    match rr {
        Ok(_) => OutcomeView::Message("Saved this session's prompts as preset `"@ + name + "`."@),
        Err(CatalogErr::PresetExists(_)) => OutcomeView::Error(
            "Preset `"@ + name + "` already exists. Use `/prompts update "@ + name
                + "` to replace it."@,
        ),
        Err(e) => OutcomeView::Error(error_message(e)),
    }
}

/// What a `/prompts` subcommand `verb` with argument `name` does to `m`,
/// giving `m2` and the reply `out`; catalog writes are stamped `now`.
pub open spec fn subcommand_post(m: StoreView, verb: Seq<char>, name: Seq<char>, now: Seq<char>, m2: StoreView, out: OutcomeView) -> bool {
    if verb == "list"@ || verb == "ls"@ {
        &&& m2 == m
        &&& exists|v: Seq<PresetInfoView>| listed(m, v) && out == OutcomeView::Message(listing_text(v, session_source_spec(m)))
    } else if verb == "use"@ || verb == "apply"@ {
        if name.len() == 0 {
            m2 == m && out == OutcomeView::Error("Usage: /prompts use <name>"@)
        } else {
            exists|rr: Result<(), CatalogErr>| apply_post(m, name, now, m2, rr)
                && out == unit_outcome(rr, "This session now uses prompt preset `"@ + name + "`."@)
        }
    } else if verb == "save"@ || verb == "new"@ {
        if name.len() == 0 {
            m2 == m && out == OutcomeView::Error("Usage: /prompts save <name>"@)
        } else {
            exists|rr: Result<(), CatalogErr>| save_preset_post(m, name, PresetWriteMode::Create, now, m2, rr)
                && out == save_outcome(rr, name)
        }
    } else if verb == "update"@ {
        if name.len() == 0 {
            m2 == m && out == OutcomeView::Error("Usage: /prompts update <name>"@)
        } else if !preset_exists_spec(m, name) {
            m2 == m && out == OutcomeView::Error(
                "No preset named `"@ + name + "`. Use `/prompts save "@ + name + "` to create it."@,
            )
        } else {
            exists|rr: Result<(), CatalogErr>| save_preset_post(m, name, PresetWriteMode::Overwrite, now, m2, rr)
                && out == unit_outcome(rr, "Preset `"@ + name + "` updated."@)
        }
    } else if verb == "defaults"@ {
        exists|rr: Result<(), CatalogErr>| set_source_post(m, SourceView::Defaults, now, m2, rr)
            && out == unit_outcome(
            rr,
            "This session now runs on the built-in prompts. Presets are untouched."@,
        )
    } else {
        m2 == m && out == OutcomeView::Error(
            "Unknown /prompts subcommand `"@ + verb + "`. Try: list, use, save, update, defaults."@,
        )
    }
}

/// What `/prompts <args>` typed in session `sid` does to `m`: blank arguments
/// open the browser; otherwise the session is activated first (a failure is
/// reported as such) and the first word picks the subcommand.
pub open spec fn prompts_post(m: StoreView, sid: Option<Seq<char>>, args: Seq<char>, now: Seq<char>, m2: StoreView, out: OutcomeView) -> bool {
    let a = trim_seq(args);
    let (verb, rest) = split_verb(a);
    let name = trim_seq(rest);
    if a.len() == 0 {
        m2 == m && out == OutcomeView::Action(ActionView::OpenPromptsModal)
    } else {
        match sid {
            Some(s) => {
                let (ma, ra) = activate_post(m, s, now);
                match ra {
                    Err(e) => m2 == ma && out == OutcomeView::Error(
                        "Could not read prompt presets: "@ + error_message(e),
                    ),
                    Ok(_) => subcommand_post(ma, verb, name, now, m2, out),
                }
            },
            None => subcommand_post(m, verb, name, now, m2, out),
        }
    }
}

/// The reply to `/agent` with no name.
pub open spec fn agent_usage() -> Seq<char> {
    "Usage: /agent <name> — opens a new session running that agent. Browse and edit definitions with /agents; `grok --agent <name>` (or GROK_AGENT=<name>) does the same at launch."@
}

/// What `/agent <args>` replies.
pub open spec fn agent_outcome(args: Seq<char>) -> OutcomeView {
    let name = trim_seq(args);
    if name.len() == 0 {
        OutcomeView::Error(agent_usage())
    } else {
        OutcomeView::Action(ActionView::OpenSessionWithAgent(name))
    }
}

// ── /prompts list ──────────────────────────────────────────────────────────

fn preset_line_text(p: &PromptPresetInfo) -> (r: String)
    ensures
        r@ == preset_line(p@),
{
    let mark = if p.is_active { "*" } else { " " };
    let line = String::from_str("\n").concat(mark).concat(" ").concat(p.name.as_str()).concat(
        " — ",
    ).concat(decimal(p.override_count).as_str()).concat(" override(s)");
    match &p.description {
        Some(d) => line.concat(" — ").concat(d.as_str()),
        None => {
            assert(line@ + Seq::<char>::empty() =~= line@);
            line
        },
    }
}

/// The reply to `/prompts list`, given the listing `presets` and the source
/// the session reads from.
pub fn list_presets_text(presets: &Vec<PromptPresetInfo>, source: &PromptSource) -> (r: String)
    ensures
        r@ == listing_text(infos_view(presets@), source@),
{
    let ghost vs = infos_view(presets@);
    if presets.len() == 0 {
        return String::from_str("No prompt presets yet (this session reads from: ").concat(
            source.label().as_str(),
        ).concat(").\nSave one with `/prompts save <name>`.");
    }
    let mut out = String::from_str("Prompt presets (this session reads from: ").concat(
        source.label().as_str(),
    ).concat("):");
    let ghost head = out@;
    let mut i: usize = 0;
    assert(vs.take(0) =~= Seq::<PresetInfoView>::empty());
    assert(head + preset_lines(vs.take(0)) =~= head);
    while i < presets.len()
        invariant
            i <= presets@.len(),
            vs == infos_view(presets@),
            out@ == head + preset_lines(vs.take(i as int)),
        decreases presets.len() - i,
    {
        let line = preset_line_text(&presets[i]);
        proof {
            assert(vs.take(i + 1).drop_last() =~= vs.take(i as int));
            assert(vs.take(i + 1).last() == presets@[i as int]@);
        }
        out = out.concat(line.as_str());
        proof {
            assert(out@ =~= head + preset_lines(vs.take(i + 1)));
        }
        i = i + 1;
    }
    assert(vs.take(i as int) =~= vs);
    match source {
        PromptSource::Defaults => out.concat("\n\nNo preset is applied here; prompts come from the binary."),
        _ => {
            assert(out@ + Seq::<char>::empty() =~= out@);
            out
        },
    }
}

fn list_presets_message(store: &CatalogStore) -> (r: CommandResult)
    ensures
        exists|v: Seq<PresetInfoView>| listed(store@, v) && r@ == OutcomeView::Message(
            listing_text(v, session_source_spec(store@)),
        ),
{
    let presets = match list_presets(store) {
        Ok(p) => p,
        Err(e) => return CommandResult::Error(e.message()),
    };
    let source = session_source(store);
    CommandResult::Message(list_presets_text(&presets, &source))
}

// ── The commands ───────────────────────────────────────────────────────────

/// `/agent` — open a new session on a named agent definition.
pub struct AgentCommand;

impl AgentCommand {
    /// The command's name.
    pub fn name(&self) -> (r: &'static str)
        ensures
            r@ == "agent"@,
    {
        "agent"
    }

    /// Other names the command answers to.
    pub fn aliases(&self) -> (r: Vec<&'static str>)
        ensures
            r@.len() == 1,
            r@[0]@ == "use-agent"@,
    {
        vec!["use-agent"]
    }

    /// One-line description for the command list.
    pub fn description(&self) -> (r: &'static str)
        ensures
            r@ == "Open a new session on a named agent definition"@,
    {
        "Open a new session on a named agent definition"
    }

    /// How the command is typed.
    pub fn usage(&self) -> (r: &'static str)
        ensures
            r@ == "/agent <name>"@,
    {
        "/agent <name>"
    }

    /// Open a new session on the agent named by the trimmed arguments, or
    /// explain the usage when there is no name.
    pub fn run(&self, ctx: &mut CommandExecCtx, args: &str) -> (r: CommandResult)
        ensures
            r@ == agent_outcome(args@),
            final(ctx).store@ == old(ctx).store@,
            final(ctx).session_id == old(ctx).session_id,
    {
        let name = trim(args);
        if name.unicode_len() == 0 {
            return CommandResult::Error(
                String::from_str(
                    "Usage: /agent <name> — opens a new session running that agent. Browse and edit definitions with /agents; `grok --agent <name>` (or GROK_AGENT=<name>) does the same at launch.",
                ),
            );
        }
        CommandResult::Action(Action::OpenSessionWithAgent(String::from_str(name)))
    }
}

/// `/prompts` — open the prompt templates browser, or drive presets by name.
pub struct PromptsCommand;

impl PromptsCommand {
    /// The command's name.
    pub fn name(&self) -> (r: &'static str)
        ensures
            r@ == "prompts"@,
    {
        "prompts"
    }

    /// Other names the command answers to.
    pub fn aliases(&self) -> (r: Vec<&'static str>)
        ensures
            r@.len() == 2,
            r@[0]@ == "prompt"@,
            r@[1]@ == "system-prompts"@,
    {
        vec!["prompt", "system-prompts"]
    }

    /// One-line description for the command list.
    pub fn description(&self) -> (r: &'static str)
        ensures
            r@ == "Browse and edit system / subagent prompt templates"@,
    {
        "Browse and edit system / subagent prompt templates"
    }

    /// How the command is typed.
    pub fn usage(&self) -> (r: &'static str)
        ensures
            r@ == "/prompts [list | use <name> | save <name> | update <name> | defaults]"@,
    {
        "/prompts [list | use <name> | save <name> | update <name> | defaults]"
    }

    fn subcommand(ctx: &mut CommandExecCtx, verb: &str, name: &str, now: &str) -> (r: CommandResult)
        ensures
            subcommand_post(old(ctx).store@, verb@, name@, now@, final(ctx).store@, r@),
            final(ctx).session_id == old(ctx).session_id,
    {
        let ghost m = ctx.store@;
        if str_eq(verb, "list") || str_eq(verb, "ls") {
            return list_presets_message(&ctx.store);
        }
        if str_eq(verb, "use") || str_eq(verb, "apply") {
            if name.unicode_len() == 0 {
                return CommandResult::Error(String::from_str("Usage: /prompts use <name>"));
            }
            let r = apply_preset_at(&mut ctx.store, name, now);
            let out = match r {
                Ok(()) => CommandResult::Message(
                    String::from_str("This session now uses prompt preset `").concat(name).concat("`."),
                ),
                Err(e) => CommandResult::Error(e.message()),
            };
            assert(apply_post(m, name@, now@, ctx.store@, unit_view(r)) && out@ == unit_outcome(
                unit_view(r),
                "This session now uses prompt preset `"@ + name@ + "`."@,
            ));
            return out;
        }
        if str_eq(verb, "save") || str_eq(verb, "new") {
            if name.unicode_len() == 0 {
                return CommandResult::Error(String::from_str("Usage: /prompts save <name>"));
            }
            let r = save_preset_at(&mut ctx.store, name, PresetWriteMode::Create, now);
            let out = match r {
                Ok(()) => CommandResult::Message(
                    String::from_str("Saved this session's prompts as preset `").concat(name).concat("`."),
                ),
                Err(PromptCatalogError::PresetExists(_)) => CommandResult::Error(
                    String::from_str("Preset `").concat(name).concat(
                        "` already exists. Use `/prompts update ",
                    ).concat(name).concat("` to replace it."),
                ),
                Err(e) => CommandResult::Error(e.message()),
            };
            assert(save_preset_post(m, name@, PresetWriteMode::Create, now@, ctx.store@, unit_view(r))
                && out@ == save_outcome(unit_view(r), name@));
            return out;
        }
        if str_eq(verb, "update") {
            if name.unicode_len() == 0 {
                return CommandResult::Error(String::from_str("Usage: /prompts update <name>"));
            }
            if !preset_exists(&ctx.store, name) {
                return CommandResult::Error(
                    String::from_str("No preset named `").concat(name).concat(
                        "`. Use `/prompts save ",
                    ).concat(name).concat("` to create it."),
                );
            }
            let r = save_preset_at(&mut ctx.store, name, PresetWriteMode::Overwrite, now);
            let out = match r {
                Ok(()) => CommandResult::Message(
                    String::from_str("Preset `").concat(name).concat("` updated."),
                ),
                Err(e) => CommandResult::Error(e.message()),
            };
            assert(save_preset_post(m, name@, PresetWriteMode::Overwrite, now@, ctx.store@, unit_view(r))
                && out@ == unit_outcome(unit_view(r), "Preset `"@ + name@ + "` updated."@));
            return out;
        }
        if str_eq(verb, "defaults") {
            let r = set_session_source_at(&mut ctx.store, PromptSource::Defaults, now);
            let out = match r {
                Ok(()) => CommandResult::Message(
                    String::from_str(
                        "This session now runs on the built-in prompts. Presets are untouched.",
                    ),
                ),
                Err(e) => CommandResult::Error(e.message()),
            };
            assert(set_source_post(m, SourceView::Defaults, now@, ctx.store@, unit_view(r))
                && out@ == unit_outcome(
                unit_view(r),
                "This session now runs on the built-in prompts. Presets are untouched."@,
            ));
            return out;
        }
        CommandResult::Error(
            String::from_str("Unknown /prompts subcommand `").concat(verb).concat(
                "`. Try: list, use, save, update, defaults.",
            ),
        )
    }

    /// Run `/prompts <args>` with catalog writes stamped `now`.
    pub fn run_at(&self, ctx: &mut CommandExecCtx, args: &str, now: &str) -> (r: CommandResult)
        ensures
            prompts_post(old(ctx).store@, opt_view(old(ctx).session_id), args@, now@, final(ctx).store@, r@),
            final(ctx).session_id == old(ctx).session_id,
    {
        let a = trim(args);
        if a.unicode_len() == 0 {
            return CommandResult::Action(Action::OpenPromptsModal);
        }
        match &ctx.session_id {
            Some(sid) => {
                let r = activate_session_at(&mut ctx.store, sid.as_str(), now);
                match r {
                    Err(e) => {
                        return CommandResult::Error(
                            String::from_str("Could not read prompt presets: ").concat(
                                e.message().as_str(),
                            ),
                        );
                    },
                    Ok(_) => {},
                }
            },
            None => {},
        }
        let (verb, rest) = split_first_ws(a);
        let name = trim(rest);
        Self::subcommand(ctx, verb, name, now)
    }

    /// Run `/prompts <args>`: blank arguments open the browser; otherwise
    /// the caller's session is activated and the first word picks one of
    /// `list`/`ls`, `use`/`apply`, `save`/`new`, `update` or `defaults`.
    pub fn run(&self, ctx: &mut CommandExecCtx, args: &str) -> (r: CommandResult)
        ensures
            exists|t: Seq<char>|
                prompts_post(old(ctx).store@, opt_view(old(ctx).session_id), args@, t, final(ctx).store@, r@),
            final(ctx).session_id == old(ctx).session_id,
    {
        let now = now_rfc3339();
        let r = self.run_at(ctx, args, now.as_str());
        assert(prompts_post(old(ctx).store@, opt_view(old(ctx).session_id), args@, now@, ctx.store@, r@));
        r
    }
}

} // verus!
