//! The fixed catalog of prompt identifiers, their metadata and built-in bodies.
use vstd::prelude::*;

use crate::templates::{
    apply_patch_template_source, apply_patch_template_text, base_template_source,
    base_template_text, subagent_template_source, subagent_template_text, COMPACT_SYSTEM_PROMPT,
    EXPLORE_PROMPT, GENERAL_PURPOSE_PROMPT, PLAN_PROMPT,
};
use crate::text::{is_blank_seq, is_ws, trim_end_seq, trim_start_seq};

verus! {

/// Stable catalog identifier (also the override file stem).
#[derive(Debug, Clone, Copy, PartialEq, Eq, Hash, Structural)]
pub enum PromptId {
    BaseSystem,
    SubagentShell,
    ApplyPatch,
    CompactSystem,
    SubagentGeneralPurpose,
    SubagentExplore,
    SubagentPlan,
}

/// Grouping of catalog entries in the browser.
#[derive(Debug, Clone, Copy, PartialEq, Eq, Hash, Structural)]
pub enum PromptCategory {
    Session,
    Subagents,
}

/// Every identifier, in display order.
pub open spec fn all_ids() -> Seq<PromptId> {
    seq![
        PromptId::BaseSystem,
        PromptId::SubagentShell,
        PromptId::ApplyPatch,
        PromptId::CompactSystem,
        PromptId::SubagentGeneralPurpose,
        PromptId::SubagentExplore,
        PromptId::SubagentPlan,
    ]
}

/// Position of `id` in [`all_ids`].
pub open spec fn id_index(id: PromptId) -> nat {
    match id {
        PromptId::BaseSystem => 0,
        PromptId::SubagentShell => 1,
        PromptId::ApplyPatch => 2,
        PromptId::CompactSystem => 3,
        PromptId::SubagentGeneralPurpose => 4,
        PromptId::SubagentExplore => 5,
        PromptId::SubagentPlan => 6,
    }
}

/// File-safe name of `id`.
pub open spec fn id_name(id: PromptId) -> Seq<char> {
    match id {
        PromptId::BaseSystem => "base-system"@,
        PromptId::SubagentShell => "subagent-shell"@,
        PromptId::ApplyPatch => "apply-patch"@,
        PromptId::CompactSystem => "compact-system"@,
        PromptId::SubagentGeneralPurpose => "subagent-general-purpose"@,
        PromptId::SubagentExplore => "subagent-explore"@,
        PromptId::SubagentPlan => "subagent-plan"@,
    }
}

/// The identifier whose name is `s`, if any.
pub open spec fn parse_spec(s: Seq<char>) -> Option<PromptId> {
    if s == id_name(PromptId::BaseSystem) {
        Some(PromptId::BaseSystem)
    } else if s == id_name(PromptId::SubagentShell) {
        Some(PromptId::SubagentShell)
    } else if s == id_name(PromptId::ApplyPatch) {
        Some(PromptId::ApplyPatch)
    } else if s == id_name(PromptId::CompactSystem) {
        Some(PromptId::CompactSystem)
    } else if s == id_name(PromptId::SubagentGeneralPurpose) {
        Some(PromptId::SubagentGeneralPurpose)
    } else if s == id_name(PromptId::SubagentExplore) {
        Some(PromptId::SubagentExplore)
    } else if s == id_name(PromptId::SubagentPlan) {
        Some(PromptId::SubagentPlan)
    } else {
        None
    }
}

/// Category of `id`.
pub open spec fn id_category(id: PromptId) -> PromptCategory {
    match id {
        PromptId::BaseSystem | PromptId::SubagentShell | PromptId::ApplyPatch
        | PromptId::CompactSystem => PromptCategory::Session,
        _ => PromptCategory::Subagents,
    }
}

/// Display title of `id`.
pub open spec fn id_title(id: PromptId) -> Seq<char> {
    match id {
        PromptId::BaseSystem => "Base system"@,
        PromptId::SubagentShell => "Subagent shell"@,
        PromptId::ApplyPatch => "Apply-patch"@,
        PromptId::CompactSystem => "Compact system"@,
        PromptId::SubagentGeneralPurpose => "general-purpose"@,
        PromptId::SubagentExplore => "explore"@,
        PromptId::SubagentPlan => "plan"@,
    }
}

/// One-line description of `id`.
pub open spec fn id_description(id: PromptId) -> Seq<char> {
    match id {
        PromptId::BaseSystem => "Primary session system-prompt template (prompt.md). MiniJinja with ${{ }} delimiters."@,
        PromptId::SubagentShell => "Base system template for subagents. Persona body is appended (extend mode)."@,
        PromptId::ApplyPatch => "Coding / apply-patch profile system template used by the Codex-style agent."@,
        PromptId::CompactSystem => "Short system prompt used after conversation compaction replaces full history."@,
        PromptId::SubagentGeneralPurpose => "Persona body for the general-purpose subagent (appended to the subagent shell)."@,
        PromptId::SubagentExplore => "Persona body for the read-only explore subagent."@,
        PromptId::SubagentPlan => "Persona body for the read-only plan / architect subagent."@,
    }
}

/// Whether the body of `id` is a MiniJinja template.
pub open spec fn id_is_template(id: PromptId) -> bool {
    id != PromptId::CompactSystem
}

/// Label of a category.
pub open spec fn category_label(c: PromptCategory) -> Seq<char> {
    match c {
        PromptCategory::Session => "Session"@,
        PromptCategory::Subagents => "Subagents"@,
    }
}

impl PromptId {
    /// Every identifier, in display order (grouped by category).
    pub const ALL: [PromptId; 7] = [
        PromptId::BaseSystem,
        PromptId::SubagentShell,
        PromptId::ApplyPatch,
        PromptId::CompactSystem,
        PromptId::SubagentGeneralPurpose,
        PromptId::SubagentExplore,
        PromptId::SubagentPlan,
    ];

    /// Position of this identifier in [`PromptId::ALL`].
    pub fn index(self) -> (i: usize)
        ensures
            i == id_index(self),
            i < 7,
            all_ids()[i as int] == self,
    {
        match self {
            PromptId::BaseSystem => 0,
            PromptId::SubagentShell => 1,
            PromptId::ApplyPatch => 2,
            PromptId::CompactSystem => 3,
            PromptId::SubagentGeneralPurpose => 4,
            PromptId::SubagentExplore => 5,
            PromptId::SubagentPlan => 6,
        }
    }

    /// The identifier at position `i` of [`PromptId::ALL`].
    pub fn at(i: usize) -> (id: PromptId)
        requires
            i < 7,
        ensures
            id == all_ids()[i as int],
            id_index(id) == i,
    {
        if i == 0 {
            PromptId::BaseSystem
        } else if i == 1 {
            PromptId::SubagentShell
        } else if i == 2 {
            PromptId::ApplyPatch
        } else if i == 3 {
            PromptId::CompactSystem
        } else if i == 4 {
            PromptId::SubagentGeneralPurpose
        } else if i == 5 {
            PromptId::SubagentExplore
        } else {
            PromptId::SubagentPlan
        }
    }

    /// File-safe id used as `<source>/<id>.md`.
    pub fn as_str(self) -> (s: &'static str)
        ensures
            s@ == id_name(self),
    {
        match self {
            PromptId::BaseSystem => "base-system",
            PromptId::SubagentShell => "subagent-shell",
            PromptId::ApplyPatch => "apply-patch",
            PromptId::CompactSystem => "compact-system",
            PromptId::SubagentGeneralPurpose => "subagent-general-purpose",
            PromptId::SubagentExplore => "subagent-explore",
            PromptId::SubagentPlan => "subagent-plan",
        }
    }

    /// The identifier whose file-safe name is `s`.
    pub fn parse(s: &str) -> (r: Option<PromptId>)
        ensures
            r == parse_spec(s@),
    {
        let mut i: usize = 0;
        while i < 7
            invariant
                i <= 7,
                forall|j: int| 0 <= j < i ==> id_name(#[trigger] all_ids()[j]) != s@,
            decreases 7 - i,
        {
            let id = PromptId::at(i);
            if crate::text::str_eq(id.as_str(), s) {
                return Some(id);
            }
            i = i + 1;
        }
        proof {
            let a = all_ids();
            assert(id_name(a[0]) != s@);
            assert(id_name(a[1]) != s@);
            assert(id_name(a[2]) != s@);
            assert(id_name(a[3]) != s@);
            assert(id_name(a[4]) != s@);
            assert(id_name(a[5]) != s@);
            assert(id_name(a[6]) != s@);
        }
        None
    }

    /// Category the identifier is listed under.
    pub fn category(self) -> (c: PromptCategory)
        ensures
            c == id_category(self),
    {
        match self {
            PromptId::BaseSystem | PromptId::SubagentShell | PromptId::ApplyPatch
            | PromptId::CompactSystem => PromptCategory::Session,
            PromptId::SubagentGeneralPurpose | PromptId::SubagentExplore
            | PromptId::SubagentPlan => PromptCategory::Subagents,
        }
    }

    /// Display title.
    pub fn title(self) -> (s: &'static str)
        ensures
            s@ == id_title(self),
    {
        match self {
            PromptId::BaseSystem => "Base system",
            PromptId::SubagentShell => "Subagent shell",
            PromptId::ApplyPatch => "Apply-patch",
            PromptId::CompactSystem => "Compact system",
            PromptId::SubagentGeneralPurpose => "general-purpose",
            PromptId::SubagentExplore => "explore",
            PromptId::SubagentPlan => "plan",
        }
    }

    /// One-line description.
    pub fn description(self) -> (s: &'static str)
        ensures
            s@ == id_description(self),
    {
        match self {
            PromptId::BaseSystem => "Primary session system-prompt template (prompt.md). MiniJinja with ${{ }} delimiters.",
            PromptId::SubagentShell => "Base system template for subagents. Persona body is appended (extend mode).",
            PromptId::ApplyPatch => "Coding / apply-patch profile system template used by the Codex-style agent.",
            PromptId::CompactSystem => "Short system prompt used after conversation compaction replaces full history.",
            PromptId::SubagentGeneralPurpose => "Persona body for the general-purpose subagent (appended to the subagent shell).",
            PromptId::SubagentExplore => "Persona body for the read-only explore subagent.",
            PromptId::SubagentPlan => "Persona body for the read-only plan / architect subagent.",
        }
    }

    /// Whether the body is a MiniJinja template (`${{ }}` / `${% %}`).
    pub fn is_minijinja_template(self) -> (b: bool)
        ensures
            b == id_is_template(self),
    {
        match self {
            PromptId::CompactSystem => false,
            _ => true,
        }
    }
}

impl PromptCategory {
    /// Every category, in display order.
    pub const ALL: [PromptCategory; 2] = [PromptCategory::Session, PromptCategory::Subagents];

    /// Header label of the category.
    pub fn label(self) -> (s: &'static str)
        ensures
            s@ == category_label(self),
    {
        match self {
            PromptCategory::Session => "Session",
            PromptCategory::Subagents => "Subagents",
        }
    }
}

/// File names are distinct, so `parse` inverts `as_str`.
pub proof fn lemma_parse_as_str(id: PromptId)
    ensures
        parse_spec(id_name(id)) == Some(id),
{
    reveal_strlit("base-system");
    reveal_strlit("subagent-shell");
    reveal_strlit("apply-patch");
    reveal_strlit("compact-system");
    reveal_strlit("subagent-general-purpose");
    reveal_strlit("subagent-explore");
    reveal_strlit("subagent-plan");
    assert("base-system"@.len() == 11);
    assert("subagent-shell"@.len() == 14);
    assert("apply-patch"@.len() == 11);
    assert("compact-system"@.len() == 14);
    assert("subagent-general-purpose"@.len() == 24);
    assert("subagent-explore"@.len() == 16);
    assert("subagent-plan"@.len() == 13);
    assert("base-system"@[0] != "apply-patch"@[0]);
    assert("subagent-shell"@[0] != "compact-system"@[0]);
}

/// Whatever `parse` accepts is the file name of what it returns.
pub proof fn lemma_parse_sound(s: Seq<char>)
    ensures
        parse_spec(s) matches Some(id) ==> id_name(id) == s,
{
}


/// Built-in body of `id`.
pub open spec fn default_body_spec(id: PromptId) -> Seq<char> {
    match id {
        PromptId::BaseSystem => base_template_text(),
        PromptId::SubagentShell => subagent_template_text(),
        PromptId::ApplyPatch => apply_patch_template_text(),
        PromptId::CompactSystem => COMPACT_SYSTEM_PROMPT@,
        PromptId::SubagentGeneralPurpose => GENERAL_PURPOSE_PROMPT@,
        PromptId::SubagentExplore => EXPLORE_PROMPT@,
        PromptId::SubagentPlan => PLAN_PROMPT@,
    }
}

/// Built-in default body for `id` (always fresh; never reads overrides).
pub fn default_body(id: PromptId) -> (s: String)
    ensures
        s@ == default_body_spec(id),
{
    match id {
        PromptId::BaseSystem => String::from_str(base_template_source()),
        PromptId::SubagentShell => String::from_str(subagent_template_source()),
        PromptId::ApplyPatch => String::from_str(apply_patch_template_source()),
        PromptId::CompactSystem => String::from_str(COMPACT_SYSTEM_PROMPT),
        PromptId::SubagentGeneralPurpose => String::from_str(GENERAL_PURPOSE_PROMPT),
        PromptId::SubagentExplore => String::from_str(EXPLORE_PROMPT),
        PromptId::SubagentPlan => String::from_str(PLAN_PROMPT),
    }
}

proof fn lemma_trim_end_keeps_head(s: Seq<char>)
    requires
        s.len() > 0,
        !is_ws(s[0]),
    ensures
        trim_end_seq(s).len() > 0,
    decreases s.len(),
{
    if is_ws(s.last()) {
        lemma_trim_end_keeps_head(s.drop_last());
    }
}

/// A string that starts with a non-whitespace character is not blank.
pub proof fn lemma_not_blank_when_head_visible(s: Seq<char>)
    requires
        s.len() > 0,
        !is_ws(s[0]),
    ensures
        !is_blank_seq(s),
{
    assert(trim_start_seq(s) == s);
    lemma_trim_end_keeps_head(s);
}

/// Every built-in body holds some text: it is not blank once trimmed.
pub proof fn lemma_default_bodies_not_blank(id: PromptId)
    ensures
        !is_blank_seq(default_body_spec(id)),
{
    reveal_strlit("You are Grok, a coding agent working in ${{ workspace_root }} on ${{ platform }}.\n\n${% if instructions %}Project instructions:\n${{ instructions }}\n\n${% endif %}Work carefully, explain what you change, and verify your work before you finish.\n");
    reveal_strlit("You are a subagent of Grok, working in ${{ workspace_root }} on a task delegated by the main agent.\nStay within the task, use the tools you are given, and finish with a short report.\n");
    reveal_strlit("You are Grok, a coding agent working in ${{ workspace_root }}.\nEdit files by emitting patches in the apply_patch format, one coherent change at a time, and check the result after each patch.\n");
    reveal_strlit("You are continuing a conversation whose earlier turns were compacted into a summary.\nTreat the summary as accurate context, keep working toward the user's goal, and ask for anything that the summary does not preserve.\n");
    reveal_strlit("You are a general-purpose subagent. Carry out the delegated task end to end with the tools you have, then report what you did and what you found, concisely.\n");
    reveal_strlit("You are a read-only explore subagent. Search and read the codebase to answer the question you were given. Do not modify files. Report the relevant paths, symbols and findings.\n");
    reveal_strlit("You are a read-only planning subagent. Study the code involved and produce a concrete, ordered implementation plan with the files to touch and the risks to watch. Do not modify files.\n");
    let s = default_body_spec(id);
    assert(s[0] == 'Y');
    lemma_not_blank_when_head_visible(s);
}

/// Static definition shown in the prompt catalog.
#[derive(Debug, Clone, Copy, PartialEq, Eq)]
pub struct PromptDefinition {
    pub id: PromptId,
    pub title: &'static str,
    pub description: &'static str,
    pub category: PromptCategory,
    pub is_minijinja_template: bool,
}

/// The definition that describes `id`.
pub open spec fn definition_matches(d: PromptDefinition, id: PromptId) -> bool {
    &&& d.id == id
    &&& d.title@ == id_title(id)
    &&& d.description@ == id_description(id)
    &&& d.category == id_category(id)
    &&& d.is_minijinja_template == id_is_template(id)
}

impl PromptDefinition {
    /// The catalog definition of `id`.
    pub fn of(id: PromptId) -> (d: PromptDefinition)
        ensures
            definition_matches(d, id),
    {
        PromptDefinition {
            id,
            title: id.title(),
            description: id.description(),
            category: id.category(),
            is_minijinja_template: id.is_minijinja_template(),
        }
    }
}

impl From<PromptId> for PromptDefinition {
    fn from(id: PromptId) -> (d: PromptDefinition)
        ensures
            definition_matches(d, id),
    {
        PromptDefinition::of(id)
    }
}

impl vstd::std_specs::convert::FromSpecImpl<PromptId> for PromptDefinition {
    open spec fn obeys_from_spec() -> bool {
        false
    }

    open spec fn from_spec(v: PromptId) -> PromptDefinition {
        choose|d: PromptDefinition| definition_matches(d, v)
    }
}

/// List all catalog definitions in display order (grouped by category).
pub fn list_prompts() -> (v: Vec<PromptDefinition>)
    ensures
        v@.len() == 7,
        forall|i: int| 0 <= i < 7 ==> definition_matches(#[trigger] v@[i], all_ids()[i]),
{
    let mut v: Vec<PromptDefinition> = Vec::new();
    let mut i: usize = 0;
    while i < 7
        invariant
            i <= 7,
            v@.len() == i,
            forall|j: int| 0 <= j < i ==> definition_matches(#[trigger] v@[j], all_ids()[j]),
        decreases 7 - i,
    {
        v.push(PromptDefinition::of(PromptId::at(i)));
        i = i + 1;
    }
    v
}

} // verus!
