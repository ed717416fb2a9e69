//! What a key press does in the prompts browser: the decision for each mode
//! and tab, the catalog call it makes, and the status line it leaves. The
//! text widgets (prompt editor, name field, filter field) belong to the
//! application, which passes their text in and is told when to hand them a key.
use vstd::prelude::*;

use crate::browser::{
    NameFor,
    char_widths, fit_count, fit_count_of, widths_of, in_rect_spec, sat_u16, select_at_ok, with_selected, Rect, clamped, modal_wf, next_spec, other_tab, prev_spec, previewed, refreshed, selected_entry_spec,
    selected_preset_spec, shown_positions, switched, onto_presets, PromptsModalMode, PromptsModalState,
    PromptsTab,
};
use crate::catalog::{id_name, PromptId};
use crate::clock::now_rfc3339;
use crate::model::{
    error_message, CatalogErr, PresetWriteMode, PromptCatalogError, PromptSource, SourceView,
};
use crate::ops::{
    duplicate_preset_at, rename_preset_at, suggest_preset_name,
    apply_preset_at, delete_preset, materialize_for_edit_at, reset_override_at, save_override_at,
    save_preset_at, set_session_source_at, unit_view,
};
use crate::semantics::{
    duplicate_post, rename_post, suggest_spec,
    apply_post, delete_post, materialize_post, reset_override_post, save_override_post,
    save_preset_post, set_source_post,
};
use crate::store::{opt_view, CatalogStore, StoreView};
use crate::text::{str_eq, trim, trim_seq};

verus! {

/// The key of a key press.
#[derive(Debug, Clone, Copy, PartialEq, Eq, Structural)]
pub enum KeyCode {
    Char(char),
    Enter,
    Esc,
    Up,
    Down,
    Tab,
    BackTab,
    /// Any other key.
    Other,
}

/// A key press (or release) with its modifiers.
#[derive(Debug, Clone, Copy, PartialEq, Eq, Structural)]
pub struct KeyInput {
    pub code: KeyCode,
    /// Control was held.
    pub control: bool,
    /// Some modifier other than Control was held.
    pub other_modifiers: bool,
    /// The key was released rather than pressed.
    pub release: bool,
}

/// Whether no modifier was held.
pub open spec fn plain(k: KeyInput) -> bool {
    !k.control && !k.other_modifiers
}

/// What handling an input asks of the application.
#[derive(Debug)]
pub enum InputOutcome {
    /// Nothing happened.
    Unchanged,
    /// The browser changed; redraw it.
    Changed,
    /// Suspend and open this file in the external editor, then refresh.
    SuspendForEditor(String),
    /// Hand the input to the text widget being typed into.
    Forward,
    /// Put the name field's caret before this character.
    PlaceCaret(usize),
    /// A scrollbar was clicked or dragged; the application maps the cell to
    /// a position and hands it to [`PromptsModalState::apply_scrollbar_jump`].
    ScrollbarHit(ScrollTarget),
}

/// Abstract value of an [`InputOutcome`].
pub enum OutcomeView {
    Unchanged,
    Changed,
    SuspendForEditor(Seq<char>),
    Forward,
    PlaceCaret(usize),
    ScrollbarHit(ScrollTarget),
}

/// The pane a scrollbar belongs to.
#[derive(Debug, Clone, Copy, PartialEq, Eq, Structural)]
pub enum ScrollTarget {
    List,
    Preview,
}

/// Where a scrollbar click lands.
#[derive(Debug, Clone, Copy, PartialEq, Eq, Structural)]
pub enum ScrollbarClick {
    Top,
    Bottom,
    Offset(usize),
}

/// The kind of a mouse event.
#[derive(Debug, Clone, Copy, PartialEq, Eq, Structural)]
pub enum MouseKind {
    LeftDown,
    LeftDrag,
    ScrollDown,
    ScrollUp,
    /// Any other mouse event.
    Other,
}

/// A mouse event at a terminal cell.
#[derive(Debug, Clone, Copy, PartialEq, Eq, Structural)]
pub struct MouseInput {
    pub kind: MouseKind,
    pub column: u16,
    pub row: u16,
}

impl View for InputOutcome {
    type V = OutcomeView;

    open spec fn view(&self) -> OutcomeView {
        match self {
            InputOutcome::Unchanged => OutcomeView::Unchanged,
            InputOutcome::Changed => OutcomeView::Changed,
            InputOutcome::SuspendForEditor(p) => OutcomeView::SuspendForEditor(p@),
            InputOutcome::Forward => OutcomeView::Forward,
            InputOutcome::PlaceCaret(i) => OutcomeView::PlaceCaret(*i),
            InputOutcome::ScrollbarHit(t) => OutcomeView::ScrollbarHit(*t),
        }
    }
}

/// What a line-editing widget reports after taking a key.
#[derive(Debug, Clone, Copy, PartialEq, Eq, Structural)]
pub enum LineEditOutcome {
    TextChanged,
    CursorChanged,
    HandledNoChange,
    Unhandled,
}

// ── Specifications ─────────────────────────────────────────────────────────

/// `t` is `s` with the status line set to `text`.
pub open spec fn status_is(s: PromptsModalState, t: PromptsModalState, text: Seq<char>) -> bool {
    &&& t == PromptsModalState { status: t.status, ..s }
    &&& opt_view(t.status) == Some(text)
}

/// `s` with the status line of `t`.
pub open spec fn restatus(s: PromptsModalState, t: PromptsModalState) -> PromptsModalState {
    PromptsModalState { status: t.status, ..s }
}

/// `s` in mode `mode`.
pub open spec fn in_mode(s: PromptsModalState, mode: PromptsModalMode) -> PromptsModalState {
    PromptsModalState { mode, ..s }
}

/// `t` is `s` after a catalog call answered `rr`: the status reads `ok` and
/// the browser is refreshed on success, or reads `fail` and the error.
pub open spec fn reported(s: PromptsModalState, t: PromptsModalState, m2: StoreView, rr: Result<(), CatalogErr>, ok: Seq<char>, fail: Seq<char>) -> bool {
    match rr {
        Ok(_) => opt_view(t.status) == Some(ok) && refreshed(restatus(s, t), t, m2),
        Err(e) => status_is(s, t, fail + error_message(e)),
    }
}

/// Browse keys on the Catalog tab.
pub open spec fn catalog_browse_post(s: PromptsModalState, m: StoreView, key: KeyInput, now: Seq<char>, t: PromptsModalState, m2: StoreView, out: OutcomeView) -> bool {
    let editable = match selected_entry_spec(s) {
        Some(e) => !e.is_header && e.id is Some,
        None => false,
    };
    let id = selected_entry_spec(s)->0.id->0;
    if key.code == KeyCode::Char('/') && plain(key) {
        t == in_mode(s, PromptsModalMode::FilterFocused) && m2 == m && out == OutcomeView::Changed
    } else if (key.code == KeyCode::Enter || key.code == KeyCode::Char('e')) && plain(key) {
        m2 == m && if editable {
            &&& out == OutcomeView::Changed
            &&& t == PromptsModalState { mode: t.mode, status: None, ..s }
            &&& (t.mode matches PromptsModalMode::Editing { id: i, dirty, original } && i == id && !dirty
                && original@ == crate::semantics::effective_spec(m, None, id).body)
        } else {
            t == s && out == OutcomeView::Unchanged
        }
    } else if key.code == KeyCode::Char('E') {
        if editable {
            let (m1, rp) = materialize_post(m, id, now);
            &&& m2 == m1
            &&& match rp {
                Ok(p) => t == s && out == OutcomeView::SuspendForEditor(p),
                Err(e) => status_is(s, t, "Cannot open editor: "@ + error_message(e)) && out == OutcomeView::Changed,
            }
        } else {
            t == s && m2 == m && out == OutcomeView::Unchanged
        }
    } else if key.code == KeyCode::Char('r') && plain(key) {
        m2 == m && if editable && selected_entry_spec(s)->0.is_override {
            t == in_mode(s, PromptsModalMode::ConfirmingReset { idx: s.selected }) && out == OutcomeView::Changed
        } else {
            t == s && out == OutcomeView::Unchanged
        }
    } else if key.code == KeyCode::Char('n') && plain(key) {
        m2 == m && naming_opened(s, t, m, NameFor::New, suggest_spec(m, "preset"@)) && out == OutcomeView::Changed
    } else {
        t == s && m2 == m && out == OutcomeView::Unchanged
    }
}

/// `t` is `s` asking for a name for `purpose`, the field pre-filled with
/// `suggestion` and no error shown.
pub open spec fn naming_opened(s: PromptsModalState, t: PromptsModalState, m: StoreView, purpose: NameFor, suggestion: Seq<char>) -> bool {
    &&& t == in_mode(s, t.mode)
    &&& (t.mode matches PromptsModalMode::NamingPreset { purpose: p, suggestion: g, error: None } && p == purpose
        && g@ == suggestion)
}

/// `mode` with the name field's error cleared.
pub open spec fn error_cleared(mode: PromptsModalMode) -> PromptsModalMode {
    match mode {
        PromptsModalMode::NamingPreset { purpose, suggestion, .. } => PromptsModalMode::NamingPreset {
            purpose,
            suggestion,
            error: None,
        },
        other => other,
    }
}

/// `mode` with the name field showing the refusal `msg`.
pub open spec fn refused(t: PromptsModalState, s: PromptsModalState, msg: Seq<char>) -> bool {
    &&& t == in_mode(s, t.mode)
    &&& t.mode == (PromptsModalMode::NamingPreset {
        purpose: s.mode->purpose,
        suggestion: s.mode->suggestion,
        error: t.mode->error,
    })
    &&& (t.mode->error matches Some(e) && e@ == msg)
}

/// Browse keys on the Presets tab.
pub open spec fn presets_browse_post(s: PromptsModalState, m: StoreView, key: KeyInput, now: Seq<char>, t: PromptsModalState, m2: StoreView, out: OutcomeView) -> bool {
    let sel = selected_preset_spec(s);
    let name = sel->0;
    if key.code == KeyCode::Char('/') && plain(key) {
        t == in_mode(s, PromptsModalMode::FilterFocused) && m2 == m && out == OutcomeView::Changed
    } else if key.code == KeyCode::Enter && plain(key) {
        match sel {
            None => t == s && m2 == m && out == OutcomeView::Unchanged,
            Some(_) => out == OutcomeView::Changed && exists|rr: Result<(), CatalogErr>| #[trigger] apply_post(m, name, now, m2, rr)
                && reported(s, t, m2, rr, "Applied preset `"@ + name + "`"@, "Apply failed: "@),
        }
    } else if key.code == KeyCode::Char('n') && plain(key) {
        m2 == m && naming_opened(s, t, m, NameFor::New, suggest_spec(m, "preset"@)) && out == OutcomeView::Changed
    } else if key.code == KeyCode::Char('R') {
        m2 == m && match sel {
            None => t == s && out == OutcomeView::Unchanged,
            Some(_) => {
                &&& out == OutcomeView::Changed
                &&& naming_opened(s, t, m, t.mode->purpose, name)
                &&& (t.mode->purpose matches NameFor::Rename(from) && from@ == name)
            },
        }
    } else if key.code == KeyCode::Char('y') && plain(key) {
        m2 == m && match sel {
            None => t == s && out == OutcomeView::Unchanged,
            Some(_) => {
                &&& out == OutcomeView::Changed
                &&& naming_opened(s, t, m, t.mode->purpose, suggest_spec(m, name))
                &&& (t.mode->purpose matches NameFor::Duplicate(from) && from@ == name)
            },
        }
    } else if key.code == KeyCode::Char('u') && plain(key) {
        match sel {
            None => t == s && m2 == m && out == OutcomeView::Unchanged,
            Some(_) => out == OutcomeView::Changed && exists|rr: Result<(), CatalogErr>|
                #[trigger] save_preset_post(m, name, PresetWriteMode::Overwrite, now, m2, rr)
                && reported(s, t, m2, rr, "Updated preset `"@ + name + "`"@, "Update failed: "@),
        }
    } else if key.code == KeyCode::Char('d') && plain(key) {
        m2 == m && match sel {
            None => t == s && out == OutcomeView::Unchanged,
            Some(_) => {
                &&& out == OutcomeView::Changed
                &&& t == in_mode(s, t.mode)
                &&& (t.mode matches PromptsModalMode::ConfirmingDeletePreset { name: n } && n@ == name)
            },
        }
    } else if key.code == KeyCode::Char('c') && plain(key) {
        m2 == m && t == in_mode(s, PromptsModalMode::ConfirmingDefaults) && out == OutcomeView::Changed
    } else {
        t == s && m2 == m && out == OutcomeView::Unchanged
    }
}

/// Keys in browse mode: navigation and fullscreen first, then the tab's own.
pub open spec fn browse_post(s: PromptsModalState, m: StoreView, key: KeyInput, now: Seq<char>, t: PromptsModalState, m2: StoreView, out: OutcomeView) -> bool {
    if key.code == KeyCode::Char('f') && key.control {
        t == PromptsModalState { fullscreen: !s.fullscreen, ..s } && m2 == m && out == OutcomeView::Changed
    } else if (key.code == KeyCode::Down || key.code == KeyCode::Char('j')) && plain(key) {
        m2 == m && out == OutcomeView::Changed && moved_down(s, t, m)
    } else if (key.code == KeyCode::Up || key.code == KeyCode::Char('k')) && plain(key) {
        m2 == m && out == OutcomeView::Changed && moved_up(s, t, m)
    } else if key.code == KeyCode::Char('f') && plain(key) {
        t == PromptsModalState { fullscreen: !s.fullscreen, ..s } && m2 == m && out == OutcomeView::Changed
    } else {
        match s.tab {
            PromptsTab::Catalog => catalog_browse_post(s, m, key, now, t, m2, out),
            PromptsTab::Presets => presets_browse_post(s, m, key, now, t, m2, out),
        }
    }
}

/// `t` is `s` after [`PromptsModalState::select_next`].
pub open spec fn moved_down(s: PromptsModalState, t: PromptsModalState, m: StoreView) -> bool {
    if next_spec(s).1 {
        previewed(next_spec(s).0, t, m)
    } else {
        t == s
    }
}

/// `t` is `s` after [`PromptsModalState::select_prev`].
pub open spec fn moved_up(s: PromptsModalState, t: PromptsModalState, m: StoreView) -> bool {
    if prev_spec(s).1 {
        previewed(prev_spec(s).0, t, m)
    } else {
        t == s
    }
}

/// Keys while the filter has focus: `Esc` leaves it, arrows move, anything
/// else goes to the filter field.
pub open spec fn filter_post(s: PromptsModalState, m: StoreView, key: KeyInput, t: PromptsModalState, m2: StoreView, out: OutcomeView) -> bool {
    m2 == m && match key.code {
        KeyCode::Esc => t == in_mode(s, PromptsModalMode::Browse) && out == OutcomeView::Changed,
        KeyCode::Down => moved_down(s, t, m) && out == OutcomeView::Changed,
        KeyCode::Up => moved_up(s, t, m) && out == OutcomeView::Changed,
        _ => t == s && out == OutcomeView::Forward,
    }
}

/// Keys while editing prompt `id` whose editor holds `text`.
pub open spec fn editing_post(s: PromptsModalState, m: StoreView, key: KeyInput, text: Seq<char>, now: Seq<char>, t: PromptsModalState, m2: StoreView, out: OutcomeView) -> bool {
    let id = s.mode->id;
    let dirty = s.mode->dirty;
    if key.code == KeyCode::Char('s') && key.control {
        let (m1, rs) = save_override_post(m, id, text, now);
        &&& m2 == m1
        &&& out == OutcomeView::Changed
        &&& match rs {
            Ok(_) => opt_view(t.status) == Some("Saved "@ + id_name(id))
                && refreshed(restatus(in_mode(s, PromptsModalMode::Browse), t), t, m2),
            Err(e) => status_is(s, t, "Save failed: "@ + error_message(e)),
        }
    } else if key.code == KeyCode::Char('e') && key.control {
        let ma = if dirty { save_override_post(m, id, text, now).0 } else { m };
        let (m1, rp) = materialize_post(ma, id, now);
        &&& m2 == m1
        &&& match rp {
            Ok(p) => t == in_mode(s, PromptsModalMode::Browse) && out == OutcomeView::SuspendForEditor(p),
            Err(e) => status_is(s, t, "Cannot open editor: "@ + error_message(e)) && out == OutcomeView::Changed,
        }
    } else if key.code == KeyCode::Esc {
        &&& m2 == m
        &&& out == OutcomeView::Changed
        &&& opt_view(t.status) == Some("Edit cancelled"@)
        &&& previewed(restatus(in_mode(s, PromptsModalMode::Browse), t), t, m)
    } else {
        t == s && m2 == m && out == OutcomeView::Forward
    }
}

/// Status after renaming preset `from` to `name` answered `rr`, or the
/// refusal.
pub open spec fn renamed_status(from: Seq<char>, name: Seq<char>) -> Seq<char> {
    "Renamed preset `"@ + from + "` to `"@ + name + "`"@
}

/// Status after copying preset `from` to `name`.
pub open spec fn duplicated_status(from: Seq<char>, name: Seq<char>) -> Seq<char> {
    "Duplicated preset `"@ + from + "` as `"@ + name + "`"@
}

/// `t` is `s` after a named preset operation answered `rr`: on success the
/// status reads `ok` and the browser is refreshed on the Presets tab; on
/// failure the name field shows the error.
pub open spec fn named(s: PromptsModalState, t: PromptsModalState, m2: StoreView, rr: Result<(), CatalogErr>, ok: Seq<char>) -> bool {
    match rr {
        Ok(_) => opt_view(t.status) == Some(ok) && exists|u: PromptsModalState| #[trigger] onto_presets(s, u)
            && refreshed(restatus(u, t), t, m2),
        Err(e) => refused(t, s, error_message(e)),
    }
}

/// Keys while the name field (holding `text`) asks for a preset name.
pub open spec fn naming_post(s: PromptsModalState, m: StoreView, key: KeyInput, text: Seq<char>, now: Seq<char>, t: PromptsModalState, m2: StoreView, out: OutcomeView) -> bool {
    let name = trim_seq(text);
    if key.code == KeyCode::Esc {
        t == in_mode(s, PromptsModalMode::Browse) && m2 == m && out == OutcomeView::Changed
    } else if key.code == KeyCode::Enter {
        &&& out == OutcomeView::Changed
        &&& match s.mode->purpose {
            NameFor::New => exists|rr: Result<(), CatalogErr>| #[trigger] save_preset_post(m, name, PresetWriteMode::Create, now, m2, rr)
                && match rr {
                Err(CatalogErr::PresetExists(k)) => {
                    &&& t == in_mode(s, t.mode)
                    &&& (t.mode matches PromptsModalMode::ConfirmingOverwrite { preset: p } && p@ == k)
                },
                _ => named(s, t, m2, rr, "Preset `"@ + name + "` saved"@),
            },
            NameFor::Rename(from) => {
                let (m1, rr) = rename_post(m, from@, name, now);
                m2 == m1 && named(s, t, m2, rr, renamed_status(from@, name))
            },
            NameFor::Duplicate(from) => {
                let (m1, rr) = duplicate_post(m, from@, name, now);
                m2 == m1 && named(s, t, m2, rr, duplicated_status(from@, name))
            },
        }
    } else {
        m2 == m && out == OutcomeView::Forward && t == in_mode(s, error_cleared(s.mode))
    }
}

/// Status after resetting prompt `id` answered `rr`.
pub open spec fn reset_status(id: PromptId, rr: Result<(), CatalogErr>) -> Seq<char> {
    match rr {
        Ok(_) => "Reset "@ + id_name(id),
        Err(e) => "Reset failed: "@ + error_message(e),
    }
}

/// Status after deleting preset `name` answered `rr`.
pub open spec fn delete_status(name: Seq<char>, rr: Result<(), CatalogErr>) -> Seq<char> {
    match rr {
        Ok(_) => "Deleted preset `"@ + name + "`"@,
        Err(e) => "Delete failed: "@ + error_message(e),
    }
}

/// Keys while a reset waits for confirmation.
pub open spec fn confirm_reset_post(s: PromptsModalState, m: StoreView, key: KeyInput, now: Seq<char>, t: PromptsModalState, m2: StoreView, out: OutcomeView) -> bool {
    let idx = s.mode->idx;
    let target = if idx < s.filtered_cache@.len() && s.filtered_cache@[idx as int] < s.entries@.len() {
        s.entries@[s.filtered_cache@[idx as int] as int].id
    } else {
        None
    };
    &&& out == OutcomeView::Changed
    &&& if key.code == KeyCode::Char('r') {
        match target {
            Some(id) => {
                let (m1, rr) = reset_override_post(m, id, now);
                &&& m2 == m1
                &&& opt_view(t.status) == Some(reset_status(id, rr))
                &&& refreshed(in_mode(restatus(s, t), PromptsModalMode::Browse), t, m2)
            },
            None => m2 == m && refreshed(in_mode(s, PromptsModalMode::Browse), t, m2),
        }
    } else {
        m2 == m && t == in_mode(s, PromptsModalMode::Browse)
    }
}

/// Keys while a preset deletion waits for confirmation.
pub open spec fn confirm_delete_post(s: PromptsModalState, m: StoreView, key: KeyInput, t: PromptsModalState, m2: StoreView, out: OutcomeView) -> bool {
    let name = s.mode->name@;
    &&& out == OutcomeView::Changed
    &&& if key.code == KeyCode::Char('d') {
        let (m1, rr) = delete_post(m, name);
        &&& m2 == m1
        &&& opt_view(t.status) == Some(delete_status(name, rr))
        &&& refreshed(in_mode(restatus(s, t), PromptsModalMode::Browse), t, m2)
    } else {
        m2 == m && t == in_mode(s, PromptsModalMode::Browse)
    }
}

/// Keys while running on the built-in prompts waits for confirmation.
pub open spec fn confirm_defaults_post(s: PromptsModalState, m: StoreView, key: KeyInput, now: Seq<char>, t: PromptsModalState, m2: StoreView, out: OutcomeView) -> bool {
    &&& out == OutcomeView::Changed
    &&& if key.code == KeyCode::Char('c') {
        exists|rr: Result<(), CatalogErr>| #[trigger] set_source_post(m, SourceView::Defaults, now, m2, rr)
            && reported(
            in_mode(s, PromptsModalMode::Browse),
            t,
            m2,
            rr,
            "This session now runs on the built-in prompts. Presets are untouched."@,
            "Clear failed: "@,
        )
    } else {
        m2 == m && t == in_mode(s, PromptsModalMode::Browse)
    }
}

/// Keys while replacing a taken preset name waits for confirmation.
pub open spec fn confirm_overwrite_post(s: PromptsModalState, m: StoreView, key: KeyInput, now: Seq<char>, t: PromptsModalState, m2: StoreView, out: OutcomeView) -> bool {
    let name = s.mode->preset@;
    if key.code == KeyCode::Char('o') || key.code == KeyCode::Enter {
        &&& out == OutcomeView::Changed
        &&& exists|rr: Result<(), CatalogErr>| #[trigger] save_preset_post(m, name, PresetWriteMode::Overwrite, now, m2, rr)
            && match rr {
            Ok(_) => opt_view(t.status) == Some("Preset `"@ + name + "` saved"@) && exists|u: PromptsModalState|
                #[trigger] onto_presets(s, u) && refreshed(restatus(u, t), t, m2),
            Err(e) => {
                &&& t == in_mode(s, t.mode)
                &&& (t.mode matches PromptsModalMode::NamingPreset { purpose: NameFor::New, suggestion: g, error: Some(msg) }
                    && msg@ == error_message(e) && g@ == name)
            },
        }
    } else if key.code == KeyCode::Esc {
        m2 == m && t == in_mode(s, PromptsModalMode::Browse) && out == OutcomeView::Changed
    } else {
        m2 == m && t == s && out == OutcomeView::Unchanged
    }
}

/// What a key does to the browser `s` and catalog `m`, giving `t`, `m2` and
/// the outcome; `text` is the content of the widget being typed into and
/// catalog writes are stamped `now`.
pub open spec fn key_post(s: PromptsModalState, m: StoreView, key: KeyInput, text: Seq<char>, now: Seq<char>, t: PromptsModalState, m2: StoreView, out: OutcomeView) -> bool {
    if key.release {
        t == s && m2 == m && out == OutcomeView::Unchanged
    } else if (key.code == KeyCode::Tab || key.code == KeyCode::BackTab) && (s.mode is Browse || s.mode is FilterFocused) {
        m2 == m && out == OutcomeView::Changed && switched(s, t, m, other_tab(s.tab))
    } else {
        match s.mode {
            PromptsModalMode::Editing { .. } => editing_post(s, m, key, text, now, t, m2, out),
            PromptsModalMode::NamingPreset { .. } => naming_post(s, m, key, text, now, t, m2, out),
            PromptsModalMode::ConfirmingReset { .. } => confirm_reset_post(s, m, key, now, t, m2, out),
            PromptsModalMode::ConfirmingDeletePreset { .. } => confirm_delete_post(s, m, key, t, m2, out),
            PromptsModalMode::ConfirmingDefaults => confirm_defaults_post(s, m, key, now, t, m2, out),
            PromptsModalMode::ConfirmingOverwrite { .. } => confirm_overwrite_post(s, m, key, now, t, m2, out),
            PromptsModalMode::FilterFocused => filter_post(s, m, key, t, m2, out),
            PromptsModalMode::Browse => browse_post(s, m, key, now, t, m2, out),
        }
    }
}

// ── Handling ───────────────────────────────────────────────────────────────

fn failed(prefix: &str, e: &PromptCatalogError) -> (r: Option<String>)
    ensures
        opt_view(r) == Some(prefix@ + error_message(e@)),
{
    Some(String::from_str(prefix).concat(e.message().as_str()))
}

fn quoted(prefix: &str, name: &str, suffix: &str) -> (r: Option<String>)
    ensures
        opt_view(r) == Some(prefix@ + name@ + suffix@),
{
    Some(String::from_str(prefix).concat(name).concat(suffix))
}

impl PromptsModalState {
    fn handle_catalog_browse(&mut self, store: &mut CatalogStore, key: &KeyInput, now: &str) -> (r: InputOutcome)
        requires
            modal_wf(*old(self)),
            old(self).tab == PromptsTab::Catalog,
        ensures
            modal_wf(*final(self)),
            catalog_browse_post(*old(self), old(store)@, *key, now@, *final(self), final(store)@, r@),
    {
        let no_mods = !key.control && !key.other_modifiers;
        let target: Option<(PromptId, bool)> = match self.selected_entry() {
            Some(e) => if !e.is_header {
                match e.id {
                    Some(id) => Some((id, e.is_override)),
                    None => None,
                }
            } else {
                None
            },
            None => None,
        };
        if key.code == KeyCode::Char('/') && no_mods {
            self.mode = PromptsModalMode::FilterFocused;
            return InputOutcome::Changed;
        }
        if (key.code == KeyCode::Enter || key.code == KeyCode::Char('e')) && no_mods {
            return match target {
                Some((id, _)) => {
                    self.begin_edit(store, id);
                    InputOutcome::Changed
                },
                None => InputOutcome::Unchanged,
            };
        }
        if key.code == KeyCode::Char('E') {
            return match target {
                Some((id, _)) => match materialize_for_edit_at(store, id, now) {
                    Ok(path) => InputOutcome::SuspendForEditor(path),
                    Err(e) => {
                        self.status = failed("Cannot open editor: ", &e);
                        InputOutcome::Changed
                    },
                },
                None => InputOutcome::Unchanged,
            };
        }
        if key.code == KeyCode::Char('r') && no_mods {
            return match target {
                Some((_, true)) => {
                    self.mode = PromptsModalMode::ConfirmingReset { idx: self.selected };
                    InputOutcome::Changed
                },
                _ => InputOutcome::Unchanged,
            };
        }
        if key.code == KeyCode::Char('n') && no_mods {
            self.mode = PromptsModalMode::NamingPreset {
                purpose: NameFor::New,
                suggestion: suggest_preset_name(store, "preset"),
                error: None,
            };
            return InputOutcome::Changed;
        }
        InputOutcome::Unchanged
    }

    fn handle_presets_browse(&mut self, store: &mut CatalogStore, key: &KeyInput, now: &str) -> (r: InputOutcome)
        requires
            modal_wf(*old(self)),
            old(self).tab == PromptsTab::Presets,
        ensures
            modal_wf(*final(self)),
            presets_browse_post(*old(self), old(store)@, *key, now@, *final(self), final(store)@, r@),
    {
        let no_mods = !key.control && !key.other_modifiers;
        let ghost s0 = *self;
        let ghost m0 = store@;
        if key.code == KeyCode::Char('/') && no_mods {
            self.mode = PromptsModalMode::FilterFocused;
            return InputOutcome::Changed;
        }
        if key.code == KeyCode::Enter && no_mods {
            let name = match self.selected_preset_name() {
                Some(n) => n,
                None => return InputOutcome::Unchanged,
            };
            let r = apply_preset_at(store, name.as_str(), now);
            match r {
                Ok(()) => {
                    self.status = quoted("Applied preset `", name.as_str(), "`");
                    self.refresh(store);
                },
                Err(e) => {
                    self.status = failed("Apply failed: ", &e);
                },
            }
            let ghost sn = selected_preset_spec(s0)->0;
            assert(apply_post(m0, sn, now@, store@, unit_view(r)) && reported(
                s0,
                *self,
                store@,
                unit_view(r),
                "Applied preset `"@ + sn + "`"@,
                "Apply failed: "@,
            ));
            return InputOutcome::Changed;
        }
        if key.code == KeyCode::Char('n') && no_mods {
            self.mode = PromptsModalMode::NamingPreset {
                purpose: NameFor::New,
                suggestion: suggest_preset_name(store, "preset"),
                error: None,
            };
            return InputOutcome::Changed;
        }
        if key.code == KeyCode::Char('R') {
            return match self.selected_preset_name() {
                Some(name) => {
                    let from = name.clone();
                    self.mode = PromptsModalMode::NamingPreset {
                        purpose: NameFor::Rename(from),
                        suggestion: name,
                        error: None,
                    };
                    InputOutcome::Changed
                },
                None => InputOutcome::Unchanged,
            };
        }
        if key.code == KeyCode::Char('y') && no_mods {
            return match self.selected_preset_name() {
                Some(name) => {
                    let suggestion = suggest_preset_name(store, name.as_str());
                    self.mode = PromptsModalMode::NamingPreset {
                        purpose: NameFor::Duplicate(name),
                        suggestion,
                        error: None,
                    };
                    InputOutcome::Changed
                },
                None => InputOutcome::Unchanged,
            };
        }
        if key.code == KeyCode::Char('u') && no_mods {
            let name = match self.selected_preset_name() {
                Some(n) => n,
                None => return InputOutcome::Unchanged,
            };
            let r = save_preset_at(store, name.as_str(), PresetWriteMode::Overwrite, now);
            match r {
                Ok(()) => {
                    self.status = quoted("Updated preset `", name.as_str(), "`");
                    self.refresh(store);
                },
                Err(e) => {
                    self.status = failed("Update failed: ", &e);
                },
            }
            let ghost sn = selected_preset_spec(s0)->0;
            assert(save_preset_post(m0, sn, PresetWriteMode::Overwrite, now@, store@, unit_view(r))
                && reported(
                s0,
                *self,
                store@,
                unit_view(r),
                "Updated preset `"@ + sn + "`"@,
                "Update failed: "@,
            ));
            return InputOutcome::Changed;
        }
        if key.code == KeyCode::Char('d') && no_mods {
            return match self.selected_preset_name() {
                Some(name) => {
                    self.mode = PromptsModalMode::ConfirmingDeletePreset { name };
                    InputOutcome::Changed
                },
                None => InputOutcome::Unchanged,
            };
        }
        if key.code == KeyCode::Char('c') && no_mods {
            self.mode = PromptsModalMode::ConfirmingDefaults;
            return InputOutcome::Changed;
        }
        InputOutcome::Unchanged
    }

    fn handle_browse(&mut self, store: &mut CatalogStore, key: &KeyInput, now: &str) -> (r: InputOutcome)
        requires
            modal_wf(*old(self)),
        ensures
            modal_wf(*final(self)),
            browse_post(*old(self), old(store)@, *key, now@, *final(self), final(store)@, r@),
    {
        let no_mods = !key.control && !key.other_modifiers;
        if key.code == KeyCode::Char('f') && key.control {
            self.fullscreen = !self.fullscreen;
            return InputOutcome::Changed;
        }
        if (key.code == KeyCode::Down || key.code == KeyCode::Char('j')) && no_mods {
            self.select_next(store);
            return InputOutcome::Changed;
        }
        if (key.code == KeyCode::Up || key.code == KeyCode::Char('k')) && no_mods {
            self.select_prev(store);
            return InputOutcome::Changed;
        }
        if key.code == KeyCode::Char('f') && no_mods {
            self.fullscreen = !self.fullscreen;
            return InputOutcome::Changed;
        }
        match self.tab {
            PromptsTab::Catalog => self.handle_catalog_browse(store, key, now),
            PromptsTab::Presets => self.handle_presets_browse(store, key, now),
        }
    }

    fn handle_filter_focused(&mut self, store: &CatalogStore, key: &KeyInput) -> (r: InputOutcome)
        requires
            modal_wf(*old(self)),
        ensures
            modal_wf(*final(self)),
            filter_post(*old(self), store@, *key, *final(self), store@, r@),
    {
        match key.code {
            KeyCode::Esc => {
                self.mode = PromptsModalMode::Browse;
                InputOutcome::Changed
            },
            KeyCode::Down => {
                self.select_next(store);
                InputOutcome::Changed
            },
            KeyCode::Up => {
                self.select_prev(store);
                InputOutcome::Changed
            },
            _ => InputOutcome::Forward,
        }
    }

    fn handle_editing(&mut self, store: &mut CatalogStore, key: &KeyInput, text: &str, now: &str) -> (r: InputOutcome)
        requires
            modal_wf(*old(self)),
            old(self).mode is Editing,
        ensures
            modal_wf(*final(self)),
            editing_post(*old(self), old(store)@, *key, text@, now@, *final(self), final(store)@, r@),
    {
        let (id, dirty) = match &self.mode {
            PromptsModalMode::Editing { id, dirty, .. } => (*id, *dirty),
            _ => {
                return InputOutcome::Unchanged;
            },
        };
        if key.code == KeyCode::Char('s') && key.control {
            let r = save_override_at(store, id, text, now);
            match r {
                Ok(_) => {
                    self.status = Some(String::from_str("Saved ").concat(id.as_str()));
                    self.mode = PromptsModalMode::Browse;
                    self.refresh(store);
                },
                Err(e) => {
                    self.status = failed("Save failed: ", &e);
                },
            }
            return InputOutcome::Changed;
        }
        if key.code == KeyCode::Char('e') && key.control {
            if dirty {
                let _ = save_override_at(store, id, text, now);
            }
            match materialize_for_edit_at(store, id, now) {
                Ok(path) => {
                    self.mode = PromptsModalMode::Browse;
                    return InputOutcome::SuspendForEditor(path);
                },
                Err(e) => {
                    self.status = failed("Cannot open editor: ", &e);
                    return InputOutcome::Changed;
                },
            }
        }
        if key.code == KeyCode::Esc {
            self.mode = PromptsModalMode::Browse;
            self.status = Some(String::from_str("Edit cancelled"));
            self.load_preview(store);
            return InputOutcome::Changed;
        }
        InputOutcome::Forward
    }

    fn handle_naming(&mut self, store: &mut CatalogStore, key: &KeyInput, text: &str, now: &str) -> (r: InputOutcome)
        requires
            modal_wf(*old(self)),
            old(self).mode is NamingPreset,
        ensures
            modal_wf(*final(self)),
            naming_post(*old(self), old(store)@, *key, text@, now@, *final(self), final(store)@, r@),
    {
        let ghost s0 = *self;
        let ghost m0 = store@;
        let mut mode = PromptsModalMode::Browse;
        std::mem::swap(&mut mode, &mut self.mode);
        let (purpose, suggestion) = match mode {
            PromptsModalMode::NamingPreset { purpose, suggestion, .. } => (purpose, suggestion),
            other => {
                self.mode = other;
                return InputOutcome::Unchanged;
            },
        };
        if key.code == KeyCode::Esc {
            return InputOutcome::Changed;
        }
        if key.code != KeyCode::Enter {
            self.mode = PromptsModalMode::NamingPreset { purpose, suggestion, error: None };
            return InputOutcome::Forward;
        }
        let name = trim(text);
        let creating = match &purpose {
            NameFor::New => true,
            _ => false,
        };
        let (r, ok) = match &purpose {
            NameFor::New => {
                let r = save_preset_at(store, name, PresetWriteMode::Create, now);
                assert(save_preset_post(m0, name@, PresetWriteMode::Create, now@, store@, unit_view(r)));
                (r, String::from_str("Preset `").concat(name).concat("` saved"))
            },
            NameFor::Rename(from) => {
                let r = rename_preset_at(store, from.as_str(), name, now);
                (
                    r,
                    String::from_str("Renamed preset `").concat(from.as_str()).concat("` to `").concat(
                        name,
                    ).concat("`"),
                )
            },
            NameFor::Duplicate(from) => {
                let r = duplicate_preset_at(store, from.as_str(), name, now);
                (
                    r,
                    String::from_str("Duplicated preset `").concat(from.as_str()).concat("` as `").concat(
                        name,
                    ).concat("`"),
                )
            },
        };
        match r {
            Ok(()) => {
                self.land_on_presets();
                let ghost u = *self;
                self.status = Some(ok);
                self.refresh(store);
                assert(onto_presets(s0, u));
            },
            Err(PromptCatalogError::PresetExists(k)) if creating => {
                self.mode = PromptsModalMode::ConfirmingOverwrite { preset: k };
            },
            Err(e) => {
                self.mode = PromptsModalMode::NamingPreset { purpose, suggestion, error: Some(e.message()) };
            },
        }
        InputOutcome::Changed
    }

    fn handle_confirm_reset(&mut self, store: &mut CatalogStore, key: &KeyInput, now: &str) -> (r: InputOutcome)
        requires
            modal_wf(*old(self)),
            old(self).mode is ConfirmingReset,
        ensures
            modal_wf(*final(self)),
            confirm_reset_post(*old(self), old(store)@, *key, now@, *final(self), final(store)@, r@),
    {
        let idx = match self.mode {
            PromptsModalMode::ConfirmingReset { idx } => idx,
            _ => {
                return InputOutcome::Unchanged;
            },
        };
        if key.code == KeyCode::Char('r') {
            let mut target: Option<PromptId> = None;
            if idx < self.filtered_cache.len() {
                let orig = self.filtered_cache[idx];
                if orig < self.entries.len() {
                    target = self.entries[orig].id;
                }
            }
            match target {
                Some(id) => {
                    let r = reset_override_at(store, id, now);
                    match r {
                        Ok(()) => {
                            self.status = Some(String::from_str("Reset ").concat(id.as_str()));
                        },
                        Err(e) => {
                            self.status = failed("Reset failed: ", &e);
                        },
                    }
                    self.mode = PromptsModalMode::Browse;
                    self.refresh(store);
                },
                None => {
                    self.mode = PromptsModalMode::Browse;
                    self.refresh(store);
                },
            }
            return InputOutcome::Changed;
        }
        self.mode = PromptsModalMode::Browse;
        InputOutcome::Changed
    }

    fn handle_confirm_delete(&mut self, store: &mut CatalogStore, key: &KeyInput) -> (r: InputOutcome)
        requires
            modal_wf(*old(self)),
            old(self).mode is ConfirmingDeletePreset,
        ensures
            modal_wf(*final(self)),
            confirm_delete_post(*old(self), old(store)@, *key, *final(self), final(store)@, r@),
    {
        let name = match &self.mode {
            PromptsModalMode::ConfirmingDeletePreset { name } => name.clone(),
            _ => {
                return InputOutcome::Unchanged;
            },
        };
        if key.code == KeyCode::Char('d') {
            let r = delete_preset(store, name.as_str());
            match r {
                Ok(()) => {
                    self.status = quoted("Deleted preset `", name.as_str(), "`");
                },
                Err(e) => {
                    self.status = failed("Delete failed: ", &e);
                },
            }
            self.mode = PromptsModalMode::Browse;
            self.refresh(store);
            return InputOutcome::Changed;
        }
        self.mode = PromptsModalMode::Browse;
        InputOutcome::Changed
    }

    fn handle_confirm_defaults(&mut self, store: &mut CatalogStore, key: &KeyInput, now: &str) -> (r: InputOutcome)
        requires
            modal_wf(*old(self)),
            old(self).mode is ConfirmingDefaults,
        ensures
            modal_wf(*final(self)),
            confirm_defaults_post(*old(self), old(store)@, *key, now@, *final(self), final(store)@, r@),
    {
        self.mode = PromptsModalMode::Browse;
        if key.code == KeyCode::Char('c') {
            let ghost s1 = *self;
            let ghost m0 = store@;
            let r = set_session_source_at(store, PromptSource::Defaults, now);
            match r {
                Ok(()) => {
                    self.status = Some(
                        String::from_str(
                            "This session now runs on the built-in prompts. Presets are untouched.",
                        ),
                    );
                    self.refresh(store);
                },
                Err(e) => {
                    self.status = failed("Clear failed: ", &e);
                },
            }
            assert(set_source_post(m0, SourceView::Defaults, now@, store@, unit_view(r)) && reported(
                s1,
                *self,
                store@,
                unit_view(r),
                "This session now runs on the built-in prompts. Presets are untouched."@,
                "Clear failed: "@,
            ));
        }
        InputOutcome::Changed
    }

    fn handle_confirm_overwrite(&mut self, store: &mut CatalogStore, key: &KeyInput, now: &str) -> (r: InputOutcome)
        requires
            modal_wf(*old(self)),
            old(self).mode is ConfirmingOverwrite,
        ensures
            modal_wf(*final(self)),
            confirm_overwrite_post(*old(self), old(store)@, *key, now@, *final(self), final(store)@, r@),
    {
        let name = match &self.mode {
            PromptsModalMode::ConfirmingOverwrite { preset } => preset.clone(),
            _ => {
                return InputOutcome::Unchanged;
            },
        };
        if key.code == KeyCode::Char('o') || key.code == KeyCode::Enter {
            let ghost m0 = store@;
            let ghost name_view = name@;
            let r = save_preset_at(store, name.as_str(), PresetWriteMode::Overwrite, now);
            match r {
                Ok(()) => {
                    let ghost s0 = *self;
                    self.land_on_presets();
                    let ghost u = *self;
                    self.status = quoted("Preset `", name.as_str(), "` saved");
                    self.refresh(store);
                    assert(onto_presets(s0, u));
                },
                Err(e) => {
                    self.mode = PromptsModalMode::NamingPreset {
                        purpose: NameFor::New,
                        suggestion: name,
                        error: Some(e.message()),
                    };
                },
            }
            assert(save_preset_post(m0, name_view, PresetWriteMode::Overwrite, now@, store@, unit_view(r)));
            return InputOutcome::Changed;
        }
        if key.code == KeyCode::Esc {
            self.mode = PromptsModalMode::Browse;
            return InputOutcome::Changed;
        }
        InputOutcome::Unchanged
    }

    /// Handle a key, with catalog writes stamped `now`; `text` is the content
    /// of the widget being typed into (the prompt editor or the name field).
    pub fn handle_key_at(&mut self, store: &mut CatalogStore, key: &KeyInput, text: &str, now: &str) -> (r: InputOutcome)
        requires
            modal_wf(*old(self)),
        ensures
            modal_wf(*final(self)),
            key_post(*old(self), old(store)@, *key, text@, now@, *final(self), final(store)@, r@),
    {
        if key.release {
            return InputOutcome::Unchanged;
        }
        let tab_key = key.code == KeyCode::Tab || key.code == KeyCode::BackTab;
        let browsing = match self.mode {
            PromptsModalMode::Browse | PromptsModalMode::FilterFocused => true,
            _ => false,
        };
        if tab_key && browsing {
            let next = self.tab.other();
            self.switch_tab(store, next);
            return InputOutcome::Changed;
        }
        match self.mode {
            PromptsModalMode::Editing { .. } => self.handle_editing(store, key, text, now),
            PromptsModalMode::NamingPreset { .. } => self.handle_naming(store, key, text, now),
            PromptsModalMode::ConfirmingReset { .. } => self.handle_confirm_reset(store, key, now),
            PromptsModalMode::ConfirmingDeletePreset { .. } => self.handle_confirm_delete(store, key),
            PromptsModalMode::ConfirmingDefaults => self.handle_confirm_defaults(store, key, now),
            PromptsModalMode::ConfirmingOverwrite { .. } => self.handle_confirm_overwrite(store, key, now),
            PromptsModalMode::FilterFocused => self.handle_filter_focused(store, key),
            PromptsModalMode::Browse => self.handle_browse(store, key, now),
        }
    }

    /// Handle a key (see [`PromptsModalState::handle_key_at`]).
    pub fn handle_key(&mut self, store: &mut CatalogStore, key: &KeyInput, text: &str) -> (r: InputOutcome)
        requires
            modal_wf(*old(self)),
        ensures
            modal_wf(*final(self)),
            exists|t: Seq<char>| key_post(*old(self), old(store)@, *key, text@, t, *final(self), final(store)@, r@),
    {
        let now = now_rfc3339();
        let r = self.handle_key_at(store, key, text, now.as_str());
        assert(key_post(*old(self), old(store)@, *key, text@, now@, *self, store@, r@));
        r
    }

    /// After the filter field took a key: a changed text becomes the query,
    /// re-filtering the list and keeping the selection on a shown row.
    pub fn finish_filter_edit(&mut self, store: &CatalogStore, outcome: LineEditOutcome, text: &str) -> (r: InputOutcome)
        requires
            modal_wf(*old(self)),
        ensures
            modal_wf(*final(self)),
            outcome == LineEditOutcome::Unhandled ==> *final(self) == *old(self) && r@ == OutcomeView::Unchanged,
            outcome == LineEditOutcome::CursorChanged || outcome == LineEditOutcome::HandledNoChange
                ==> *final(self) == *old(self) && r@ == OutcomeView::Changed,
            outcome == LineEditOutcome::TextChanged ==> {
                let s1 = PromptsModalState { query: final(self).query, ..*old(self) };
                let s2 = PromptsModalState { filtered_cache: final(self).filtered_cache, ..s1 };
                &&& final(self).query@ == text@
                &&& final(self).filtered_cache@ == shown_positions(s1)
                &&& clamped(s2, *final(self), store@)
                &&& r@ == OutcomeView::Changed
            },
    {
        match outcome {
            LineEditOutcome::TextChanged => {
                self.query = String::from_str(text);
                self.invalidate_filter();
                self.clamp_selected(store);
                InputOutcome::Changed
            },
            LineEditOutcome::CursorChanged | LineEditOutcome::HandledNoChange => InputOutcome::Changed,
            LineEditOutcome::Unhandled => InputOutcome::Unchanged,
        }
    }

    /// After the prompt editor took input: the edit is dirty when its text
    /// differs from the body it started from.
    pub fn set_editor_text(&mut self, text: &str)
        ensures
            match old(self).mode {
                PromptsModalMode::Editing { id, original, .. } => *final(self) == (PromptsModalState {
                    mode: PromptsModalMode::Editing { id, dirty: text@ != original@, original },
                    ..*old(self)
                }),
                _ => *final(self) == *old(self),
            },
    {
        let mut m = PromptsModalMode::Browse;
        std::mem::swap(&mut m, &mut self.mode);
        self.mode = match m {
            PromptsModalMode::Editing { id, original, .. } => {
                let dirty = !str_eq(text, original.as_str());
                PromptsModalMode::Editing { id, dirty, original }
            },
            other => other,
        };
    }

    /// What a paste does: the filter field or the prompt editor takes it,
    /// the name field too (clearing its error); elsewhere nothing happens.
    pub fn handle_paste(&mut self) -> (r: InputOutcome)
        ensures
            match old(self).mode {
                PromptsModalMode::FilterFocused | PromptsModalMode::Editing { .. } => *final(self) == *old(self)
                    && r@ == OutcomeView::Forward,
                PromptsModalMode::NamingPreset { .. } => *final(self) == in_mode(
                    *old(self),
                    error_cleared(old(self).mode),
                ) && r@ == OutcomeView::Forward,
                _ => *final(self) == *old(self) && r@ == OutcomeView::Unchanged,
            },
    {
        match self.mode {
            PromptsModalMode::FilterFocused | PromptsModalMode::Editing { .. } => InputOutcome::Forward,
            PromptsModalMode::NamingPreset { .. } => {
                let mut mode = PromptsModalMode::Browse;
                std::mem::swap(&mut mode, &mut self.mode);
                self.mode = match mode {
                    PromptsModalMode::NamingPreset { purpose, suggestion, .. } => PromptsModalMode::NamingPreset {
                        purpose,
                        suggestion,
                        error: None,
                    },
                    other => other,
                };
                InputOutcome::Forward
            },
            _ => InputOutcome::Unchanged,
        }
    }
}

// ── Mouse ──────────────────────────────────────────────────────────────────

/// `s` after up to `n` steps down the list (stopping at the end).
pub open spec fn wheel_down(s: PromptsModalState, n: nat) -> PromptsModalState
    decreases n,
{
    if n > 0 && next_spec(s).1 {
        wheel_down(next_spec(s).0, (n - 1) as nat)
    } else {
        s
    }
}

/// `s` after up to `n` steps up the list (stopping at the top).
pub open spec fn wheel_up(s: PromptsModalState, n: nat) -> PromptsModalState
    decreases n,
{
    if n > 0 && prev_spec(s).1 {
        wheel_up(prev_spec(s).0, (n - 1) as nat)
    } else {
        s
    }
}

/// Whether the cell lies in the optional rectangle.
pub open spec fn in_opt_rect(r: Option<Rect>, column: u16, row: u16) -> bool {
    match r {
        Some(a) => in_rect_spec(a, column, row),
        None => false,
    }
}

/// What a mouse event does to `s` (the name field holding `text`).
pub open spec fn mouse_post(s: PromptsModalState, m: StoreView, ev: MouseInput, text: Seq<char>, t: PromptsModalState, out: OutcomeView) -> bool {
    let c = ev.column;
    let r = ev.row;
    match s.mode {
        PromptsModalMode::Editing { .. } => t == s && out == (if s.edit_area is Some {
            OutcomeView::Forward
        } else {
            OutcomeView::Unchanged
        }),
        PromptsModalMode::NamingPreset { .. } => t == s && if ev.kind == MouseKind::LeftDown && s.edit_area is Some
            && s.edit_area->0.x <= c < s.edit_area->0.x + s.edit_area->0.width && r == s.edit_area->0.y {
            out == OutcomeView::PlaceCaret(fit_count(char_widths(text), (c - s.edit_area->0.x) as nat, 0) as usize)
        } else {
            out == OutcomeView::Unchanged
        },
        _ => {
            let on_list = in_rect_spec(s.list_area, c, r);
            let on_preview = in_rect_spec(s.preview_area, c, r);
            let on_list_sb = in_opt_rect(s.list_scrollbar_area, c, r);
            let on_preview_sb = in_opt_rect(s.preview_scrollbar_area, c, r);
            let idx = s.scroll_offset + (r - (s.list_area.y + 1));
            if ev.kind == MouseKind::LeftDown || ev.kind == MouseKind::LeftDrag {
                if on_list_sb {
                    t == s && out == OutcomeView::ScrollbarHit(ScrollTarget::List)
                } else if on_preview_sb {
                    t == s && out == OutcomeView::ScrollbarHit(ScrollTarget::Preview)
                } else if ev.kind == MouseKind::LeftDown && on_list && r >= s.list_area.y + 1 && select_at_ok(s, idx) {
                    previewed(with_selected(s, idx), t, m) && out == OutcomeView::Changed
                } else {
                    t == s && out == OutcomeView::Unchanged
                }
            } else if ev.kind == MouseKind::ScrollDown {
                if on_list || on_list_sb {
                    previewed(wheel_down(s, 3), t, m) && out == OutcomeView::Changed
                } else if on_preview || on_preview_sb {
                    let max = if s.preview_total_lines > s.preview_area.height {
                        s.preview_total_lines - s.preview_area.height
                    } else {
                        0
                    };
                    let down = if s.preview_scroll + 3 < max { s.preview_scroll + 3 } else { max };
                    t == PromptsModalState { preview_scroll: down as usize, ..s } && out == OutcomeView::Changed
                } else {
                    t == s && out == OutcomeView::Unchanged
                }
            } else if ev.kind == MouseKind::ScrollUp {
                if on_list || on_list_sb {
                    previewed(wheel_up(s, 3), t, m) && out == OutcomeView::Changed
                } else if on_preview || on_preview_sb {
                    let up = if s.preview_scroll >= 3 { s.preview_scroll - 3 } else { 0 };
                    t == PromptsModalState { preview_scroll: up as usize, ..s } && out == OutcomeView::Changed
                } else {
                    t == s && out == OutcomeView::Unchanged
                }
            } else {
                t == s && out == OutcomeView::Unchanged
            }
        },
    }
}

/// Number of rows the list shows and how many fit, for scrollbar mapping.
pub open spec fn list_extent(s: PromptsModalState) -> (u16, u16) {
    let n = s.filtered_cache@.len();
    (
        (if n < 0xffff { n } else { 0xffff }) as u16,
        (if s.list_area.height >= 1 { s.list_area.height - 1 } else { 0 }) as u16,
    )
}

/// Number of preview lines and how many fit, for scrollbar mapping.
pub open spec fn preview_extent(s: PromptsModalState) -> (u16, u16) {
    (
        (if s.preview_total_lines < 0xffff { s.preview_total_lines } else { 0xffff }) as u16,
        s.preview_area.height,
    )
}

/// The offset a scrollbar click gives, for `total` lines of which
/// `visible` fit.
pub open spec fn jump_offset(click: ScrollbarClick, total: u16, visible: u16) -> usize {
    let max = if total > visible { total - visible } else { 0 };
    (match click {
        ScrollbarClick::Top => 0,
        ScrollbarClick::Bottom => max,
        ScrollbarClick::Offset(o) => if o < max { o as int } else { max },
    }) as usize
}

/// The number of characters before which a click at display column `col`
/// of the name field holding `text` puts the caret: every character that
/// fits whole to the left of the click.
pub fn caret_for_column(text: &str, col: usize) -> (r: usize)
    ensures
        r == fit_count(char_widths(text@), col as nat, 0),
{
    let widths = widths_of(text);
    fit_count_of(&widths, col)
}

impl PromptsModalState {
    fn wheel(&mut self, down: bool)
        requires
            modal_wf(*old(self)),
        ensures
            modal_wf(*final(self)),
            down ==> *final(self) == wheel_down(*old(self), 3),
            !down ==> *final(self) == wheel_up(*old(self), 3),
    {
        let ghost s0 = *self;
        let mut k: usize = 0;
        while k < 3
            invariant
                k <= 3,
                modal_wf(*self),
                down ==> wheel_down(s0, 3) == wheel_down(*self, (3 - k) as nat),
                !down ==> wheel_up(s0, 3) == wheel_up(*self, (3 - k) as nat),
            ensures
                down ==> *self == wheel_down(s0, 3),
                !down ==> *self == wheel_up(s0, 3),
            decreases 3 - k,
        {
            let moved = if down { self.advance_next() } else { self.advance_prev() };
            if !moved {
                break;
            }
            k = k + 1;
        }
    }

    /// Handle a mouse event; `text` is the content of the name field.
    pub fn handle_mouse(&mut self, store: &CatalogStore, ev: &MouseInput, text: &str) -> (r: InputOutcome)
        requires
            modal_wf(*old(self)),
        ensures
            modal_wf(*final(self)),
            mouse_post(*old(self), store@, *ev, text@, *final(self), r@),
    {
        let c = ev.column;
        let row = ev.row;
        match self.mode {
            PromptsModalMode::Editing { .. } => {
                return if self.edit_area.is_some() {
                    InputOutcome::Forward
                } else {
                    InputOutcome::Unchanged
                };
            },
            PromptsModalMode::NamingPreset { .. } => {
                if ev.kind == MouseKind::LeftDown {
                    match self.edit_area {
                        Some(f) => {
                            if c >= f.x && (c as u32) < f.x as u32 + f.width as u32 && row == f.y {
                                return InputOutcome::PlaceCaret(caret_for_column(text, (c - f.x) as usize));
                            }
                        },
                        None => {},
                    }
                }
                return InputOutcome::Unchanged;
            },
            _ => {},
        }
        let on_list = self.list_area.contains(c, row);
        let on_preview = self.preview_area.contains(c, row);
        let on_list_sb = match self.list_scrollbar_area {
            Some(a) => a.contains(c, row),
            None => false,
        };
        let on_preview_sb = match self.preview_scrollbar_area {
            Some(a) => a.contains(c, row),
            None => false,
        };
        if ev.kind == MouseKind::LeftDown || ev.kind == MouseKind::LeftDrag {
            if on_list_sb {
                return InputOutcome::ScrollbarHit(ScrollTarget::List);
            }
            if on_preview_sb {
                return InputOutcome::ScrollbarHit(ScrollTarget::Preview);
            }
            if ev.kind == MouseKind::LeftDown && on_list && row as u32 >= self.list_area.y as u32 + 1 {
                let delta = (row - self.list_area.y - 1) as usize;
                let shown = self.filtered_cache.len();
                assert(shown == self.filtered_cache@.len());
                if self.scroll_offset <= usize::MAX - delta {
                    let idx = self.scroll_offset + delta;
                    if self.select_at(store, idx) {
                        return InputOutcome::Changed;
                    }
                }
            }
            return InputOutcome::Unchanged;
        }
        if ev.kind == MouseKind::ScrollDown {
            if on_list || on_list_sb {
                self.wheel(true);
                self.load_preview(store);
                return InputOutcome::Changed;
            }
            if on_preview || on_preview_sb {
                let h = self.preview_area.height as usize;
                let max = if self.preview_total_lines > h { self.preview_total_lines - h } else { 0 };
                let down = if self.preview_scroll < max && max - self.preview_scroll > 3 {
                    self.preview_scroll + 3
                } else {
                    max
                };
                self.preview_scroll = down;
                return InputOutcome::Changed;
            }
            return InputOutcome::Unchanged;
        }
        if ev.kind == MouseKind::ScrollUp {
            if on_list || on_list_sb {
                self.wheel(false);
                self.load_preview(store);
                return InputOutcome::Changed;
            }
            if on_preview || on_preview_sb {
                self.preview_scroll = if self.preview_scroll >= 3 { self.preview_scroll - 3 } else { 0 };
                return InputOutcome::Changed;
            }
            return InputOutcome::Unchanged;
        }
        InputOutcome::Unchanged
    }

    /// Rows the list shows and how many fit (`target` List), or preview
    /// lines and how many fit (`target` Preview): what a scrollbar maps a
    /// click against.
    pub fn scrollbar_extent(&self, target: ScrollTarget) -> (r: (u16, u16))
        ensures
            target == ScrollTarget::List ==> r == list_extent(*self),
            target == ScrollTarget::Preview ==> r == preview_extent(*self),
    {
        match target {
            ScrollTarget::List => {
                let n = self.filtered_cache.len();
                let visible = if self.list_area.height >= 1 { self.list_area.height - 1 } else { 0 };
                (sat_u16(n), visible)
            },
            ScrollTarget::Preview => (sat_u16(self.preview_total_lines), self.preview_area.height),
        }
    }

    /// Scroll the list or the preview to where a scrollbar click landed.
    pub fn apply_scrollbar_jump(&mut self, target: ScrollTarget, click: ScrollbarClick)
        ensures
            target == ScrollTarget::List ==> *final(self) == (PromptsModalState {
                scroll_offset: jump_offset(click, list_extent(*old(self)).0, list_extent(*old(self)).1),
                ..*old(self)
            }),
            target == ScrollTarget::Preview ==> *final(self) == (PromptsModalState {
                preview_scroll: jump_offset(click, preview_extent(*old(self)).0, preview_extent(*old(self)).1),
                ..*old(self)
            }),
    {
        let (total, visible) = self.scrollbar_extent(target);
        let max = if total > visible { (total - visible) as usize } else { 0 };
        let offset = match click {
            ScrollbarClick::Top => 0,
            ScrollbarClick::Bottom => max,
            ScrollbarClick::Offset(o) => if o < max { o } else { max },
        };
        match target {
            ScrollTarget::List => {
                self.scroll_offset = offset;
            },
            ScrollTarget::Preview => {
                self.preview_scroll = offset;
            },
        }
    }
}

} // verus!
