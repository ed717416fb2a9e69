//! Properties of the catalog that span operations: what a read gives back
//! after a write, what each session keeps while another one changes, and
//! which operations leave which parts of the catalog alone.
use vstd::prelude::*;

use crate::catalog::{default_body_spec, id_name, PromptId};
use crate::unicode::lowercase_of;
use crate::model::{CatalogErr, SourceView};
use crate::names::{valid_name, validated};
use crate::semantics::{
    activate_post, apply_post, candidate, delete_post, default_source_spec, duplicate_post,
    effective_spec, ensure_migrated_post, file_at, first_free, marker_for, marker_name,
    override_body, preset_exists_spec, preset_key, rename_post, reset_override_post,
    save_override_post, scratch_has_overrides, session_source_spec, set_source_post,
    source_for_session_spec, suggest_base, suggest_spec, writable_location, Location,
    MAX_BINDINGS, files_at, save_preset_post, source_location,
};
use crate::model::{PresetInfoView, PresetWriteMode};
use crate::keys::{key_post, KeyCode, KeyInput, OutcomeView};
use crate::browser::PromptsModalMode;
use crate::browser::{
    lemma_catalog_preview_holds_body, lemma_filter_prefix_keeps_match, filtered_spec, desc_lower_of,
    EntryView, preview_spec, filtered_presets, lemma_matching_presets_keeps,
    lemma_matching_presets_sound, lemma_filter_prefix_sound, selected_entry_spec, seq_contains,
    next_row, next_spec, past_headers, prev_row, prev_spec, selectable, PromptsModalState,
    PromptsTab,
};
use crate::commands::{prompts_post, ActionView, OutcomeView as CommandOutcome};
use crate::store::{view_wf, StoreView};
use crate::text::{is_blank_seq, is_ws, trim_end_seq, trim_seq, trim_start_seq};

verus! {

// ── Reading back what was written ──────────────────────────────────────────

/// Writing an override leaves the session on the same source.
proof fn lemma_write_keeps_source(m: StoreView, loc: Location, id: PromptId, c: Option<Seq<char>>, now: Seq<char>)
    requires
        view_wf(m),
        writable_location(m) == Ok::<Location, CatalogErr>(loc),
    ensures
        ({
            let m2 = crate::semantics::touched(crate::semantics::with_file(m, loc, id, c), now);
            &&& session_source_spec(m2) == session_source_spec(m)
            &&& writable_location(m2) == Ok::<Location, CatalogErr>(loc)
            &&& file_at(m2, loc, id) == c
            &&& m2.home == m.home
        }),
{
    let m1 = crate::semantics::with_file(m, loc, id, c);
    assert(m1.marker == m.marker);
    if m.session_source is None {
        match marker_name(m) {
            Some(n) => {
                if preset_exists_spec(m, n) {
                    assert(preset_exists_spec(m1, n));
                } else {
                    assert(session_source_spec(m) == SourceView::Scratch);
                    assert(loc == Location::Scratch);
                    assert(m1.presets == m.presets);
                }
            },
            None => {},
        }
    }
    assert(session_source_spec(m1) == session_source_spec(m));
    let m2 = crate::semantics::touched(m1, now);
    match loc {
        Location::Preset(k) => {
            assert(m1.presets.contains_key(k));
        },
        Location::Scratch => {},
    }
    if m1.session_source is None {
        match marker_name(m1) {
            Some(n) => {
                if preset_exists_spec(m1, n) {
                    assert(preset_exists_spec(m2, n));
                }
            },
            None => {},
        }
    }
    assert(session_source_spec(m2) == session_source_spec(m));
}

/// Read after write: once an override that is not blank and differs from
/// the built-in default is saved, the session resolves that prompt to
/// exactly the saved body, as an override.
pub proof fn law_saved_override_is_read_back(m: StoreView, id: PromptId, body: Seq<char>, now: Seq<char>)
    requires
        view_wf(m),
        save_override_post(m, id, body, now).1 is Ok,
        !is_blank_seq(body),
        trim_seq(body) != trim_seq(default_body_spec(id)),
    ensures
        effective_spec(save_override_post(m, id, body, now).0, None, id).body == body,
        effective_spec(save_override_post(m, id, body, now).0, None, id).is_override,
{
    let loc = writable_location(m)->Ok_0;
    lemma_write_keeps_source(m, loc, id, Some(body), now);
}

/// Saving a body equal to the built-in default (once trimmed) clears the
/// override: the prompt resolves to the default again.
pub proof fn law_saving_the_default_clears(m: StoreView, id: PromptId, body: Seq<char>, now: Seq<char>)
    requires
        view_wf(m),
        save_override_post(m, id, body, now).1 is Ok,
        trim_seq(body) == trim_seq(default_body_spec(id)),
    ensures
        effective_spec(save_override_post(m, id, body, now).0, None, id).body == default_body_spec(id),
        !effective_spec(save_override_post(m, id, body, now).0, None, id).is_override,
{
    let loc = writable_location(m)->Ok_0;
    if file_at(m, loc, id) is Some {
        lemma_write_keeps_source(m, loc, id, None, now);
    }
}

/// Reset restores the default: after a successful reset the prompt resolves
/// to the built-in body.
pub proof fn law_reset_restores_default(m: StoreView, id: PromptId, now: Seq<char>)
    requires
        view_wf(m),
        reset_override_post(m, id, now).1 is Ok,
    ensures
        effective_spec(reset_override_post(m, id, now).0, None, id).body == default_body_spec(id),
        !effective_spec(reset_override_post(m, id, now).0, None, id).is_override,
{
    let loc = writable_location(m)->Ok_0;
    if file_at(m, loc, id) is Some {
        lemma_write_keeps_source(m, loc, id, None, now);
    }
}

/// Editing writes into the bound source only: saving an override changes
/// that one file of the session's source (and, for a preset, its metadata),
/// while every other preset, the other source's files, the marker and the
/// session bindings stay as they were.
pub proof fn law_edit_touches_only_bound_source(m: StoreView, id: PromptId, body: Seq<char>, now: Seq<char>)
    requires
        view_wf(m),
        save_override_post(m, id, body, now).1 is Ok,
    ensures
        ({
            let m2 = save_override_post(m, id, body, now).0;
            let loc = writable_location(m)->Ok_0;
            &&& m2.marker == m.marker
            &&& m2.bindings == m.bindings
            &&& m2.session_source == m.session_source
            &&& m2.session_id == m.session_id
            &&& loc is Preset ==> m2.scratch == m.scratch
            &&& forall|n: Seq<char>| #[trigger] m.presets.contains_key(n) && loc != Location::Preset(n)
                ==> m2.presets.contains_key(n) && m2.presets[n] == m.presets[n]
            &&& forall|n: Seq<char>| #[trigger] m2.presets.contains_key(n) && loc != Location::Preset(n)
                ==> m.presets.contains_key(n)
            &&& forall|j: int| 0 <= j < 7 && j != crate::catalog::id_index(id) ==> #[trigger] crate::semantics::files_at(m2, loc)[j]
                == crate::semantics::files_at(m, loc)[j]
        }),
{
    let loc = writable_location(m)->Ok_0;
    let m2 = save_override_post(m, id, body, now).0;
    let c: Option<Seq<char>> = if trim_seq(body) == trim_seq(default_body_spec(id)) { None } else { Some(body) };
    if trim_seq(body) != trim_seq(default_body_spec(id)) || file_at(m, loc, id) is Some {
        lemma_write_keeps_source(m, loc, id, c, now);
        let m1 = crate::semantics::with_file(m, loc, id, c);
        assert(crate::semantics::touched(m1, now) == m2);
        match loc {
            Location::Preset(k) => {
                assert(m1.presets.contains_key(k));
                assert forall|j: int| 0 <= j < 7 && j != crate::catalog::id_index(id) implies #[trigger] crate::semantics::files_at(m2, loc)[j]
                    == crate::semantics::files_at(m, loc)[j] by {
                    if m.presets.contains_key(k) {
                        assert(m.presets[k].files.len() == 7);
                    }
                }
            },
            Location::Scratch => {
                assert forall|j: int| 0 <= j < 7 && j != crate::catalog::id_index(id) implies #[trigger] crate::semantics::files_at(m2, loc)[j]
                    == crate::semantics::files_at(m, loc)[j] by {
                }
            },
        }
    }
}

/// `trim` gives a valid name back unchanged.
proof fn lemma_trim_valid_name(k: Seq<char>)
    requires
        valid_name(k),
    ensures
        trim_seq(k) == k,
        trim_seq(marker_for(k)) == k,
{
    crate::names::lemma_valid_name_trimmed(k);
    let s = marker_for(k);
    reveal_strlit("\n");
    assert(s[0] == k[0]);
    assert(trim_start_seq(s) == s);
    assert(s.last() == '\n');
    assert(is_ws(s.last()));
    assert(s.drop_last() =~= k);
    assert(trim_end_seq(s) == trim_end_seq(k));
}

/// A name the validator accepts is its own key.
proof fn lemma_key_of_key(m: StoreView, k: Seq<char>)
    requires
        valid_name(k),
        m.home is Some,
    ensures
        preset_key(m, k) == Ok::<Seq<char>, CatalogErr>(k),
{
    lemma_trim_valid_name(k);
}

// ── Sessions ───────────────────────────────────────────────────────────────

/// Applying a preset in one session never disturbs a session elsewhere:
/// every other session's binding that is kept is kept unchanged, and none is
/// dropped while fewer than the binding limit are stored.
pub proof fn law_apply_leaves_other_sessions(m: StoreView, name: Seq<char>, now: Seq<char>, m2: StoreView, r: Result<(), CatalogErr>, other: Seq<char>)
    requires
        view_wf(m),
        apply_post(m, name, now, m2, r),
        m.session_id != Some(other),
    ensures
        m2.bindings.contains_key(other) ==> m.bindings.contains_key(other) && m2.bindings[other] == m.bindings[other],
        m.bindings.contains_key(other) && m.bindings.len() < MAX_BINDINGS ==> m2.bindings.contains_key(other),
{
    if r is Ok {
        let k = preset_key(m, name)->Ok_0;
        let m1 = StoreView { marker: Some(marker_for(k)), ..m };
        match m.session_id {
            Some(sid) => {
                let ins = m1.bindings.insert(sid, crate::store::BindingView { source: SourceView::Preset(k), updated: now });
                assert(m1.bindings.dom().finite());
                if m.bindings.len() < MAX_BINDINGS {
                    assert(ins.len() <= m.bindings.len() + 1) by {
                        if m.bindings.contains_key(sid) {
                            assert(ins.dom() =~= m.bindings.dom());
                        }
                    }
                }
            },
            None => {},
        }
    }
}

/// Resuming a session restores the preset it used: after a preset is
/// applied in session `sid`, a process that later activates `sid` (with
/// nothing in memory) comes back on that preset, and any process asking
/// which source `sid` reads from is told the same.
pub proof fn law_resume_restores_preset(m: StoreView, sid: Seq<char>, name: Seq<char>, now: Seq<char>, m2: StoreView, now2: Seq<char>)
    requires
        view_wf(m),
        m.migrated,
        m.session_id == Some(sid),
        m.bindings.len() < MAX_BINDINGS,
        apply_post(m, name, now, m2, Ok(())),
    ensures
        ({
            let k = preset_key(m, name)->Ok_0;
            let fresh = StoreView { session_id: None, session_source: None, ..m2 };
            &&& source_for_session_spec(fresh, Some(sid)) == SourceView::Preset(k)
            &&& activate_post(fresh, sid, now2).1 == Ok::<SourceView, CatalogErr>(SourceView::Preset(k))
        }),
{
    let k = preset_key(m, name)->Ok_0;
    let m1 = StoreView { marker: Some(marker_for(k)), ..m };
    let ins = m1.bindings.insert(sid, crate::store::BindingView { source: SourceView::Preset(k), updated: now });
    assert(ins.len() <= m.bindings.len() + 1) by {
        if m.bindings.contains_key(sid) {
            assert(ins.dom() =~= m.bindings.dom());
        }
    }
    assert(m2.bindings == ins);
    assert(valid_name(k));
    lemma_key_of_key(m2, k);
    let fresh = StoreView { session_id: None, session_source: None, ..m2 };
    lemma_key_of_key(fresh, k);
    assert(ensure_migrated_post(fresh, now2) == (fresh, Ok::<(), CatalogErr>(())));
}

/// Resuming a session restores the source it was last pointed at: after
/// the session `sid` is switched to the built-in defaults, the unnamed
/// overrides or an existing preset, a process that later activates `sid`
/// (with nothing in memory) comes back on that same source, and any process
/// asking which source `sid` reads from is told the same. A switch to a
/// preset also makes it the `.active` preset, so a session with no binding
/// of its own starts on it.
pub proof fn law_resume_restores_source(m: StoreView, sid: Seq<char>, src: SourceView, now: Seq<char>, m2: StoreView, now2: Seq<char>, other: Seq<char>)
    requires
        view_wf(m),
        m.migrated,
        m.session_id == Some(sid),
        m.bindings.len() < MAX_BINDINGS || (m.bindings.contains_key(sid) && m.bindings.len() <= MAX_BINDINGS),
        set_source_post(m, src, now, m2, Ok(())),
        !m2.bindings.contains_key(other),
    ensures
        ({
            let fresh = StoreView { session_id: None, session_source: None, ..m2 };
            &&& source_for_session_spec(fresh, Some(sid)) == src
            &&& activate_post(fresh, sid, now2).1 == Ok::<SourceView, CatalogErr>(src)
            &&& src matches SourceView::Preset(n) ==> {
                let k = preset_key(m, n)->Ok_0;
                &&& default_source_spec(m2) == SourceView::Preset(k)
                &&& activate_post(fresh, other, now2).1 == Ok::<SourceView, CatalogErr>(SourceView::Preset(k))
            }
        }),
{
    let m1 = match src {
        SourceView::Preset(n) => StoreView { marker: Some(marker_for(preset_key(m, n)->Ok_0)), ..m },
        _ => m,
    };
    let ins = m1.bindings.insert(sid, crate::store::BindingView { source: src, updated: now });
    assert(ins.len() <= MAX_BINDINGS) by {
        if m.bindings.contains_key(sid) {
            assert(ins.dom() =~= m.bindings.dom());
        }
    }
    assert(m2.bindings == ins);
    assert(m2.bindings.contains_key(sid) && m2.bindings[sid].source == src);
    let fresh = StoreView { session_id: None, session_source: None, ..m2 };
    assert(ensure_migrated_post(fresh, now2) == (fresh, Ok::<(), CatalogErr>(())));
    match src {
        SourceView::Preset(n) => {
            let k = preset_key(m, n)->Ok_0;
            assert(valid_name(k));
            lemma_key_of_key(m2, k);
            lemma_key_of_key(fresh, k);
            lemma_trim_valid_name(k);
            assert(marker_name(m2) == Some(k));
            assert(preset_key(fresh, n) == preset_key(m, n));
        },
        _ => {},
    }
}

/// Saving or updating a preset replaces its whole set of overrides with a
/// snapshot of the session's source: afterwards each file of the preset is
/// exactly the non-blank override of the same prompt in that source, and is
/// absent where the source has none, whatever the preset held before.
pub proof fn law_save_preset_replaces_its_files(m: StoreView, name: Seq<char>, mode: PresetWriteMode, now: Seq<char>, m2: StoreView)
    requires
        view_wf(m),
        save_preset_post(m, name, mode, now, m2, Ok(())),
        source_location(m, session_source_spec(m)) is Some,
        source_location(m, session_source_spec(m)) != Some(Location::Preset(preset_key(m, name)->Ok_0)),
    ensures
        ({
            let k = preset_key(m, name)->Ok_0;
            let src = source_location(m, session_source_spec(m))->0;
            forall|i: int| 0 <= i < 7 ==> #[trigger] files_at(m2, Location::Preset(k))[i] == override_body(files_at(m, src)[i])
        }),
{
    let k = preset_key(m, name)->Ok_0;
    let src = source_location(m, session_source_spec(m))->0;
    let m1 = crate::semantics::copy_into(m, src, k);
    let ms = crate::semantics::stamp(m1, k, now);
    assert(valid_name(k));
    lemma_key_of_key(ms, k);
    assert(ms.presets.contains_key(k));
    assert(m2.presets == ms.presets);
}

/// Saving or updating a preset from the session's source leaves what the
/// session sees unchanged: once the session is moved onto the preset, every
/// prompt resolves to the same body, override or not, as before the save.
pub proof fn law_save_preset_keeps_what_the_session_sees(m: StoreView, name: Seq<char>, mode: PresetWriteMode, now: Seq<char>, m2: StoreView, id: PromptId)
    requires
        view_wf(m),
        save_preset_post(m, name, mode, now, m2, Ok(())),
        source_location(m, session_source_spec(m)) is Some,
    ensures
        effective_spec(m2, None, id).body == effective_spec(m, None, id).body,
        effective_spec(m2, None, id).is_override == effective_spec(m, None, id).is_override,
{
    let k = preset_key(m, name)->Ok_0;
    let src = source_location(m, session_source_spec(m))->0;
    assert(valid_name(k));
    let m1 = if src != Location::Preset(k) {
        crate::semantics::copy_into(m, src, k)
    } else {
        crate::semantics::with_dir(m, k)
    };
    let ms = crate::semantics::stamp(m1, k, now);
    lemma_key_of_key(ms, k);
    lemma_key_of_key(m2, k);
    assert(ms.presets.contains_key(k));
    assert(m2.presets == ms.presets);
    assert(m2.session_source == Some(SourceView::Preset(k)));
    assert(source_location(m2, session_source_spec(m2)) == Some(Location::Preset(k)));
    let i = crate::catalog::id_index(id) as int;
    if src != Location::Preset(k) {
        assert(files_at(m2, Location::Preset(k))[i] == override_body(files_at(m, src)[i]));
        match files_at(m, src)[i] {
            Some(b) => {},
            None => {},
        }
    } else {
        assert(files_at(m2, Location::Preset(k))[i] == files_at(m, src)[i]);
    }
}

/// The preview of the selected prompt shows the body the session actually
/// resolves that prompt to: its override when it has one, else the
/// built-in default.
pub proof fn law_preview_shows_the_resolved_body(s: PromptsModalState, m: StoreView)
    requires
        s.tab == PromptsTab::Catalog,
        selected_entry_spec(s) matches Some(e) && !e.is_header && e.id is Some,
    ensures
        preview_spec(s, m) matches Some(p) && seq_contains(
            p,
            effective_spec(m, None, selected_entry_spec(s)->0.id->0).body,
        ),
{
    let id = selected_entry_spec(s)->0.id->0;
    lemma_catalog_preview_holds_body(id, effective_spec(m, None, id), crate::store::opt_view(s.active_preset));
}

/// The browser's filter never hides a prompt whose title, file name or
/// description contains the query, ignoring case: its row stays among the
/// positions shown.
pub proof fn law_filter_keeps_every_matching_prompt(es: Seq<EntryView>, query: Seq<char>, i: int)
    requires
        es.len() <= usize::MAX,
        0 <= i < es.len(),
        !es[i].is_header,
        es[i].id matches Some(id) && (
            seq_contains(id_name(id), lowercase_of(query))
            || seq_contains(lowercase_of(es[i].label), lowercase_of(query))
            || seq_contains(desc_lower_of(es[i]), lowercase_of(query))
        ),
    ensures
        filtered_spec(es, query).contains(i as usize),
{
    if query.len() == 0 {
        let all = Seq::new(es.len(), |k: int| k as usize);
        assert(all[i] == i as usize);
        assert(filtered_spec(es, query) == all);
    } else {
        let needle = lowercase_of(query);
        let ls = Seq::new(es.len(), |k: int| lowercase_of(es[k].label));
        let ds = Seq::new(es.len(), |k: int| desc_lower_of(es[k]));
        assert(ls[i] == lowercase_of(es[i].label) && ds[i] == desc_lower_of(es[i]));
        lemma_filter_prefix_keeps_match(es, needle, ls, ds, es.len(), i);
    }
}

/// Opening the external editor from a modified in-browser edit keeps the
/// typed text: it is saved first, so the editor is handed the file of the
/// prompt holding that text, and the session resolves the prompt to it.
pub proof fn law_external_editor_keeps_typed_text(s: PromptsModalState, m: StoreView, key: KeyInput, text: Seq<char>, now: Seq<char>, t: PromptsModalState, m2: StoreView, out: OutcomeView)
    requires
        view_wf(m),
        s.mode matches PromptsModalMode::Editing { dirty, .. } && dirty,
        key.code == KeyCode::Char('e'),
        key.control,
        !key.release,
        writable_location(m) is Ok,
        !is_blank_seq(text),
        trim_seq(text) != trim_seq(default_body_spec(s.mode->id)),
        key_post(s, m, key, text, now, t, m2, out),
    ensures
        effective_spec(m2, None, s.mode->id).body == text,
        effective_spec(m2, None, s.mode->id).is_override,
        out is SuspendForEditor,
{
    let id = s.mode->id;
    let loc = writable_location(m)->Ok_0;
    law_saved_override_is_read_back(m, id, text, now);
    lemma_write_keeps_source(m, loc, id, Some(text), now);
    let ma = save_override_post(m, id, text, now).0;
    assert(crate::semantics::materialize_post(ma, id, now).0 == ma);
}

/// The Presets tab's filter never hides a preset whose name or description
/// contains the query, ignoring case.
pub proof fn law_filter_keeps_every_matching_preset(ps: Seq<PresetInfoView>, query: Seq<char>, i: int)
    requires
        ps.len() <= usize::MAX,
        0 <= i < ps.len(),
        seq_contains(lowercase_of(ps[i].name), lowercase_of(query)) || (ps[i].description matches Some(d)
            && seq_contains(lowercase_of(d), lowercase_of(query))),
    ensures
        filtered_presets(ps, query).contains(i as usize),
{
    if query.len() == 0 {
        let all = Seq::new(ps.len(), |k: int| k as usize);
        assert(all[i] == i as usize);
    } else {
        lemma_matching_presets_keeps(ps, lowercase_of(query), ps.len(), i);
    }
}

/// With a query typed, the browser's filter shows only category headers and
/// prompts whose title, file name or description contains the query,
/// ignoring case.
pub proof fn law_filter_shows_only_matching_prompts(es: Seq<EntryView>, query: Seq<char>, j: int)
    requires
        es.len() <= usize::MAX,
        query.len() > 0,
        0 <= j < filtered_spec(es, query).len(),
    ensures
        ({
            let i = filtered_spec(es, query)[j] as int;
            let q = lowercase_of(query);
            &&& 0 <= i < es.len()
            &&& es[i].is_header || seq_contains(lowercase_of(es[i].label), q) || (es[i].id matches Some(id) && (
                seq_contains(id_name(id), q) || seq_contains(desc_lower_of(es[i]), q)
            ))
        }),
{
    let needle = lowercase_of(query);
    let ls = Seq::new(es.len(), |k: int| lowercase_of(es[k].label));
    let ds = Seq::new(es.len(), |k: int| desc_lower_of(es[k]));
    lemma_filter_prefix_sound(es, needle, ls, ds, es.len());
    let kept = crate::browser::filter_prefix(es, needle, ls, ds, es.len()).0;
    assert(filtered_spec(es, query) == kept);
    let i = kept[j] as int;
    assert(i < es.len() && (es[i].is_header || crate::browser::row_matches(es[i], needle, ls[i], ds[i])));
    assert(ls[i] == lowercase_of(es[i].label) && ds[i] == desc_lower_of(es[i]));
}

/// With a query typed, the Presets tab shows only presets whose name or
/// description contains the query, ignoring case.
pub proof fn law_filter_shows_only_matching_presets(ps: Seq<PresetInfoView>, query: Seq<char>, j: int)
    requires
        ps.len() <= usize::MAX,
        query.len() > 0,
        0 <= j < filtered_presets(ps, query).len(),
    ensures
        ({
            let i = filtered_presets(ps, query)[j] as int;
            let q = lowercase_of(query);
            &&& 0 <= i < ps.len()
            &&& seq_contains(lowercase_of(ps[i].name), q) || (ps[i].description matches Some(d)
                && seq_contains(lowercase_of(d), q))
        }),
{
    lemma_matching_presets_sound(ps, lowercase_of(query), ps.len());
}

/// A new session starts on the last used preset: after a preset is applied
/// anywhere, a session with no binding of its own resolves through it.
pub proof fn law_new_session_starts_on_last_used(m: StoreView, name: Seq<char>, now: Seq<char>, m2: StoreView, other: Seq<char>)
    requires
        view_wf(m),
        apply_post(m, name, now, m2, Ok(())),
        !m2.bindings.contains_key(other),
    ensures
        ({
            let k = preset_key(m, name)->Ok_0;
            let fresh = StoreView { session_id: None, session_source: None, ..m2 };
            &&& default_source_spec(m2) == SourceView::Preset(k)
            &&& source_for_session_spec(fresh, Some(other)) == SourceView::Preset(k)
        }),
{
    let k = preset_key(m, name)->Ok_0;
    assert(valid_name(k));
    lemma_trim_valid_name(k);
    assert(m2.marker == Some(marker_for(k)));
    assert(marker_name(m2) == Some(k));
    lemma_key_of_key(m2, k);
    let fresh = StoreView { session_id: None, session_source: None, ..m2 };
    lemma_key_of_key(fresh, k);
}

/// Running on the built-in defaults is not destructive: no preset, scratch
/// file or marker changes, and every prompt then resolves to its default.
pub proof fn law_defaults_only_is_not_destructive(m: StoreView, now: Seq<char>, m2: StoreView, r: Result<(), CatalogErr>, id: PromptId)
    requires
        view_wf(m),
        set_source_post(m, SourceView::Defaults, now, m2, r),
    ensures
        m2.presets == m.presets,
        m2.scratch == m.scratch,
        m2.marker == m.marker,
        r is Ok ==> session_source_spec(m2) == SourceView::Defaults,
        r is Ok ==> effective_spec(m2, None, id).body == default_body_spec(id),
{
}

/// Session bindings stay within the limit: setting the source never leaves
/// more than the limit stored when there were no more than that before.
pub proof fn law_bindings_stay_bounded(m: StoreView, src: SourceView, now: Seq<char>, m2: StoreView, r: Result<(), CatalogErr>)
    requires
        view_wf(m),
        m.bindings.len() <= MAX_BINDINGS,
        set_source_post(m, src, now, m2, r),
    ensures
        m2.bindings.len() <= MAX_BINDINGS,
{
}

// ── Presets ────────────────────────────────────────────────────────────────

/// The scratch overrides are promoted once: after a successful migration a
/// second one changes nothing, and the scratch files themselves are left
/// where they were.
pub proof fn law_migration_runs_once(m: StoreView, now: Seq<char>, now2: Seq<char>)
    requires
        view_wf(m),
        ensure_migrated_post(m, now).1 is Ok,
    ensures
        ensure_migrated_post(m, now).0.migrated,
        ensure_migrated_post(m, now).0.scratch == m.scratch,
        ensure_migrated_post(ensure_migrated_post(m, now).0, now2) == (ensure_migrated_post(m, now).0, Ok::<(), CatalogErr>(())),
{
}

/// Migration keeps what was chosen: an existing `.active` marker is never
/// replaced, and no existing preset is overwritten (short of every name
/// from `perso` to `perso-999` being taken already).
pub proof fn law_migration_keeps_presets_and_marker(m: StoreView, now: Seq<char>)
    requires
        view_wf(m),
        ensure_migrated_post(m, now).1 is Ok,
        !(preset_exists_spec(m, suggest_base("perso"@)) && forall|j: nat|
            2 <= j < 1000 ==> #[trigger] preset_exists_spec(m, candidate(suggest_base("perso"@), j))),
    ensures
        marker_name(m) is Some ==> ensure_migrated_post(m, now).0.marker == m.marker,
        forall|n: Seq<char>| #[trigger] m.presets.contains_key(n) ==> ensure_migrated_post(m, now).0.presets.contains_key(n)
            && ensure_migrated_post(m, now).0.presets[n] == m.presets[n],
{
    if !m.migrated && scratch_has_overrides(m) {
        let k = preset_key(m, suggest_spec(m, "perso"@))->Ok_0;
        law_suggestion_is_free(m, "perso"@);
        assert(!preset_exists_spec(m, suggest_spec(m, "perso"@)));
        assert(!m.presets.contains_key(k));
    }
}

/// When every candidate from `i` on is taken, `first_free` falls back to `b`.
proof fn lemma_first_free_exhausted(m: StoreView, b: Seq<char>, i: nat)
    ensures
        preset_exists_spec(m, first_free(m, b, i)) ==> first_free(m, b, i) == b && forall|j: nat|
            i <= j < 1000 ==> #[trigger] preset_exists_spec(m, candidate(b, j)),
    decreases 1000 - i,
{
    if i < 1000 && preset_exists_spec(m, candidate(b, i)) {
        lemma_first_free_exhausted(m, b, i + 1);
    }
}

/// The suggested preset name is free: it names no existing preset, unless
/// the base name and all of `base-2` … `base-999` are taken, in which case
/// the base name comes back.
pub proof fn law_suggestion_is_free(m: StoreView, base: Seq<char>)
    ensures
        preset_exists_spec(m, suggest_spec(m, base)) ==> suggest_spec(m, base) == suggest_base(base)
            && forall|j: nat| 2 <= j < 1000 ==> #[trigger] preset_exists_spec(m, candidate(suggest_base(base), j)),
{
    let b = suggest_base(base);
    if preset_exists_spec(m, b) {
        lemma_first_free_exhausted(m, b, 2);
    }
}

/// Deleting a preset forgets it everywhere: the preset is gone, no session
/// binding points at it any more, the `.active` marker no longer names it,
/// and every other preset is untouched.
pub proof fn law_delete_forgets_preset(m: StoreView, name: Seq<char>)
    requires
        view_wf(m),
        delete_post(m, name).1 is Ok,
    ensures
        ({
            let k = preset_key(m, name)->Ok_0;
            let m2 = delete_post(m, name).0;
            &&& !m2.presets.contains_key(k)
            &&& forall|s: Seq<char>| #[trigger] m2.bindings.contains_key(s) ==> m2.bindings[s].source != SourceView::Preset(k)
                && m.bindings.contains_key(s) && m2.bindings[s] == m.bindings[s]
            &&& forall|s: Seq<char>| #[trigger] m.bindings.contains_key(s) && m.bindings[s].source != SourceView::Preset(k)
                ==> m2.bindings.contains_key(s)
            &&& marker_name(m2) != Some(k)
            &&& forall|n: Seq<char>| n != k && #[trigger] m.presets.contains_key(n) ==> m2.presets.contains_key(n) && m2.presets[n] == m.presets[n]
            &&& m2.presets.dom() =~= m.presets.dom().remove(k)
            &&& m2.scratch == m.scratch
        }),
{
}

/// Renaming a preset keeps its bodies and carries everything that pointed at
/// it: the old name is gone, the new one holds the same files, bindings to
/// the old name now point at the new one (no binding is added or lost), and
/// the `.active` marker follows.
pub proof fn law_rename_carries_bodies_and_bindings(m: StoreView, old: Seq<char>, new: Seq<char>, now: Seq<char>)
    requires
        view_wf(m),
        rename_post(m, old, new, now).1 is Ok,
        validated(old) != validated(new),
    ensures
        ({
            let o = validated(old)->Ok_0;
            let n = validated(new)->Ok_0;
            let m2 = rename_post(m, old, new, now).0;
            &&& !m2.presets.contains_key(o)
            &&& m2.presets.contains_key(n)
            &&& m2.presets[n].files == m.presets[o].files
            &&& m2.bindings.dom() =~= m.bindings.dom()
            &&& forall|s: Seq<char>| #[trigger] m.bindings.contains_key(s) ==> (m.bindings[s].source == SourceView::Preset(o)
                ==> m2.bindings[s].source == SourceView::Preset(n)) && (m.bindings[s].source != SourceView::Preset(o)
                ==> m2.bindings[s] == m.bindings[s])
            &&& marker_name(m) == Some(o) ==> marker_name(m2) == Some(n)
            &&& forall|p: Seq<char>| p != o && p != n && #[trigger] m.presets.contains_key(p) ==> m2.presets.contains_key(p) && m2.presets[p] == m.presets[p]
        }),
{
    let n = validated(new)->Ok_0;
    let m2 = rename_post(m, old, new, now).0;
    if marker_name(m) == Some(validated(old)->Ok_0) {
        lemma_trim_valid_name(n);
    }
}

/// Duplicating a preset leaves the session where it was: the source, the
/// bindings and the marker are unchanged, the original is untouched, and the
/// copy holds the original's override bodies.
pub proof fn law_duplicate_keeps_session(m: StoreView, src: Seq<char>, dest: Seq<char>, now: Seq<char>)
    requires
        view_wf(m),
        duplicate_post(m, src, dest, now).1 is Ok,
    ensures
        ({
            let s = validated(src)->Ok_0;
            let d = validated(dest)->Ok_0;
            let m2 = duplicate_post(m, src, dest, now).0;
            &&& m2.session_source == m.session_source
            &&& m2.bindings == m.bindings
            &&& m2.marker == m.marker
            &&& m2.presets[s] == m.presets[s]
            &&& forall|i: int| 0 <= i < 7 ==> #[trigger] m2.presets[d].files[i] == override_body(m.presets[s].files[i])
        }),
{
}

/// Two sessions run two presets at once: applying a preset in one session
/// leaves another session, bound to a preset that still exists, reading from
/// its own preset (while fewer than the binding limit are stored).
pub proof fn law_sessions_keep_their_own_preset(m: StoreView, name: Seq<char>, now: Seq<char>, m2: StoreView, r: Result<(), CatalogErr>, other: Seq<char>)
    requires
        view_wf(m),
        apply_post(m, name, now, m2, r),
        m.session_id != Some(other),
        m.bindings.contains_key(other),
        m.bindings.len() < MAX_BINDINGS,
        m.bindings[other].source matches SourceView::Preset(p) && preset_exists_spec(m, p),
    ensures
        source_for_session_spec(StoreView { session_id: None, session_source: None, ..m2 }, Some(other))
            == m.bindings[other].source,
{
    law_apply_leaves_other_sessions(m, name, now, m2, r, other);
    let fresh = StoreView { session_id: None, session_source: None, ..m2 };
    let p = m.bindings[other].source->Preset_0;
    assert(m2.presets == m.presets);
    assert(preset_exists_spec(fresh, p));
}

// ── Browser and commands ───────────────────────────────────────────────────

proof fn lemma_next_row_selectable(s: PromptsModalState, from: int)
    ensures
        next_row(s, from) matches Some(k) ==> selectable(s, k) && from <= k
            && forall|j: int| from <= j < k ==> !#[trigger] selectable(s, j),
    decreases s.filtered_cache@.len() - from,
{
    if 0 <= from < s.filtered_cache@.len() && !selectable(s, from) {
        lemma_next_row_selectable(s, from + 1);
    }
}

proof fn lemma_prev_row_selectable(s: PromptsModalState, from: int)
    ensures
        prev_row(s, from) matches Some(k) ==> selectable(s, k) && k <= from
            && forall|j: int| k < j <= from ==> !#[trigger] selectable(s, j),
    decreases from + 1,
{
    if 0 <= from < s.filtered_cache@.len() && !selectable(s, from) {
        lemma_prev_row_selectable(s, from - 1);
    }
}

/// Stepping down from `from` finds `b` when `b` is the first prompt row at
/// or after `from`.
proof fn lemma_next_row_finds(s: PromptsModalState, from: int, b: int)
    requires
        0 <= from <= b,
        selectable(s, b),
        forall|j: int| from <= j < b ==> !#[trigger] selectable(s, j),
    ensures
        next_row(s, from) == Some(b),
    decreases b - from,
{
    if from < b {
        assert(!selectable(s, from));
        lemma_next_row_finds(s, from + 1, b);
    }
}

/// Stepping up from `from` finds `a` when `a` is the last prompt row at or
/// before `from`.
proof fn lemma_prev_row_finds(s: PromptsModalState, from: int, a: int)
    requires
        0 <= a <= from < s.filtered_cache@.len(),
        selectable(s, a),
        forall|j: int| a < j <= from ==> !#[trigger] selectable(s, j),
    ensures
        prev_row(s, from) == Some(a),
    decreases from - a,
{
    if a < from {
        assert(!selectable(s, from));
        lemma_prev_row_selectable(s, from);
        lemma_prev_row_finds(s, from - 1, a);
    }
}

/// Moving the selection one step down and then one step up brings it back
/// where it was, on either tab (on the Catalog tab, from a prompt row): the
/// up step is the exact mirror of the down step.
pub proof fn law_down_then_up_returns(s: PromptsModalState)
    requires
        next_spec(s).1,
        s.tab == PromptsTab::Catalog ==> selectable(s, s.selected as int),
    ensures
        prev_spec(next_spec(s).0).1,
        prev_spec(next_spec(s).0).0 == s,
{
    let t = next_spec(s).0;
    assert(s.filtered_cache.len() == s.filtered_cache@.len());
    match s.tab {
        PromptsTab::Catalog => {
            lemma_next_row_selectable(s, s.selected + 1);
            let k = next_row(s, s.selected + 1)->0;
            assert(forall|j: int| #[trigger] selectable(t, j) == selectable(s, j));
            lemma_prev_row_finds(t, k - 1, s.selected as int);
        },
        PromptsTab::Presets => {},
    }
}

/// Moving the selection one step up and then one step down brings it back
/// where it was, on either tab (on the Catalog tab, from a prompt row; on
/// the Presets tab, from a shown preset).
pub proof fn law_up_then_down_returns(s: PromptsModalState)
    requires
        prev_spec(s).1,
        s.tab == PromptsTab::Catalog ==> selectable(s, s.selected as int),
        s.tab == PromptsTab::Presets ==> s.selected < s.filtered_cache@.len(),
    ensures
        next_spec(prev_spec(s).0).1,
        next_spec(prev_spec(s).0).0 == s,
{
    let t = prev_spec(s).0;
    match s.tab {
        PromptsTab::Catalog => {
            lemma_prev_row_selectable(s, s.selected - 1);
            let k = prev_row(s, s.selected - 1)->0;
            assert(forall|j: int| #[trigger] selectable(t, j) == selectable(s, j));
            lemma_next_row_finds(t, k + 1, s.selected as int);
        },
        PromptsTab::Presets => {},
    }
}

/// Moving through the catalog list never lands on a category header:
/// stepping down or up, or skipping past the headers, leaves the selection
/// on a prompt row whenever it moves.
pub proof fn law_navigation_never_selects_a_header(s: PromptsModalState)
    requires
        s.tab == PromptsTab::Catalog,
    ensures
        next_spec(s).1 ==> selectable(next_spec(s).0, next_spec(s).0.selected as int),
        prev_spec(s).1 ==> selectable(prev_spec(s).0, prev_spec(s).0.selected as int),
        next_row(s, 0) is Some ==> selectable(past_headers(s), past_headers(s).selected as int),
{
    assert(s.filtered_cache.len() == s.filtered_cache@.len());
    lemma_next_row_selectable(s, s.selected + 1);
    lemma_next_row_selectable(s, 0);
    if s.selected > 0 {
        lemma_prev_row_selectable(s, s.selected - 1);
    }
}

/// `/prompts` with nothing but blanks opens the browser and changes nothing,
/// whatever the session.
pub proof fn law_blank_prompts_opens_the_browser(m: StoreView, sid: Option<Seq<char>>, args: Seq<char>, now: Seq<char>, m2: StoreView, out: CommandOutcome)
    requires
        prompts_post(m, sid, args, now, m2, out),
        is_blank_seq(args),
    ensures
        m2 == m,
        out == CommandOutcome::Action(ActionView::OpenPromptsModal),
{
}

} // verus!
