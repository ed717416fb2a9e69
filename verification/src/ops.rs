//! The catalog operations: reading prompt bodies, editing overrides, managing
//! presets and binding sessions to a prompt source. Each follows the
//! specification of the same name in [`crate::semantics`].
use vstd::prelude::*;

use crate::catalog::{default_body, PromptId};
use crate::model::{CatalogErr, PromptCatalogError, PromptSource, SourceView};
use crate::names::{valid_name, validate_preset_name};
use crate::keyed::{
    lemma_lt_irreflexive, lemma_lt_total, lemma_lt_transitive, lemma_map_at, lemma_map_len,
    lemma_map_remove, lemma_sorted_distinct, seq_lt, sorted_keys, str_lt, to_map,
};
use crate::model::{
    infos_view, source_preset_name, EffectivePrompt, PresetWriteMode, PromptPresetInfo,
};
use crate::clock::now_rfc3339;
use crate::semantics::{
    activate_post, apply_post, binding_before, candidate, clear_all_post, count_overrides,
    default_source_spec, delete_post, duplicate_post, effective_spec, ensure_migrated_post,
    files_at, first_free, info_matches, listed, load_override_spec, marker_for, materialize_post,
    override_body, override_path_spec, preset_exists_spec, presets_root_of, prompts_dir_of, pruned,
    rename_one, rename_post, renamed, reset_override_post, save_override_post, save_preset_post,
    scratch_has_overrides, session_source_spec, set_description_post, set_source_post,
    source_for_session_spec, suggest_spec, touched, with_dir, with_file, with_meta, without_source,
    Location, MAX_BINDINGS,
};
use crate::store::{
    find_key, lemma_pairs_sorted, pairs, vec_put, vec_sorted, BindingView, SessionBinding,
};
use crate::store::{
    clone_opt, empty_files, files_view, no_files, opt_view, CatalogStore, PresetDir, PresetMeta,
    StoreView,
};
use crate::text::{decimal, is_blank, join_path, join_seq, str_eq, trim};

verus! {

/// Abstract value of a unit result.
pub open spec fn unit_view(r: Result<(), PromptCatalogError>) -> Result<(), CatalogErr> {
    match r {
        Ok(_) => Ok(()),
        Err(e) => Err(e@),
    }
}

/// Abstract value of a string result.
pub open spec fn string_view(r: Result<String, PromptCatalogError>) -> Result<Seq<char>, CatalogErr> {
    match r {
        Ok(s) => Ok(s@),
        Err(e) => Err(e@),
    }
}

/// A directory of override files.
pub enum Loc {
    Scratch,
    Preset(String),
}

impl View for Loc {
    type V = Location;

    open spec fn view(&self) -> Location {
        match self {
            Loc::Scratch => Location::Scratch,
            Loc::Preset(k) => Location::Preset(k@),
        }
    }
}

/// A location that can be written: a home exists and a preset has a valid name.
pub open spec fn loc_ok(m: StoreView, loc: Location) -> bool {
    &&& m.home is Some
    &&& loc matches Location::Preset(k) ==> valid_name(k)
}

fn preset_key(store: &CatalogStore, name: &str) -> (r: Result<String, PromptCatalogError>)
    ensures
        string_view(r) == crate::semantics::preset_key(store@, name@),
        r matches Ok(k) ==> valid_name(k@) && store@.home is Some,
{
    match validate_preset_name(name) {
        Err(e) => Err(e),
        Ok(k) => if store.home().is_some() {
            Ok(k)
        } else {
            Err(PromptCatalogError::NoGrokHome)
        },
    }
}

/// Whether a preset with this name exists.
pub fn preset_exists(store: &CatalogStore, name: &str) -> (b: bool)
    ensures
        b == preset_exists_spec(store@, name@),
{
    match preset_key(store, name) {
        Ok(k) => store.preset(k.as_str()).is_some(),
        Err(_) => false,
    }
}

fn marker_name(store: &CatalogStore) -> (r: Option<String>)
    ensures
        opt_view(r) == crate::semantics::marker_name(store@),
{
    match store.marker() {
        Some(raw) => {
            let t = trim(raw.as_str());
            if t.unicode_len() == 0 {
                None
            } else {
                Some(String::from_str(t))
            }
        },
        None => None,
    }
}

fn default_source(store: &CatalogStore) -> (s: PromptSource)
    ensures
        s@ == default_source_spec(store@),
{
    match marker_name(store) {
        Some(n) => if preset_exists(store, n.as_str()) {
            PromptSource::Preset(n)
        } else {
            PromptSource::Scratch
        },
        None => PromptSource::Scratch,
    }
}

/// The source this session resolves prompt bodies from.
pub fn session_source(store: &CatalogStore) -> (s: PromptSource)
    ensures
        s@ == session_source_spec(store@),
{
    match store.session_source() {
        Some(s) => s.duplicate(),
        None => default_source(store),
    }
}

fn source_location(store: &CatalogStore, s: &PromptSource) -> (r: Option<Loc>)
    ensures
        match r {
            Some(l) => crate::semantics::source_location(store@, s@) == Some(l@) && loc_ok(store@, l@),
            None => crate::semantics::source_location(store@, s@) is None,
        },
{
    match s {
        PromptSource::Defaults => None,
        PromptSource::Scratch => if store.home().is_some() {
            Some(Loc::Scratch)
        } else {
            None
        },
        PromptSource::Preset(n) => match preset_key(store, n.as_str()) {
            Ok(k) => Some(Loc::Preset(k)),
            Err(_) => None,
        },
    }
}

fn writable_location(store: &CatalogStore) -> (r: Result<Loc, PromptCatalogError>)
    ensures
        match (r, crate::semantics::writable_location(store@)) {
            (Ok(l), Ok(x)) => l@ == x && loc_ok(store@, x),
            (Err(e), Err(f)) => e@ == f,
            _ => false,
        },
{
    match session_source(store) {
        PromptSource::Defaults => Err(PromptCatalogError::ReadOnlySource),
        PromptSource::Scratch => if store.home().is_some() {
            Ok(Loc::Scratch)
        } else {
            Err(PromptCatalogError::NoGrokHome)
        },
        PromptSource::Preset(n) => match preset_key(store, n.as_str()) {
            Ok(k) => Ok(Loc::Preset(k)),
            Err(e) => Err(e),
        },
    }
}

/// Directory that holds the unnamed scratch overrides (`<home>/prompts`).
pub fn prompts_dir(store: &CatalogStore) -> (r: Option<String>)
    ensures
        opt_view(r) == match store@.home {
            Some(h) => Some(prompts_dir_of(h)),
            None => None,
        },
{
    match store.home() {
        Some(h) => Some(join_path(h.as_str(), "prompts")),
        None => None,
    }
}

/// Directory that holds the named presets (`<home>/prompt-presets`).
pub fn presets_root(store: &CatalogStore) -> (r: Option<String>)
    ensures
        opt_view(r) == match store@.home {
            Some(h) => Some(presets_root_of(h)),
            None => None,
        },
{
    match store.home() {
        Some(h) => Some(join_path(h.as_str(), "prompt-presets")),
        None => None,
    }
}

fn file_name(id: PromptId) -> (r: String)
    ensures
        r@ == crate::semantics::file_name(id),
{
    String::from_str(id.as_str()).concat(".md")
}

fn location_dir(home: &str, loc: &Loc) -> (r: String)
    ensures
        r@ == crate::semantics::location_dir(home@, loc@),
{
    match loc {
        Loc::Scratch => join_path(home, "prompts"),
        Loc::Preset(k) => {
            let root = join_path(home, "prompt-presets");
            join_path(root.as_str(), k.as_str())
        },
    }
}

fn file_path(store: &CatalogStore, loc: &Loc, id: PromptId) -> (r: String)
    requires
        store@.home is Some,
    ensures
        r@ == crate::semantics::file_path(store@, loc@, id),
{
    let home = store.home();
    match home {
        Some(h) => {
            let dir = location_dir(h.as_str(), loc);
            join_path(dir.as_str(), file_name(id).as_str())
        },
        None => String::new(),
    }
}

/// Override path of `id` under an explicit home directory (`<home>/prompts/<id>.md`).
pub fn override_path_in(home: &str, id: PromptId) -> (r: String)
    ensures
        r@ == join_seq(prompts_dir_of(home@), crate::semantics::file_name(id)),
{
    let dir = join_path(home, "prompts");
    join_path(dir.as_str(), file_name(id).as_str())
}

fn file_at<'a>(store: &'a CatalogStore, loc: &Loc, id: PromptId) -> (r: Option<&'a String>)
    ensures
        match r {
            Some(c) => crate::semantics::file_at(store@, loc@, id) == Some(c@),
            None => crate::semantics::file_at(store@, loc@, id) is None,
        },
{
    store.wf_holds();
    let i = id.index();
    match loc {
        Loc::Scratch => {
            let f = store.scratch_file(i);
            match f {
                Some(c) => Some(c),
                None => None,
            }
        },
        Loc::Preset(k) => match store.preset(k.as_str()) {
            Some(d) => {
                assert(d@.files.len() == 7);
                assert(d@.files[i as int] == opt_view(d.files@[i as int]));
                match &d.files[i] {
                    Some(c) => Some(c),
                    None => None,
                }
            },
            None => None,
        },
    }
}

fn override_body_of(c: Option<&String>) -> (r: Option<String>)
    ensures
        opt_view(r) == override_body(
            match c {
                Some(s) => Some(s@),
                None => None,
            },
        ),
{
    match c {
        Some(s) => if is_blank(s.as_str()) {
            None
        } else {
            Some(s.clone())
        },
        None => None,
    }
}

fn preset_or_new(store: &CatalogStore, k: &str) -> (d: PresetDir)
    ensures
        d@ == crate::semantics::preset_or_new(store@, k@),
        valid_name(k@) ==> d@.files.len() == 7,
{
    store.wf_holds();
    match store.preset(k) {
        Some(d) => d.duplicate(),
        None => PresetDir { files: empty_files(), meta: PresetMeta::empty() },
    }
}

fn write_file(store: &mut CatalogStore, loc: &Loc, id: PromptId, c: Option<String>)
    requires
        loc_ok(old(store)@, loc@),
    ensures
        final(store)@ == with_file(old(store)@, loc@, id, opt_view(c)),
{
    let i = id.index();
    match loc {
        Loc::Scratch => {
            store.set_scratch(i, c);
        },
        Loc::Preset(k) => {
            let d = preset_or_new(store, k.as_str());
            let mut files = d.files;
            let ghost before = files@;
            files.set(i, c);
            assert(files_view(files@) =~= files_view(before).update(i as int, opt_view(c)));
            let nd = PresetDir { files, meta: d.meta };
            store.put_preset(k.clone(), nd);
        },
    }
}

fn put_meta(store: &mut CatalogStore, k: &str, meta: PresetMeta)
    requires
        old(store)@.home is Some,
        valid_name(k@),
    ensures
        final(store)@ == with_meta(old(store)@, k@, meta@),
{
    let d = preset_or_new(store, k);
    store.put_preset(String::from_str(k), PresetDir { files: d.files, meta });
}

fn stamp(store: &mut CatalogStore, k: &str, now: &str)
    requires
        old(store)@.home is Some,
        valid_name(k@),
    ensures
        final(store)@ == crate::semantics::stamp(old(store)@, k@, now@),
{
    let d = preset_or_new(store, k);
    let created = match d.meta.created {
        Some(c) => Some(c),
        None => Some(String::from_str(now)),
    };
    let meta = PresetMeta {
        description: d.meta.description,
        created,
        updated: Some(String::from_str(now)),
    };
    put_meta(store, k, meta);
}

fn touch(store: &mut CatalogStore, now: &str)
    ensures
        final(store)@ == touched(old(store)@, now@),
{
    match session_source(store) {
        PromptSource::Preset(n) => match preset_key(store, n.as_str()) {
            Ok(k) => stamp(store, k.as_str(), now),
            Err(_) => {},
        },
        _ => {},
    }
}

fn copy_into(store: &mut CatalogStore, src: &Loc, k: &str)
    requires
        old(store)@.home is Some,
        valid_name(k@),
    ensures
        final(store)@ == crate::semantics::copy_into(old(store)@, src@, k@),
{
    let mut files: Vec<Option<String>> = Vec::new();
    let mut i: usize = 0;
    while i < 7
        invariant
            i <= 7,
            files@.len() == i,
            forall|j: int|
                0 <= j < i ==> opt_view(#[trigger] files@[j]) == override_body(
                    files_at(store@, src@)[j],
                ),
        decreases 7 - i,
    {
        let id = PromptId::at(i);
        let c = file_at(store, src, id);
        files.push(override_body_of(c));
        i = i + 1;
    }
    let d = preset_or_new(store, k);
    let ghost m = store@;
    assert(files_view(files@) =~= Seq::new(7, |j: int| override_body(files_at(m, src@)[j])));
    store.put_preset(String::from_str(k), PresetDir { files, meta: d.meta });
}


/// Abstract value of an optional string slice.
pub open spec fn str_opt(o: Option<&str>) -> Option<Seq<char>> {
    match o {
        Some(s) => Some(s@),
        None => None,
    }
}

fn binding_for<'a>(store: &'a CatalogStore, key: &str) -> (r: Option<&'a SessionBinding>)
    ensures
        match r {
            Some(b) => store@.bindings.contains_key(key@) && store@.bindings[key@] == b@,
            None => !store@.bindings.contains_key(key@),
        },
{
    let v = store.binding_entries();
    match find_key(v, key) {
        Ok(i) => {
            proof {
                lemma_map_at(pairs(v@), i as int);
            }
            Some(&v[i].1)
        },
        Err(_) => {
            proof {
                let ps = pairs(v@);
                if to_map(ps).dom().contains(key@) {
                    let j = choose|j: int| 0 <= j < ps.len() && #[trigger] ps[j].0 == key@;
                    assert(ps[j].0 == v@[j].0@);
                    lemma_lt_irreflexive(key@);
                }
            }
            None
        },
    }
}

/// The session id this process currently resolves prompts for, if any.
pub fn current_session_id(store: &CatalogStore) -> (r: Option<String>)
    ensures
        opt_view(r) == store@.session_id,
{
    clone_opt(store.session_id())
}

/// Forget the process-level session binding (session teardown).
pub fn deactivate_session(store: &mut CatalogStore)
    ensures
        final(store)@ == (StoreView { session_id: None, session_source: None, ..old(store)@ }),
{
    store.set_session_id(None);
    store.set_session_source(None);
}

/// The source `session_id` resolves through.
///
/// The in-memory source wins for the session this process is bound to; other
/// sessions resolve through their persisted binding, and a binding to a
/// preset that no longer exists falls back to the default source.
pub fn source_for_session(store: &CatalogStore, session_id: Option<&str>) -> (r: PromptSource)
    ensures
        r@ == source_for_session_spec(store@, str_opt(session_id)),
{
    match session_id {
        None => session_source(store),
        Some(s) => {
            match (store.session_id(), store.session_source()) {
                (Some(cur), Some(src)) => {
                    if str_eq(cur.as_str(), s) {
                        return src.duplicate();
                    }
                },
                _ => {},
            }
            match binding_for(store, s) {
                Some(b) => match &b.source {
                    PromptSource::Preset(n) => if preset_exists(store, n.as_str()) {
                        b.source.duplicate()
                    } else {
                        default_source(store)
                    },
                    _ => b.source.duplicate(),
                },
                None => default_source(store),
            }
        },
    }
}

/// Override file path for `id` in the session's source, or `None` when the
/// session runs on pure defaults (or there is no home directory).
pub fn override_path(store: &CatalogStore, id: PromptId) -> (r: Option<String>)
    ensures
        opt_view(r) == override_path_spec(store@, id),
{
    let src = session_source(store);
    match source_location(store, &src) {
        Some(l) => Some(file_path(store, &l, id)),
        None => None,
    }
}

/// The session source's override of `id`, when its file exists and is not blank.
pub fn load_override(store: &CatalogStore, id: PromptId) -> (r: Result<Option<String>, PromptCatalogError>)
    ensures
        r matches Ok(o) && opt_view(o) == load_override_spec(store@, id),
{
    let src = session_source(store);
    match source_location(store, &src) {
        Some(l) => Ok(override_body_of(file_at(store, &l, id))),
        None => Ok(None),
    }
}

/// Effective prompt for one specific session: its non-blank override, else
/// the built-in default.
pub fn effective_prompt_for(store: &CatalogStore, session_id: Option<&str>, id: PromptId) -> (r: Result<EffectivePrompt, PromptCatalogError>)
    ensures
        r matches Ok(e) && e@ == effective_spec(store@, str_opt(session_id), id),
{
    let src = source_for_session(store, session_id);
    match source_location(store, &src) {
        Some(l) => {
            let path = file_path(store, &l, id);
            match override_body_of(file_at(store, &l, id)) {
                Some(body) => Ok(
                    EffectivePrompt { id, body, is_override: true, override_path: Some(path) },
                ),
                None => Ok(
                    EffectivePrompt {
                        id,
                        body: default_body(id),
                        is_override: false,
                        override_path: Some(path),
                    },
                ),
            }
        },
        None => Ok(
            EffectivePrompt { id, body: default_body(id), is_override: false, override_path: None },
        ),
    }
}

/// Effective body = the session source's override if present, else default.
pub fn effective_prompt(store: &CatalogStore, id: PromptId) -> (r: Result<EffectivePrompt, PromptCatalogError>)
    ensures
        r matches Ok(e) && e@ == effective_spec(store@, None, id),
{
    effective_prompt_for(store, None, id)
}

/// Body of `id` for one specific session.
pub fn resolve_body_for(store: &CatalogStore, session_id: Option<&str>, id: PromptId) -> (r: String)
    ensures
        r@ == effective_spec(store@, str_opt(session_id), id).body,
{
    match effective_prompt_for(store, session_id, id) {
        Ok(ep) => ep.body,
        Err(_) => default_body(id),
    }
}

/// Body of `id` for the session this process is bound to.
pub fn resolve_body(store: &CatalogStore, id: PromptId) -> (r: String)
    ensures
        r@ == effective_spec(store@, None, id).body,
{
    resolve_body_for(store, None, id)
}

/// Whether an active (non-empty) override is in effect for `id`; a present
/// but blank file is no override.
pub fn has_override(store: &CatalogStore, id: PromptId) -> (b: bool)
    ensures
        b == (load_override_spec(store@, id) is Some),
{
    match load_override(store, id) {
        Ok(Some(_)) => true,
        _ => false,
    }
}

/// Name of the preset the current session runs on, if any.
pub fn active_preset_name(store: &CatalogStore) -> (r: Result<Option<String>, PromptCatalogError>)
    ensures
        r matches Ok(o) && opt_view(o) == source_preset_name(session_source_spec(store@)),
{
    let src = session_source(store);
    match src.preset_name() {
        Some(n) => Ok(Some(String::from_str(n))),
        None => Ok(None),
    }
}


// ── Editing overrides ──────────────────────────────────────────────────────

/// Delete the override file of `id` in the session's source, stamping a
/// preset's metadata at `now` when a file was removed. No-op if absent.
pub fn reset_override_at(store: &mut CatalogStore, id: PromptId, now: &str) -> (r: Result<(), PromptCatalogError>)
    ensures
        (final(store)@, unit_view(r)) == reset_override_post(old(store)@, id, now@),
{
    let loc = match writable_location(store) {
        Ok(l) => l,
        Err(e) => return Err(e),
    };
    if file_at(store, &loc, id).is_some() {
        write_file(store, &loc, id, None);
        touch(store, now);
    }
    Ok(())
}

/// Delete the override file of `id` in the session's source. No-op if absent.
pub fn reset_override(store: &mut CatalogStore, id: PromptId) -> (r: Result<(), PromptCatalogError>)
    ensures
        exists|t: Seq<char>| (final(store)@, unit_view(r)) == reset_override_post(old(store)@, id, t),
{
    let now = now_rfc3339();
    reset_override_at(store, id, now.as_str())
}

/// Write `body` as the override of `id` in the session's source, stamping a
/// preset's metadata at `now`. A body equal to the built-in default (trimmed)
/// removes the override instead, so later built-in updates keep reaching it.
/// Returns the override's path either way.
pub fn save_override_at(store: &mut CatalogStore, id: PromptId, body: &str, now: &str) -> (r: Result<String, PromptCatalogError>)
    ensures
        (final(store)@, string_view(r)) == save_override_post(old(store)@, id, body@, now@),
{
    let loc = match writable_location(store) {
        Ok(l) => l,
        Err(e) => return Err(e),
    };
    let path = file_path(store, &loc, id);
    let dflt = default_body(id);
    if str_eq(trim(body), trim(dflt.as_str())) {
        let _ = reset_override_at(store, id, now);
        return Ok(path);
    }
    write_file(store, &loc, id, Some(String::from_str(body)));
    touch(store, now);
    Ok(path)
}

/// Write `body` into the session's source (see [`save_override_at`]).
pub fn save_override(store: &mut CatalogStore, id: PromptId, body: &str) -> (r: Result<String, PromptCatalogError>)
    ensures
        exists|t: Seq<char>| (final(store)@, string_view(r)) == save_override_post(old(store)@, id, body@, t),
{
    let now = now_rfc3339();
    save_override_at(store, id, body, now.as_str())
}

/// Put the default body at the override path for an external editor, unless
/// a file is already there (its content is kept). Returns the path.
pub fn materialize_for_edit_at(store: &mut CatalogStore, id: PromptId, now: &str) -> (r: Result<String, PromptCatalogError>)
    ensures
        (final(store)@, string_view(r)) == materialize_post(old(store)@, id, now@),
{
    let loc = match writable_location(store) {
        Ok(l) => l,
        Err(e) => return Err(e),
    };
    let path = file_path(store, &loc, id);
    if file_at(store, &loc, id).is_some() {
        return Ok(path);
    }
    write_file(store, &loc, id, Some(default_body(id)));
    touch(store, now);
    Ok(path)
}

/// Put the default body on disk for an external editor (see [`materialize_for_edit_at`]).
pub fn materialize_for_edit(store: &mut CatalogStore, id: PromptId) -> (r: Result<String, PromptCatalogError>)
    ensures
        exists|t: Seq<char>| (final(store)@, string_view(r)) == materialize_post(old(store)@, id, t),
{
    let now = now_rfc3339();
    materialize_for_edit_at(store, id, now.as_str())
}

/// Delete every override file in the unnamed scratch set; presets are untouched.
pub fn clear_all_overrides(store: &mut CatalogStore) -> (r: Result<(), PromptCatalogError>)
    ensures
        (final(store)@, unit_view(r)) == clear_all_post(old(store)@),
{
    if store.home().is_none() {
        return Err(PromptCatalogError::NoGrokHome);
    }
    store.wf_holds();
    let mut i: usize = 0;
    assert(store@.scratch =~= Seq::new(7, |j: int| if j < 0 { None } else { old(store)@.scratch[j] }));
    while i < 7
        invariant
            i <= 7,
            store@.home is Some,
            store@ == (StoreView {
                scratch: Seq::new(7, |j: int| if j < i { None } else { old(store)@.scratch[j] }),
                ..old(store)@
            }),
        decreases 7 - i,
    {
        store.set_scratch(i, None);
        i = i + 1;
        assert(store@.scratch =~= Seq::new(7, |j: int| if j < i { None } else { old(store)@.scratch[j] }));
    }
    assert(store@.scratch =~= no_files());
    Ok(())
}


// ── Session bindings ───────────────────────────────────────────────────────

proof fn lemma_before_transitive(a: BindingView, ka: Seq<char>, b: BindingView, kb: Seq<char>, c: BindingView, kc: Seq<char>)
    requires
        binding_before(a, ka, b, kb),
        binding_before(b, kb, c, kc),
    ensures
        binding_before(a, ka, c, kc),
{
    if seq_lt(a.updated, b.updated) && seq_lt(b.updated, c.updated) {
        lemma_lt_transitive(a.updated, b.updated, c.updated);
    } else if seq_lt(a.updated, b.updated) {
    } else if seq_lt(b.updated, c.updated) {
    } else {
        lemma_lt_transitive(ka, kb, kc);
    }
}

proof fn lemma_before_total(a: BindingView, ka: Seq<char>, b: BindingView, kb: Seq<char>)
    requires
        ka != kb,
    ensures
        binding_before(a, ka, b, kb) || binding_before(b, kb, a, ka),
{
    lemma_lt_total(a.updated, b.updated);
    lemma_lt_total(ka, kb);
}

fn before(a: &SessionBinding, ka: &str, b: &SessionBinding, kb: &str) -> (r: bool)
    ensures
        r == binding_before(a@, ka@, b@, kb@),
{
    str_lt(a.updated.as_str(), b.updated.as_str()) || (str_eq(a.updated.as_str(), b.updated.as_str())
        && str_lt(ka, kb))
}

/// Index of the oldest binding.
fn oldest(v: &Vec<(String, SessionBinding)>) -> (best: usize)
    requires
        v@.len() > 0,
        vec_sorted(v@),
    ensures
        best < v@.len(),
        forall|j: int|
            0 <= j < v@.len() && j != best ==> binding_before(
                v@[best as int].1@,
                v@[best as int].0@,
                #[trigger] v@[j].1@,
                v@[j].0@,
            ),
{
    let mut best: usize = 0;
    let mut i: usize = 1;
    while i < v.len()
        invariant
            1 <= i <= v@.len(),
            best < i,
            vec_sorted(v@),
            forall|j: int|
                0 <= j < i && j != best ==> binding_before(
                    v@[best as int].1@,
                    v@[best as int].0@,
                    #[trigger] v@[j].1@,
                    v@[j].0@,
                ),
        decreases v.len() - i,
    {
        if before(&v[i].1, v[i].0.as_str(), &v[best].1, v[best].0.as_str()) {
            let ghost old_best = best;
            proof {
                assert forall|j: int| 0 <= j < i + 1 && j != i implies binding_before(
                    v@[i as int].1@,
                    v@[i as int].0@,
                    #[trigger] v@[j].1@,
                    v@[j].0@,
                ) by {
                    if j != old_best {
                        lemma_before_transitive(
                            v@[i as int].1@,
                            v@[i as int].0@,
                            v@[old_best as int].1@,
                            v@[old_best as int].0@,
                            v@[j].1@,
                            v@[j].0@,
                        );
                    }
                }
            }
            best = i;
        } else {
            proof {
                lemma_lt_irreflexive(v@[best as int].0@);
                if best < i {
                    assert(seq_lt(v@[best as int].0@, v@[i as int].0@));
                }
                if v@[best as int].0@ == v@[i as int].0@ {
                    lemma_lt_irreflexive(v@[i as int].0@);
                }
                lemma_before_total(v@[best as int].1@, v@[best as int].0@, v@[i as int].1@, v@[i as int].0@);
            }
        }
        i = i + 1;
    }
    best
}

/// Drop the oldest bindings (by timestamp, then session id) until at most
/// [`MAX_BINDINGS`] remain.
fn prune_bindings(v: &mut Vec<(String, SessionBinding)>)
    requires
        vec_sorted(old(v)@),
    ensures
        vec_sorted(final(v)@),
        pruned(to_map(pairs(old(v)@)), to_map(pairs(final(v)@))),
{
    let ghost old_map = to_map(pairs(v@));
    proof {
        lemma_pairs_sorted(v@);
        lemma_map_len(pairs(v@));
    }
    let n = v.len();
    if n <= MAX_BINDINGS {
        return;
    }
    let excess = n - MAX_BINDINGS;
    let mut removed: usize = 0;
    let ghost mut gone: Set<Seq<char>> = Set::empty();
    assert(to_map(pairs(v@)) =~= Map::new(
        |k: Seq<char>| old_map.contains_key(k) && !gone.contains(k),
        |k: Seq<char>| old_map[k],
    ));
    while removed < excess
        invariant
            removed <= excess,
            excess == n - MAX_BINDINGS,
            n == old_map.len(),
            vec_sorted(v@),
            v@.len() == n - removed,
            to_map(pairs(v@)) == Map::new(
                |k: Seq<char>| old_map.contains_key(k) && !gone.contains(k),
                |k: Seq<char>| old_map[k],
            ),
            gone.subset_of(old_map.dom()),
            forall|r: Seq<char>, k: Seq<char>|
                gone.contains(r) && #[trigger] to_map(pairs(v@)).contains_key(k) ==> binding_before(
                    #[trigger] old_map[r],
                    r,
                    old_map[k],
                    k,
                ),
        decreases excess - removed,
    {
        let best = oldest(v);
        let ghost ps = pairs(v@);
        let ghost kb = v@[best as int].0@;
        let ghost cur = to_map(ps);
        proof {
            lemma_pairs_sorted(v@);
            lemma_map_at(ps, best as int);
            lemma_map_remove(ps, best as int);
            assert(ps[best as int].0 == kb);
            assert forall|k: Seq<char>| #[trigger] cur.contains_key(k) && k != kb implies binding_before(
                old_map[kb],
                kb,
                old_map[k],
                k,
            ) by {
                let j = choose|j: int| 0 <= j < ps.len() && #[trigger] ps[j].0 == k;
                lemma_map_at(ps, j);
                assert(ps[j] == (v@[j].0@, v@[j].1@));
            }
        }
        let ghost old_v = v@;
        v.remove(best);
        proof {
            assert(pairs(v@) =~= ps.remove(best as int));
            crate::store::lemma_vec_remove_sorted_pub(old_v, best as int);
            gone = gone.insert(kb);
            assert(to_map(pairs(v@)) =~= Map::new(
                |k: Seq<char>| old_map.contains_key(k) && !gone.contains(k),
                |k: Seq<char>| old_map[k],
            ));
        }
        removed = removed + 1;
    }
    proof {
        let newm = to_map(pairs(v@));
        lemma_pairs_sorted(v@);
        lemma_map_len(pairs(v@));
        assert(newm.dom().subset_of(old_map.dom()));
    }
}


fn marker_text(k: &str) -> (r: String)
    ensures
        r@ == marker_for(k@),
{
    String::from_str(k).concat("\n")
}

/// Point this session at `source`, stamping a persisted binding with `now`.
///
/// A named preset must exist and also becomes the `.active` default for new
/// sessions; the binding is persisted (oldest bindings pruned) when a session
/// id is known.
pub fn set_session_source_at(store: &mut CatalogStore, source: PromptSource, now: &str) -> (r: Result<(), PromptCatalogError>)
    ensures
        set_source_post(old(store)@, source@, now@, final(store)@, unit_view(r)),
{
    match &source {
        PromptSource::Preset(n) => {
            let k = match preset_key(store, n.as_str()) {
                Ok(k) => k,
                Err(e) => return Err(e),
            };
            if store.preset(k.as_str()).is_none() {
                return Err(PromptCatalogError::PresetNotFound(k));
            }
            store.set_marker(Some(marker_text(k.as_str())));
        },
        _ => {},
    }
    match current_session_id(store) {
        Some(sid) => {
            if store.home().is_none() {
                return Err(PromptCatalogError::NoGrokHome);
            }
            let ghost m1 = store@;
            let mut v = store.take_bindings();
            let b = SessionBinding { source: source.duplicate(), updated: String::from_str(now) };
            vec_put(&mut v, sid, b);
            prune_bindings(&mut v);
            store.put_bindings(v);
        },
        None => {},
    }
    store.set_session_source(Some(source));
    Ok(())
}

/// Point this session at `source` (see [`set_session_source_at`]).
pub fn set_session_source(store: &mut CatalogStore, source: PromptSource) -> (r: Result<(), PromptCatalogError>)
    ensures
        exists|t: Seq<char>| set_source_post(old(store)@, source@, t, final(store)@, unit_view(r)),
{
    let now = now_rfc3339();
    let ghost t = now@;
    let r = set_session_source_at(store, source, now.as_str());
    assert(set_source_post(old(store)@, source@, t, store@, unit_view(r)));
    r
}

/// Run this session on pure built-in defaults, without deleting anything.
pub fn use_defaults_only(store: &mut CatalogStore) -> (r: Result<(), PromptCatalogError>)
    ensures
        exists|t: Seq<char>| set_source_post(old(store)@, SourceView::Defaults, t, final(store)@, unit_view(r)),
{
    set_session_source(store, PromptSource::Defaults)
}

/// Detach from any preset without deleting it: fall back to the unnamed
/// scratch overrides.
pub fn clear_active_preset(store: &mut CatalogStore) -> (r: Result<(), PromptCatalogError>)
    ensures
        exists|t: Seq<char>| set_source_post(old(store)@, SourceView::Scratch, t, final(store)@, unit_view(r)),
{
    set_session_source(store, PromptSource::Scratch)
}

/// Bind the session to the preset `name`, which must exist.
pub fn apply_preset_at(store: &mut CatalogStore, name: &str, now: &str) -> (r: Result<(), PromptCatalogError>)
    ensures
        apply_post(old(store)@, name@, now@, final(store)@, unit_view(r)),
{
    let k = match preset_key(store, name) {
        Ok(k) => k,
        Err(e) => return Err(e),
    };
    if store.preset(k.as_str()).is_none() {
        return Err(PromptCatalogError::PresetNotFound(k));
    }
    set_session_source_at(store, PromptSource::Preset(k), now)
}

/// Bind the session to the preset `name`, which must exist.
pub fn apply_preset(store: &mut CatalogStore, name: &str) -> (r: Result<(), PromptCatalogError>)
    ensures
        exists|t: Seq<char>| apply_post(old(store)@, name@, t, final(store)@, unit_view(r)),
{
    let now = now_rfc3339();
    let ghost t = now@;
    let r = apply_preset_at(store, name, now.as_str());
    assert(apply_post(old(store)@, name@, t, store@, unit_view(r)));
    r
}


// ── Migration and session activation ──────────────────────────────────────

/// Name of the preset the scratch overrides migrate into.
pub const MIGRATED_PRESET_NAME: &'static str = "perso";

/// Suggest a free preset name: `base` (or `preset` when `base` is not a valid
/// name) if no preset uses it, else `base-2`, `base-3`, … up to `base-999`.
pub fn suggest_preset_name(store: &CatalogStore, base: &str) -> (r: String)
    ensures
        r@ == suggest_spec(store@, base@),
{
    let t = trim(base);
    let b: String = if validate_preset_name(t).is_ok() {
        String::from_str(t)
    } else {
        String::from_str("preset")
    };
    if !preset_exists(store, b.as_str()) {
        return b;
    }
    let mut i: usize = 2;
    while i < 1000
        invariant
            2 <= i <= 1000,
            b@ == crate::semantics::suggest_base(base@),
            preset_exists_spec(store@, b@),
            first_free(store@, b@, 2) == first_free(store@, b@, i as nat),
        decreases 1000 - i,
    {
        let c = b.clone().concat("-").concat(decimal(i).as_str());
        proof {
            reveal_strlit("-");
            assert(c@ == candidate(b@, i as nat));
        }
        if !preset_exists(store, c.as_str()) {
            assert(first_free(store@, b@, i as nat) == c@);
            return c;
        }
        i = i + 1;
    }
    b
}

fn has_scratch_overrides(store: &CatalogStore) -> (b: bool)
    ensures
        b == scratch_has_overrides(store@),
{
    store.wf_holds();
    if store.home().is_none() {
        return false;
    }
    let mut i: usize = 0;
    while i < 7
        invariant
            i <= 7,
            store@.home is Some,
            store@.scratch.len() == 7,
            forall|j: int| 0 <= j < i ==> (#[trigger] override_body(store@.scratch[j])) is None,
        decreases 7 - i,
    {
        let f = store.scratch_file(i);
        let c = match f {
            Some(x) => Some(x),
            None => None,
        };
        if override_body_of(c).is_some() {
            assert(override_body(store@.scratch[i as int]) is Some);
            return true;
        }
        i = i + 1;
    }
    false
}

/// Promote pre-existing scratch overrides into a preset, once: non-destructive,
/// recorded in the catalog state, and a no-op when there is nothing to promote.
fn ensure_migrated(store: &mut CatalogStore, now: &str) -> (r: Result<(), PromptCatalogError>)
    ensures
        (final(store)@, unit_view(r)) == ensure_migrated_post(old(store)@, now@),
{
    if store.migrated() {
        return Ok(());
    }
    if !has_scratch_overrides(store) {
        if store.home().is_none() {
            return Err(PromptCatalogError::NoGrokHome);
        }
        store.set_migrated(true);
        return Ok(());
    }
    let name = suggest_preset_name(store, MIGRATED_PRESET_NAME);
    let k = match preset_key(store, name.as_str()) {
        Ok(k) => k,
        Err(e) => return Err(e),
    };
    copy_into(store, &Loc::Scratch, k.as_str());
    let meta = PresetMeta {
        description: Some(String::from_str("Migrated from the unnamed prompt overrides.")),
        created: Some(String::from_str(now)),
        updated: Some(String::from_str(now)),
    };
    put_meta(store, k.as_str(), meta);
    if marker_name(store).is_none() {
        store.set_marker(Some(marker_text(k.as_str())));
    }
    store.set_migrated(true);
    Ok(())
}

/// Abstract value of a source result.
pub open spec fn source_view(r: Result<PromptSource, PromptCatalogError>) -> Result<SourceView, CatalogErr> {
    match r {
        Ok(s) => Ok(s@),
        Err(e) => Err(e@),
    }
}

/// Bind this process to `session_id` and resolve the source it should use,
/// stamping any migration at `now`.
///
/// Resolution order: the persisted binding of this session id (a preset that
/// has since been deleted falls back), then the `.active` preset, then the
/// scratch overrides.
pub fn activate_session_at(store: &mut CatalogStore, session_id: &str, now: &str) -> (r: Result<PromptSource, PromptCatalogError>)
    ensures
        (final(store)@, source_view(r)) == activate_post(old(store)@, session_id@, now@),
{
    match ensure_migrated(store, now) {
        Ok(()) => {},
        Err(e) => return Err(e),
    }
    let chosen = match binding_for(store, session_id) {
        Some(b) => match &b.source {
            PromptSource::Preset(n) => match preset_key(store, n.as_str()) {
                Err(e) => return Err(e),
                Ok(k) => if store.preset(k.as_str()).is_some() {
                    b.source.duplicate()
                } else {
                    default_source(store)
                },
            },
            _ => b.source.duplicate(),
        },
        None => default_source(store),
    };
    store.set_session_id(Some(String::from_str(session_id)));
    store.set_session_source(Some(chosen.duplicate()));
    Ok(chosen)
}

/// Bind this process to `session_id` and resolve its source (see [`activate_session_at`]).
pub fn activate_session(store: &mut CatalogStore, session_id: &str) -> (r: Result<PromptSource, PromptCatalogError>)
    ensures
        exists|t: Seq<char>| (final(store)@, source_view(r)) == activate_post(old(store)@, session_id@, t),
{
    let now = now_rfc3339();
    let ghost t = now@;
    let r = activate_session_at(store, session_id, now.as_str());
    assert((store@, source_view(r)) == activate_post(old(store)@, session_id@, t));
    r
}


// ── Presets ────────────────────────────────────────────────────────────────

/// Set a preset's free-form description (trimmed; a blank one clears it),
/// stamping its metadata at `now`.
pub fn set_preset_description_at(store: &mut CatalogStore, name: &str, description: Option<&str>, now: &str) -> (r: Result<(), PromptCatalogError>)
    ensures
        (final(store)@, unit_view(r)) == set_description_post(old(store)@, name@, str_opt(description), now@),
{
    let k = match preset_key(store, name) {
        Ok(k) => k,
        Err(e) => return Err(e),
    };
    let meta = match store.preset(k.as_str()) {
        Some(d) => d.meta.duplicate(),
        None => return Err(PromptCatalogError::PresetNotFound(String::from_str(name))),
    };
    let d = match description {
        Some(x) => {
            let t = trim(x);
            if t.unicode_len() == 0 {
                None
            } else {
                Some(String::from_str(t))
            }
        },
        None => None,
    };
    let created = match meta.created {
        Some(c) => Some(c),
        None => Some(String::from_str(now)),
    };
    put_meta(
        store,
        k.as_str(),
        PresetMeta { description: d, created, updated: Some(String::from_str(now)) },
    );
    Ok(())
}

/// Set a preset's free-form description (see [`set_preset_description_at`]).
pub fn set_preset_description(store: &mut CatalogStore, name: &str, description: Option<&str>) -> (r: Result<(), PromptCatalogError>)
    ensures
        exists|t: Seq<char>| (final(store)@, unit_view(r)) == set_description_post(old(store)@, name@, str_opt(description), t),
{
    let now = now_rfc3339();
    let ghost t = now@;
    let r = set_preset_description_at(store, name, description, now.as_str());
    assert((store@, unit_view(r)) == set_description_post(old(store)@, name@, str_opt(description), t));
    r
}

fn count_files(files: &Vec<Option<String>>) -> (n: usize)
    ensures
        n == count_overrides(files_view(files@)),
{
    let mut n: usize = 0;
    let mut i: usize = 0;
    while i < files.len()
        invariant
            i <= files@.len(),
            n <= i,
            n == count_overrides(files_view(files@).take(i as int)),
        decreases files.len() - i,
    {
        let ghost fv = files_view(files@);
        assert(fv.take(i + 1).drop_last() =~= fv.take(i as int));
        assert(fv.take(i + 1).last() == opt_view(files@[i as int]));
        let c = match &files[i] {
            Some(x) => Some(x),
            None => None,
        };
        if override_body_of(c).is_some() {
            n = n + 1;
        }
        i = i + 1;
    }
    assert(files_view(files@).take(i as int) =~= files_view(files@));
    n
}

/// List named presets, ascending by name, marking the one the session runs on.
/// Read-only: listing never writes anything.
pub fn list_presets(store: &CatalogStore) -> (r: Result<Vec<PromptPresetInfo>, PromptCatalogError>)
    ensures
        r matches Ok(v) && listed(store@, infos_view(v@)),
{
    store.wf_holds();
    let src = session_source(store);
    let active = src.preset_name();
    let entries = store.preset_entries();
    let ghost ps = pairs(entries@);
    let mut out: Vec<PromptPresetInfo> = Vec::new();
    let mut i: usize = 0;
    while i < entries.len()
        invariant
            i <= entries@.len(),
            out@.len() == i,
            ps == pairs(entries@),
            sorted_keys(ps),
            to_map(ps) == store@.presets,
            match active {
                Some(a) => source_preset_name(session_source_spec(store@)) == Some(a@),
                None => source_preset_name(session_source_spec(store@)) is None,
            },
            forall|a: int| 0 <= a < i ==> (#[trigger] out@[a]).name@ == entries@[a].0@
                && info_matches(out@[a]@, store@, entries@[a].0@),
        decreases entries.len() - i,
    {
        let (name, dir) = (&entries[i].0, &entries[i].1);
        proof {
            lemma_map_at(ps, i as int);
            assert(ps[i as int] == (name@, dir@));
        }
        let is_active = match active {
            Some(a) => str_eq(a, name.as_str()),
            None => false,
        };
        let info = PromptPresetInfo {
            name: name.clone(),
            override_count: count_files(&dir.files),
            is_active,
            description: clone_opt(&dir.meta.description),
            updated: clone_opt(&dir.meta.updated),
        };
        out.push(info);
        i = i + 1;
    }
    proof {
        lemma_map_len(ps);
        assert forall|a: int, b: int| 0 <= a < b < out@.len() implies seq_lt(#[trigger] out@[a].name@, #[trigger] out@[b].name@) by {
            assert(ps[a].0 == entries@[a].0@);
            assert(ps[b].0 == entries@[b].0@);
        }
        assert forall|a: int| 0 <= a < out@.len() implies store@.presets.contains_key(#[trigger] out@[a].name@)
            && info_matches(out@[a]@, store@, out@[a].name@) by {
            lemma_map_at(ps, a);
            assert(ps[a].0 == entries@[a].0@);
        }
        assert forall|k: Seq<char>| #[trigger] store@.presets.contains_key(k) implies exists|a: int| 0 <= a < out@.len() && out@[a].name@ == k by {
            let j = choose|j: int| 0 <= j < ps.len() && #[trigger] ps[j].0 == k;
            assert(ps[j].0 == entries@[j].0@);
            assert(out@[j].name@ == k);
        }
        let vs = infos_view(out@);
        assert forall|k: Seq<char>| #[trigger] store@.presets.contains_key(k) implies exists|i: int|
            0 <= i < vs.len() && vs[i].name == k by {
            let i = choose|i: int| 0 <= i < out@.len() && out@[i].name@ == k;
            assert(vs[i].name == k);
        }
        assert forall|i: int| 0 <= i < vs.len() implies store@.presets.contains_key(
            #[trigger] vs[i].name,
        ) && info_matches(vs[i], store@, vs[i].name) by {
            assert(vs[i] == out@[i]@);
        }
        assert forall|i: int, j: int| 0 <= i < j < vs.len() implies seq_lt(
            #[trigger] vs[i].name,
            #[trigger] vs[j].name,
        ) by {
            assert(vs[i] == out@[i]@);
            assert(vs[j] == out@[j]@);
        }
    }
    Ok(out)
}

fn ensure_dir(store: &mut CatalogStore, k: &str)
    requires
        old(store)@.home is Some,
        valid_name(k@),
    ensures
        final(store)@ == with_dir(old(store)@, k@),
{
    let d = preset_or_new(store, k);
    store.put_preset(String::from_str(k), d);
}

fn is_preset_loc(l: &Loc, k: &str) -> (b: bool)
    ensures
        b == (l@ == Location::Preset(k@)),
{
    match l {
        Loc::Preset(j) => str_eq(j.as_str(), k),
        Loc::Scratch => false,
    }
}

/// Snapshot the session's current overrides into the preset `name` and bind
/// the session to it, stamping metadata and the binding with `now`.
///
/// `mode` decides what an existing name means: `Create` refuses it,
/// `Overwrite` replaces its catalog files. Built-in defaults are never
/// duplicated — only real override files are copied.
pub fn save_preset_at(store: &mut CatalogStore, name: &str, mode: PresetWriteMode, now: &str) -> (r: Result<(), PromptCatalogError>)
    ensures
        save_preset_post(old(store)@, name@, mode, now@, final(store)@, unit_view(r)),
{
    let k = match preset_key(store, name) {
        Ok(k) => k,
        Err(e) => return Err(e),
    };
    let existed = store.preset(k.as_str()).is_some();
    if existed && mode == PresetWriteMode::Create {
        return Err(PromptCatalogError::PresetExists(k));
    }
    let src = session_source(store);
    match source_location(store, &src) {
        Some(l) => if !is_preset_loc(&l, k.as_str()) {
            copy_into(store, &l, k.as_str());
        } else {
            ensure_dir(store, k.as_str());
        },
        None => ensure_dir(store, k.as_str()),
    }
    stamp(store, k.as_str(), now);
    set_session_source_at(store, PromptSource::Preset(k), now)
}

/// Snapshot the session's overrides into a named preset (see [`save_preset_at`]).
pub fn save_preset(store: &mut CatalogStore, name: &str, mode: PresetWriteMode) -> (r: Result<(), PromptCatalogError>)
    ensures
        exists|t: Seq<char>| save_preset_post(old(store)@, name@, mode, t, final(store)@, unit_view(r)),
{
    let now = now_rfc3339();
    let ghost t = now@;
    let r = save_preset_at(store, name, mode, now.as_str());
    assert(save_preset_post(old(store)@, name@, mode, t, store@, unit_view(r)));
    r
}

/// Copy the preset `src` to a new preset `dest` without touching the
/// session's source; the copy's metadata is stamped at `now`.
pub fn duplicate_preset_at(store: &mut CatalogStore, src: &str, dest: &str, now: &str) -> (r: Result<(), PromptCatalogError>)
    ensures
        (final(store)@, unit_view(r)) == duplicate_post(old(store)@, src@, dest@, now@),
{
    let s = match validate_preset_name(src) {
        Ok(s) => s,
        Err(e) => return Err(e),
    };
    let d = match validate_preset_name(dest) {
        Ok(d) => d,
        Err(e) => return Err(e),
    };
    if store.home().is_none() {
        return Err(PromptCatalogError::NoGrokHome);
    }
    let description = match store.preset(s.as_str()) {
        Some(p) => clone_opt(&p.meta.description),
        None => return Err(PromptCatalogError::PresetNotFound(s)),
    };
    if store.preset(d.as_str()).is_some() {
        return Err(PromptCatalogError::PresetExists(d));
    }
    copy_into(store, &Loc::Preset(s), d.as_str());
    put_meta(
        store,
        d.as_str(),
        PresetMeta {
            description,
            created: Some(String::from_str(now)),
            updated: Some(String::from_str(now)),
        },
    );
    Ok(())
}

/// Copy a preset to a new name (see [`duplicate_preset_at`]).
pub fn duplicate_preset(store: &mut CatalogStore, src: &str, dest: &str) -> (r: Result<(), PromptCatalogError>)
    ensures
        exists|t: Seq<char>| (final(store)@, unit_view(r)) == duplicate_post(old(store)@, src@, dest@, t),
{
    let now = now_rfc3339();
    let ghost t = now@;
    let r = duplicate_preset_at(store, src, dest, now.as_str());
    assert((store@, unit_view(r)) == duplicate_post(old(store)@, src@, dest@, t));
    r
}


/// Position of key `k` in a keyed sequence.
pub open spec fn pos_of(ps: Seq<(Seq<char>, BindingView)>, k: Seq<char>) -> int {
    choose|j: int| 0 <= j < ps.len() && #[trigger] ps[j].0 == k
}

proof fn lemma_pos_step(ps: Seq<(Seq<char>, BindingView)>, i: int, k: Seq<char>)
    requires
        sorted_keys(ps),
        0 <= i < ps.len(),
        to_map(ps).contains_key(k),
    ensures
        0 <= pos_of(ps, k) < ps.len(),
        ps[pos_of(ps, k)].0 == k,
        (pos_of(ps, k) == i) == (k == ps[i].0),
        to_map(ps)[k] == ps[pos_of(ps, k)].1,
{
    let j = pos_of(ps, k);
    lemma_map_at(ps, j);
    if k == ps[i].0 {
        lemma_sorted_distinct(ps, i, j);
    }
}

/// The bindings whose source is not `s`.
fn bindings_without(v: &Vec<(String, SessionBinding)>, s: &PromptSource) -> (r: Vec<(String, SessionBinding)>)
    requires
        vec_sorted(v@),
    ensures
        vec_sorted(r@),
        to_map(pairs(r@)) == without_source(to_map(pairs(v@)), s@),
{
    proof {
        lemma_pairs_sorted(v@);
    }
    let ghost ps = pairs(v@);
    let ghost m = to_map(ps);
    let mut out: Vec<(String, SessionBinding)> = Vec::new();
    let mut i: usize = 0;
    assert(to_map(pairs(out@)) =~= Map::new(
        |k: Seq<char>| m.contains_key(k) && m[k].source != s@ && pos_of(ps, k) < 0,
        |k: Seq<char>| m[k],
    ));
    while i < v.len()
        invariant
            i <= v@.len(),
            ps == pairs(v@),
            m == to_map(ps),
            sorted_keys(ps),
            vec_sorted(out@),
            to_map(pairs(out@)) == Map::new(
                |k: Seq<char>| m.contains_key(k) && m[k].source != s@ && pos_of(ps, k) < i,
                |k: Seq<char>| m[k],
            ),
        decreases v.len() - i,
    {
        let key = &v[i].0;
        let b = &v[i].1;
        proof {
            lemma_map_at(ps, i as int);
            assert(ps[i as int] == (key@, b@));
        }
        let ghost before = to_map(pairs(out@));
        if !b.source.same_as(s) {
            let nb = SessionBinding { source: b.source.duplicate(), updated: b.updated.clone() };
            vec_put(&mut out, key.clone(), nb);
        }
        proof {
            assert forall|k: Seq<char>| #[trigger] m.contains_key(k) implies (pos_of(ps, k) < i + 1) == (
            pos_of(ps, k) < i || k == key@) && m[k] == ps[pos_of(ps, k)].1 by {
                lemma_pos_step(ps, i as int, k);
            }
            assert(to_map(pairs(out@)) =~= Map::new(
                |k: Seq<char>| m.contains_key(k) && m[k].source != s@ && pos_of(ps, k) < i + 1,
                |k: Seq<char>| m[k],
            ));
        }
        i = i + 1;
    }
    proof {
        assert forall|k: Seq<char>| #[trigger] m.contains_key(k) implies pos_of(ps, k) < i by {
            lemma_pos_step(ps, 0, k);
        }
        assert(to_map(pairs(out@)) =~= without_source(m, s@));
    }
    out
}

/// The bindings with source `from` moved to `to` and stamped `now`.
fn bindings_renamed(v: &Vec<(String, SessionBinding)>, from: &PromptSource, to: &PromptSource, now: &str) -> (r: Vec<(String, SessionBinding)>)
    requires
        vec_sorted(v@),
    ensures
        vec_sorted(r@),
        r@.len() == v@.len(),
        to_map(pairs(r@)) == renamed(to_map(pairs(v@)), from@, to@, now@),
{
    proof {
        lemma_pairs_sorted(v@);
    }
    let ghost ps = pairs(v@);
    let ghost m = to_map(ps);
    let mut out: Vec<(String, SessionBinding)> = Vec::new();
    let mut i: usize = 0;
    assert(to_map(pairs(out@)) =~= Map::new(
        |k: Seq<char>| m.contains_key(k) && pos_of(ps, k) < 0,
        |k: Seq<char>| rename_one(m[k], from@, to@, now@),
    ));
    while i < v.len()
        invariant
            i <= v@.len(),
            ps == pairs(v@),
            m == to_map(ps),
            sorted_keys(ps),
            vec_sorted(out@),
            out@.len() == i,
            to_map(pairs(out@)) == Map::new(
                |k: Seq<char>| m.contains_key(k) && pos_of(ps, k) < i,
                |k: Seq<char>| rename_one(m[k], from@, to@, now@),
            ),
        decreases v.len() - i,
    {
        let key = &v[i].0;
        let b = &v[i].1;
        proof {
            lemma_map_at(ps, i as int);
            assert(ps[i as int] == (key@, b@));
            lemma_pairs_sorted(out@);
            lemma_map_len(pairs(out@));
            if to_map(pairs(out@)).contains_key(key@) {
                lemma_pos_step(ps, i as int, key@);
            }
        }
        let nb = if b.source.same_as(from) {
            SessionBinding { source: to.duplicate(), updated: String::from_str(now) }
        } else {
            SessionBinding { source: b.source.duplicate(), updated: b.updated.clone() }
        };
        proof {
            assert(m[key@] == b@);
            assert(nb@ == rename_one(m[key@], from@, to@, now@));
        }
        vec_put(&mut out, key.clone(), nb);
        proof {
            assert forall|k: Seq<char>| #[trigger] m.contains_key(k) implies (pos_of(ps, k) < i + 1) == (
            pos_of(ps, k) < i || k == key@) by {
                lemma_pos_step(ps, i as int, k);
            }
            assert(to_map(pairs(out@)) =~= Map::new(
                |k: Seq<char>| m.contains_key(k) && pos_of(ps, k) < i + 1,
                |k: Seq<char>| rename_one(m[k], from@, to@, now@),
            ));
        }
        i = i + 1;
    }
    proof {
        assert forall|k: Seq<char>| #[trigger] m.contains_key(k) implies pos_of(ps, k) < i by {
            lemma_pos_step(ps, 0, k);
        }
        assert(to_map(pairs(out@)) =~= renamed(m, from@, to@, now@));
    }
    out
}

/// Rename a preset, carrying the `.active` marker and session bindings over;
/// the renamed preset and the moved bindings are stamped at `now`.
pub fn rename_preset_at(store: &mut CatalogStore, old_name: &str, new_name: &str, now: &str) -> (r: Result<(), PromptCatalogError>)
    ensures
        (final(store)@, unit_view(r)) == rename_post(old(store)@, old_name@, new_name@, now@),
{
    let o = match validate_preset_name(old_name) {
        Ok(o) => o,
        Err(e) => return Err(e),
    };
    let n = match validate_preset_name(new_name) {
        Ok(n) => n,
        Err(e) => return Err(e),
    };
    if str_eq(o.as_str(), n.as_str()) {
        return Ok(());
    }
    if store.home().is_none() {
        return Err(PromptCatalogError::NoGrokHome);
    }
    let p = match store.preset(o.as_str()) {
        Some(p) => p.duplicate(),
        None => return Err(PromptCatalogError::PresetNotFound(o)),
    };
    if store.preset(n.as_str()).is_some() {
        return Err(PromptCatalogError::PresetExists(n));
    }
    store.wf_holds();
    store.drop_preset(o.as_str());
    let meta = PresetMeta {
        description: p.meta.description,
        created: p.meta.created,
        updated: Some(String::from_str(now)),
    };
    store.put_preset(n.clone(), PresetDir { files: p.files, meta });
    match marker_name(store) {
        Some(mk) => if str_eq(mk.as_str(), o.as_str()) {
            store.set_marker(Some(marker_text(n.as_str())));
        },
        None => {},
    }
    let from = PromptSource::Preset(o);
    let to = PromptSource::Preset(n);
    let v = store.take_bindings();
    let nv = bindings_renamed(&v, &from, &to, now);
    store.put_bindings(nv);
    let moved = match store.session_source() {
        Some(cur) => cur.same_as(&from),
        None => false,
    };
    if moved {
        store.set_session_source(Some(to));
    }
    Ok(())
}

/// Rename a preset (see [`rename_preset_at`]).
pub fn rename_preset(store: &mut CatalogStore, old_name: &str, new_name: &str) -> (r: Result<(), PromptCatalogError>)
    ensures
        exists|t: Seq<char>| (final(store)@, unit_view(r)) == rename_post(old(store)@, old_name@, new_name@, t),
{
    let now = now_rfc3339();
    let ghost t = now@;
    let r = rename_preset_at(store, old_name, new_name, now.as_str());
    assert((store@, unit_view(r)) == rename_post(old(store)@, old_name@, new_name@, t));
    r
}

/// Delete a named preset and drop every binding that pointed at it.
pub fn delete_preset(store: &mut CatalogStore, name: &str) -> (r: Result<(), PromptCatalogError>)
    ensures
        (final(store)@, unit_view(r)) == delete_post(old(store)@, name@),
{
    let k = match preset_key(store, name) {
        Ok(k) => k,
        Err(e) => return Err(e),
    };
    if store.preset(k.as_str()).is_none() {
        return Err(PromptCatalogError::PresetNotFound(k));
    }
    store.drop_preset(k.as_str());
    match marker_name(store) {
        Some(mk) => if str_eq(mk.as_str(), k.as_str()) {
            store.set_marker(None);
        },
        None => {},
    }
    let gone = PromptSource::Preset(k);
    let v = store.take_bindings();
    let nv = bindings_without(&v, &gone);
    proof {
        lemma_pairs_sorted(nv@);
        lemma_map_len(pairs(nv@));
        lemma_map_len(pairs(v@));
    }
    assert(store@.home is Some);
    store.put_bindings(nv);
    let dropped = match store.session_source() {
        Some(cur) => cur.same_as(&gone),
        None => false,
    };
    if dropped {
        store.set_session_source(None);
    }
    Ok(())
}

} // verus!
