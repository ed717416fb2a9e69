//! What each catalog operation does, stated over [`StoreView`].
//!
//! Each `*_post` function gives the state after an operation and its result;
//! the executable operations in [`crate::ops`] are proved to follow them.
use vstd::prelude::*;

use crate::catalog::{default_body_spec, id_index, id_name, PromptId};
use crate::keyed::seq_lt;
use crate::model::{CatalogErr, EffectiveView, PresetInfoView, PresetWriteMode, SourceView,
    source_preset_name};
use crate::names::validated;
use crate::store::{empty_meta, no_files, BindingView, MetaView, PresetView, StoreView};
use crate::text::{dec, is_blank_seq, join_seq, trim_seq};

verus! {

/// Session bindings kept before the oldest are pruned.
pub const MAX_BINDINGS: usize = 256;

/// A directory of override files.
pub enum Location {
    /// `$GROK_HOME/prompts`.
    Scratch,
    /// `$GROK_HOME/prompt-presets/<name>`.
    Preset(Seq<char>),
}

/// The override a file's contents stand for: none when the file is absent or
/// blank after trimming.
pub open spec fn override_body(c: Option<Seq<char>>) -> Option<Seq<char>> {
    match c {
        Some(b) => if is_blank_seq(b) {
            None
        } else {
            Some(b)
        },
        None => None,
    }
}

/// Contents of the override files in `loc` (all absent for a missing preset).
pub open spec fn files_at(m: StoreView, loc: Location) -> Seq<Option<Seq<char>>> {
    match loc {
        Location::Scratch => m.scratch,
        Location::Preset(n) => if m.presets.contains_key(n) {
            m.presets[n].files
        } else {
            no_files()
        },
    }
}

/// Contents of the override file of `id` in `loc`.
pub open spec fn file_at(m: StoreView, loc: Location, id: PromptId) -> Option<Seq<char>> {
    files_at(m, loc)[id_index(id) as int]
}

/// The preset `n`, or a fresh empty directory when it does not exist.
pub open spec fn preset_or_new(m: StoreView, n: Seq<char>) -> PresetView {
    if m.presets.contains_key(n) {
        m.presets[n]
    } else {
        PresetView { files: no_files(), meta: empty_meta() }
    }
}

/// `m` after writing `c` (or removing the file, for `None`) as the override
/// of `id` in `loc`; writing into a missing preset creates its directory.
pub open spec fn with_file(m: StoreView, loc: Location, id: PromptId, c: Option<Seq<char>>) -> StoreView {
    match loc {
        Location::Scratch => StoreView { scratch: m.scratch.update(id_index(id) as int, c), ..m },
        Location::Preset(n) => {
            let p = preset_or_new(m, n);
            StoreView {
                presets: m.presets.insert(
                    n,
                    PresetView { files: p.files.update(id_index(id) as int, c), meta: p.meta },
                ),
                ..m
            }
        },
    }
}

/// `m` with the preset `n` present (created empty when missing).
pub open spec fn with_dir(m: StoreView, n: Seq<char>) -> StoreView {
    StoreView { presets: m.presets.insert(n, preset_or_new(m, n)), ..m }
}

/// `m` with the metadata of preset `n` replaced (creating the directory when missing).
pub open spec fn with_meta(m: StoreView, n: Seq<char>, meta: MetaView) -> StoreView {
    StoreView {
        presets: m.presets.insert(n, PresetView { files: preset_or_new(m, n).files, meta }),
        ..m
    }
}

/// `m` with preset `n` stamped at `now`: `created` set if it was not, `updated` set.
pub open spec fn stamp(m: StoreView, n: Seq<char>, now: Seq<char>) -> StoreView {
    let meta = preset_or_new(m, n).meta;
    with_meta(
        m,
        n,
        MetaView {
            description: meta.description,
            created: if meta.created is Some {
                meta.created
            } else {
                Some(now)
            },
            updated: Some(now),
        },
    )
}

/// `m` with the override files of preset `k` replaced by the non-blank
/// override files of `src` (other metadata kept; the directory created).
pub open spec fn copy_into(m: StoreView, src: Location, k: Seq<char>) -> StoreView {
    let files = Seq::new(7, |i: int| override_body(files_at(m, src)[i]));
    StoreView {
        presets: m.presets.insert(k, PresetView { files, meta: preset_or_new(m, k).meta }),
        ..m
    }
}

/// Name held by the `.active` marker, trimmed, unless it is blank.
pub open spec fn marker_name(m: StoreView) -> Option<Seq<char>> {
    match m.marker {
        Some(raw) => if trim_seq(raw).len() == 0 {
            None
        } else {
            Some(trim_seq(raw))
        },
        None => None,
    }
}

/// Contents written to the `.active` marker for preset `k`.
pub open spec fn marker_for(k: Seq<char>) -> Seq<char> {
    k + "\n"@
}

/// The directory key of the preset called `name`: the validated name, when
/// there is a home directory.
pub open spec fn preset_key(m: StoreView, name: Seq<char>) -> Result<Seq<char>, CatalogErr> {
    match validated(name) {
        Err(e) => Err(e),
        Ok(k) => if m.home is Some {
            Ok(k)
        } else {
            Err(CatalogErr::NoGrokHome)
        },
    }
}

/// Whether a preset called `name` exists.
pub open spec fn preset_exists_spec(m: StoreView, name: Seq<char>) -> bool {
    match preset_key(m, name) {
        Ok(k) => m.presets.contains_key(k),
        Err(_) => false,
    }
}

/// Source of a session with no binding of its own: the `.active` preset when
/// it exists, else the scratch overrides (never the pure defaults).
pub open spec fn default_source_spec(m: StoreView) -> SourceView {
    match marker_name(m) {
        Some(n) => if preset_exists_spec(m, n) {
            SourceView::Preset(n)
        } else {
            SourceView::Scratch
        },
        None => SourceView::Scratch,
    }
}

/// The source this process resolves prompt bodies from.
pub open spec fn session_source_spec(m: StoreView) -> SourceView {
    match m.session_source {
        Some(s) => s,
        None => default_source_spec(m),
    }
}

/// Directory backing a source, or none for the pure defaults (or when it
/// cannot be resolved).
pub open spec fn source_location(m: StoreView, s: SourceView) -> Option<Location> {
    match s {
        SourceView::Defaults => None,
        SourceView::Scratch => if m.home is Some {
            Some(Location::Scratch)
        } else {
            None
        },
        SourceView::Preset(n) => match preset_key(m, n) {
            Ok(k) => Some(Location::Preset(k)),
            Err(_) => None,
        },
    }
}

/// Writable directory backing the session's overrides.
pub open spec fn writable_location(m: StoreView) -> Result<Location, CatalogErr> {
    match session_source_spec(m) {
        SourceView::Defaults => Err(CatalogErr::ReadOnlySource),
        SourceView::Scratch => if m.home is Some {
            Ok(Location::Scratch)
        } else {
            Err(CatalogErr::NoGrokHome)
        },
        SourceView::Preset(n) => match preset_key(m, n) {
            Ok(k) => Ok(Location::Preset(k)),
            Err(e) => Err(e),
        },
    }
}

/// `<home>/prompts`.
pub open spec fn prompts_dir_of(home: Seq<char>) -> Seq<char> {
    join_seq(home, "prompts"@)
}

/// `<home>/prompt-presets`.
pub open spec fn presets_root_of(home: Seq<char>) -> Seq<char> {
    join_seq(home, "prompt-presets"@)
}

/// `<id>.md`.
pub open spec fn file_name(id: PromptId) -> Seq<char> {
    id_name(id) + ".md"@
}

/// Path of the directory `loc` under `home`.
pub open spec fn location_dir(home: Seq<char>, loc: Location) -> Seq<char> {
    match loc {
        Location::Scratch => prompts_dir_of(home),
        Location::Preset(k) => join_seq(presets_root_of(home), k),
    }
}

/// Path of the override file of `id` in `loc`.
pub open spec fn file_path(m: StoreView, loc: Location, id: PromptId) -> Seq<char> {
    join_seq(location_dir(m.home->0, loc), file_name(id))
}

/// `m` after stamping the preset the session runs on (when it has one).
pub open spec fn touched(m: StoreView, now: Seq<char>) -> StoreView {
    match session_source_spec(m) {
        SourceView::Preset(n) => match preset_key(m, n) {
            Ok(k) => stamp(m, k, now),
            Err(_) => m,
        },
        _ => m,
    }
}

/// Whether the scratch set holds any non-blank override.
pub open spec fn scratch_has_overrides(m: StoreView) -> bool {
    m.home is Some && exists|i: int| 0 <= i < 7 && (#[trigger] override_body(m.scratch[i])) is Some
}

// ── Reading ────────────────────────────────────────────────────────────────

/// The source `sid` resolves through: the in-memory source for the session
/// this process is bound to, else its persisted binding (a deleted preset
/// falling back), else the default source.
pub open spec fn source_for_session_spec(m: StoreView, sid: Option<Seq<char>>) -> SourceView {
    match sid {
        None => session_source_spec(m),
        Some(s) => if m.session_id == Some(s) && m.session_source is Some {
            m.session_source->0
        } else if m.bindings.contains_key(s) {
            let b = m.bindings[s].source;
            match b {
                SourceView::Preset(n) => if preset_exists_spec(m, n) {
                    b
                } else {
                    default_source_spec(m)
                },
                _ => b,
            }
        } else {
            default_source_spec(m)
        },
    }
}

/// The body of `id` for session `sid`: its non-blank override in the
/// session's source, else the built-in default.
pub open spec fn effective_spec(m: StoreView, sid: Option<Seq<char>>, id: PromptId) -> EffectiveView {
    match source_location(m, source_for_session_spec(m, sid)) {
        Some(l) => {
            let p = file_path(m, l, id);
            match override_body(file_at(m, l, id)) {
                Some(b) => EffectiveView { id, body: b, is_override: true, override_path: Some(p) },
                None => EffectiveView {
                    id,
                    body: default_body_spec(id),
                    is_override: false,
                    override_path: Some(p),
                },
            }
        },
        None => EffectiveView {
            id,
            body: default_body_spec(id),
            is_override: false,
            override_path: None,
        },
    }
}

/// The session source's override of `id`, if it has a non-blank one.
pub open spec fn load_override_spec(m: StoreView, id: PromptId) -> Option<Seq<char>> {
    match source_location(m, session_source_spec(m)) {
        Some(l) => override_body(file_at(m, l, id)),
        None => None,
    }
}

/// Path of the override file of `id` in the session's source.
pub open spec fn override_path_spec(m: StoreView, id: PromptId) -> Option<Seq<char>> {
    match source_location(m, session_source_spec(m)) {
        Some(l) => Some(file_path(m, l, id)),
        None => None,
    }
}

/// Number of non-blank override files.
pub open spec fn count_overrides(files: Seq<Option<Seq<char>>>) -> nat
    decreases files.len(),
{
    if files.len() == 0 {
        0
    } else {
        count_overrides(files.drop_last()) + if override_body(files.last()) is Some {
            1nat
        } else {
            0nat
        }
    }
}

/// What the listing says of preset `k`.
pub open spec fn info_matches(info: PresetInfoView, m: StoreView, k: Seq<char>) -> bool {
    let p = m.presets[k];
    &&& info.name == k
    &&& info.override_count == count_overrides(p.files)
    &&& info.is_active == (source_preset_name(session_source_spec(m)) == Some(k))
    &&& info.description == p.meta.description
    &&& info.updated == p.meta.updated
}

/// `v` is the preset listing of `m`: every preset once, ascending by name,
/// each described as [`info_matches`] says.
pub open spec fn listed(m: StoreView, v: Seq<PresetInfoView>) -> bool {
    &&& v.len() == m.presets.len()
    &&& forall|i: int, j: int| 0 <= i < j < v.len() ==> seq_lt(#[trigger] v[i].name, #[trigger] v[j].name)
    &&& forall|i: int| 0 <= i < v.len() ==> m.presets.contains_key(#[trigger] v[i].name) && info_matches(v[i], m, v[i].name)
    &&& forall|k: Seq<char>| #[trigger] m.presets.contains_key(k) ==> exists|i: int| 0 <= i < v.len() && v[i].name == k
}

// ── Writing overrides ──────────────────────────────────────────────────────

/// Deleting the override of `id` in the session's source.
pub open spec fn reset_override_post(m: StoreView, id: PromptId, now: Seq<char>) -> (StoreView, Result<(), CatalogErr>) {
    match writable_location(m) {
        Err(e) => (m, Err(e)),
        Ok(loc) => if file_at(m, loc, id) is Some {
            (touched(with_file(m, loc, id, None), now), Ok(()))
        } else {
            (m, Ok(()))
        },
    }
}

/// Writing `body` as the override of `id`; a body equal to the default once
/// trimmed removes the override instead.
pub open spec fn save_override_post(m: StoreView, id: PromptId, body: Seq<char>, now: Seq<char>) -> (StoreView, Result<Seq<char>, CatalogErr>) {
    match writable_location(m) {
        Err(e) => (m, Err(e)),
        Ok(loc) => {
            let path = file_path(m, loc, id);
            if trim_seq(body) == trim_seq(default_body_spec(id)) {
                (reset_override_post(m, id, now).0, Ok(path))
            } else {
                (touched(with_file(m, loc, id, Some(body)), now), Ok(path))
            }
        },
    }
}

/// Putting the default body on disk for an editor, unless a file is there.
pub open spec fn materialize_post(m: StoreView, id: PromptId, now: Seq<char>) -> (StoreView, Result<Seq<char>, CatalogErr>) {
    match writable_location(m) {
        Err(e) => (m, Err(e)),
        Ok(loc) => {
            let path = file_path(m, loc, id);
            if file_at(m, loc, id) is Some {
                (m, Ok(path))
            } else {
                (touched(with_file(m, loc, id, Some(default_body_spec(id))), now), Ok(path))
            }
        },
    }
}

/// Deleting every scratch override.
pub open spec fn clear_all_post(m: StoreView) -> (StoreView, Result<(), CatalogErr>) {
    if m.home is None {
        (m, Err(CatalogErr::NoGrokHome))
    } else {
        (StoreView { scratch: no_files(), ..m }, Ok(()))
    }
}

// ── Session bindings ───────────────────────────────────────────────────────

/// Binding `(a, ka)` is older than `(b, kb)`: by timestamp, then by session id.
pub open spec fn binding_before(a: BindingView, ka: Seq<char>, b: BindingView, kb: Seq<char>) -> bool {
    seq_lt(a.updated, b.updated) || (a.updated == b.updated && seq_lt(ka, kb))
}

/// `new` is `old` with the oldest bindings dropped beyond [`MAX_BINDINGS`].
pub open spec fn pruned(old: Map<Seq<char>, BindingView>, new: Map<Seq<char>, BindingView>) -> bool {
    if old.len() <= MAX_BINDINGS {
        new == old
    } else {
        &&& new.dom().subset_of(old.dom())
        &&& forall|k: Seq<char>| #[trigger] new.contains_key(k) ==> new[k] == old[k]
        &&& new.len() == MAX_BINDINGS
        &&& forall|r: Seq<char>, k: Seq<char>|
            old.contains_key(r) && !new.contains_key(r) && #[trigger] new.contains_key(k)
                ==> binding_before(#[trigger] old[r], r, old[k], k)
    }
}

/// Bindings whose source is not `s`.
pub open spec fn without_source(b: Map<Seq<char>, BindingView>, s: SourceView) -> Map<Seq<char>, BindingView> {
    Map::new(|k: Seq<char>| b.contains_key(k) && b[k].source != s, |k: Seq<char>| b[k])
}

/// One binding after its source `from` was renamed to `to` at `now`.
pub open spec fn rename_one(bv: BindingView, from: SourceView, to: SourceView, now: Seq<char>) -> BindingView {
    if bv.source == from {
        BindingView { source: to, updated: now }
    } else {
        bv
    }
}

/// Bindings with source `from` moved to `to` and stamped `now`.
pub open spec fn renamed(b: Map<Seq<char>, BindingView>, from: SourceView, to: SourceView, now: Seq<char>) -> Map<Seq<char>, BindingView> {
    Map::new(|k: Seq<char>| b.contains_key(k), |k: Seq<char>| rename_one(b[k], from, to, now))
}

/// Pointing the session at `src`: a named preset must exist and becomes the
/// `.active` default; the binding is persisted when a session id is known.
pub open spec fn set_source_post(m: StoreView, src: SourceView, now: Seq<char>, m2: StoreView, r: Result<(), CatalogErr>) -> bool {
    let pre: Result<StoreView, CatalogErr> = match src {
        SourceView::Preset(n) => match preset_key(m, n) {
            Err(e) => Err(e),
            Ok(k) => if m.presets.contains_key(k) {
                Ok(StoreView { marker: Some(marker_for(k)), ..m })
            } else {
                Err(CatalogErr::PresetNotFound(k))
            },
        },
        _ => Ok(m),
    };
    match pre {
        Err(e) => m2 == m && r == Err::<(), CatalogErr>(e),
        Ok(m1) => match m1.session_id {
            Some(sid) => if m1.home is None {
                m2 == m1 && r == Err::<(), CatalogErr>(CatalogErr::NoGrokHome)
            } else {
                &&& r is Ok
                &&& pruned(m1.bindings.insert(sid, BindingView { source: src, updated: now }), m2.bindings)
                &&& m2 == StoreView { bindings: m2.bindings, session_source: Some(src), ..m1 }
            },
            None => r is Ok && m2 == StoreView { session_source: Some(src), ..m1 },
        },
    }
}

// ── Migration and sessions ─────────────────────────────────────────────────

/// Name offered for a preset derived from `base`: `base` itself (or `preset`
/// when `base` is not a valid name) if free, else the first free of
/// `base-2` … `base-999`, else `base`.
pub open spec fn suggest_spec(m: StoreView, base: Seq<char>) -> Seq<char> {
    let b = suggest_base(base);
    if !preset_exists_spec(m, b) {
        b
    } else {
        first_free(m, b, 2)
    }
}

/// The trimmed `base` when it is a valid name, else `preset`.
pub open spec fn suggest_base(base: Seq<char>) -> Seq<char> {
    if validated(trim_seq(base)) is Ok {
        trim_seq(base)
    } else {
        "preset"@
    }
}

/// `b-i`.
pub open spec fn candidate(b: Seq<char>, i: nat) -> Seq<char> {
    b + "-"@ + dec(i)
}

/// First of `b-i` … `b-999` that no preset uses, else `b`.
pub open spec fn first_free(m: StoreView, b: Seq<char>, i: nat) -> Seq<char>
    decreases 1000 - i,
{
    if i >= 1000 {
        b
    } else if !preset_exists_spec(m, candidate(b, i)) {
        candidate(b, i)
    } else {
        first_free(m, b, i + 1)
    }
}

/// Description given to the preset made from the scratch overrides.
pub open spec fn migrated_description() -> Seq<char> {
    "Migrated from the unnamed prompt overrides."@
}

/// Promoting the scratch overrides into a preset, once.
pub open spec fn ensure_migrated_post(m: StoreView, now: Seq<char>) -> (StoreView, Result<(), CatalogErr>) {
    if m.migrated {
        (m, Ok(()))
    } else if !scratch_has_overrides(m) {
        if m.home is None {
            (m, Err(CatalogErr::NoGrokHome))
        } else {
            (StoreView { migrated: true, ..m }, Ok(()))
        }
    } else {
        match preset_key(m, suggest_spec(m, "perso"@)) {
            Err(e) => (m, Err(e)),
            Ok(k) => {
                let m1 = copy_into(m, Location::Scratch, k);
                let m2 = with_meta(
                    m1,
                    k,
                    MetaView {
                        description: Some(migrated_description()),
                        created: Some(now),
                        updated: Some(now),
                    },
                );
                let m3 = if marker_name(m2) is None {
                    StoreView { marker: Some(marker_for(k)), ..m2 }
                } else {
                    m2
                };
                (StoreView { migrated: true, ..m3 }, Ok(()))
            },
        }
    }
}

/// Binding this process to session `sid` and choosing its source.
pub open spec fn activate_post(m: StoreView, sid: Seq<char>, now: Seq<char>) -> (StoreView, Result<SourceView, CatalogErr>) {
    let (m1, r1) = ensure_migrated_post(m, now);
    match r1 {
        Err(e) => (m1, Err(e)),
        Ok(_) => {
            let chosen: Result<SourceView, CatalogErr> = if m1.bindings.contains_key(sid) {
                let b = m1.bindings[sid].source;
                match b {
                    SourceView::Preset(n) => match preset_key(m1, n) {
                        Err(e) => Err(e),
                        Ok(k) => Ok(
                            if m1.presets.contains_key(k) {
                                b
                            } else {
                                default_source_spec(m1)
                            },
                        ),
                    },
                    _ => Ok(b),
                }
            } else {
                Ok(default_source_spec(m1))
            };
            match chosen {
                Err(e) => (m1, Err(e)),
                Ok(s) => (
                    StoreView { session_id: Some(sid), session_source: Some(s), ..m1 },
                    Ok(s),
                ),
            }
        },
    }
}

// ── Presets ────────────────────────────────────────────────────────────────

/// Setting a preset's free-form description (trimmed; blank clears it).
pub open spec fn set_description_post(m: StoreView, name: Seq<char>, desc: Option<Seq<char>>, now: Seq<char>) -> (StoreView, Result<(), CatalogErr>) {
    match preset_key(m, name) {
        Err(e) => (m, Err(e)),
        Ok(k) => if !m.presets.contains_key(k) {
            (m, Err(CatalogErr::PresetNotFound(name)))
        } else {
            let meta = m.presets[k].meta;
            let d = match desc {
                Some(x) => if trim_seq(x).len() == 0 {
                    None
                } else {
                    Some(trim_seq(x))
                },
                None => None,
            };
            (
                with_meta(
                    m,
                    k,
                    MetaView {
                        description: d,
                        created: if meta.created is Some {
                            meta.created
                        } else {
                            Some(now)
                        },
                        updated: Some(now),
                    },
                ),
                Ok(()),
            )
        },
    }
}

/// Snapshotting the session's overrides into preset `name` and binding the
/// session to it.
pub open spec fn save_preset_post(m: StoreView, name: Seq<char>, mode: PresetWriteMode, now: Seq<char>, m2: StoreView, r: Result<(), CatalogErr>) -> bool {
    match preset_key(m, name) {
        Err(e) => m2 == m && r == Err::<(), CatalogErr>(e),
        Ok(k) => if m.presets.contains_key(k) && mode == PresetWriteMode::Create {
            m2 == m && r == Err::<(), CatalogErr>(CatalogErr::PresetExists(k))
        } else {
            let m1 = match source_location(m, session_source_spec(m)) {
                Some(src) => if src != Location::Preset(k) {
                    copy_into(m, src, k)
                } else {
                    with_dir(m, k)
                },
                None => with_dir(m, k),
            };
            set_source_post(stamp(m1, k, now), SourceView::Preset(k), now, m2, r)
        },
    }
}

/// Copying preset `src` to a new preset `dest`, leaving the session alone.
pub open spec fn duplicate_post(m: StoreView, src: Seq<char>, dest: Seq<char>, now: Seq<char>) -> (StoreView, Result<(), CatalogErr>) {
    match validated(src) {
        Err(e) => (m, Err(e)),
        Ok(s) => match validated(dest) {
            Err(e) => (m, Err(e)),
            Ok(d) => if m.home is None {
                (m, Err(CatalogErr::NoGrokHome))
            } else if !m.presets.contains_key(s) {
                (m, Err(CatalogErr::PresetNotFound(s)))
            } else if m.presets.contains_key(d) {
                (m, Err(CatalogErr::PresetExists(d)))
            } else {
                let m1 = copy_into(m, Location::Preset(s), d);
                (
                    with_meta(
                        m1,
                        d,
                        MetaView {
                            description: m.presets[s].meta.description,
                            created: Some(now),
                            updated: Some(now),
                        },
                    ),
                    Ok(()),
                )
            },
        },
    }
}

/// Renaming a preset, carrying the marker and session bindings over.
pub open spec fn rename_post(m: StoreView, old: Seq<char>, new: Seq<char>, now: Seq<char>) -> (StoreView, Result<(), CatalogErr>) {
    match validated(old) {
        Err(e) => (m, Err(e)),
        Ok(o) => match validated(new) {
            Err(e) => (m, Err(e)),
            Ok(n) => if o == n {
                (m, Ok(()))
            } else if m.home is None {
                (m, Err(CatalogErr::NoGrokHome))
            } else if !m.presets.contains_key(o) {
                (m, Err(CatalogErr::PresetNotFound(o)))
            } else if m.presets.contains_key(n) {
                (m, Err(CatalogErr::PresetExists(n)))
            } else {
                let p = m.presets[o];
                let moved = PresetView {
                    files: p.files,
                    meta: MetaView { updated: Some(now), ..p.meta },
                };
                let m1 = StoreView { presets: m.presets.remove(o).insert(n, moved), ..m };
                let m2 = if marker_name(m1) == Some(o) {
                    StoreView { marker: Some(marker_for(n)), ..m1 }
                } else {
                    m1
                };
                let m3 = StoreView {
                    bindings: renamed(
                        m2.bindings,
                        SourceView::Preset(o),
                        SourceView::Preset(n),
                        now,
                    ),
                    ..m2
                };
                let m4 = if m3.session_source == Some(SourceView::Preset(o)) {
                    StoreView { session_source: Some(SourceView::Preset(n)), ..m3 }
                } else {
                    m3
                };
                (m4, Ok(()))
            },
        },
    }
}

/// Binding the session to an existing preset.
pub open spec fn apply_post(m: StoreView, name: Seq<char>, now: Seq<char>, m2: StoreView, r: Result<(), CatalogErr>) -> bool {
    match preset_key(m, name) {
        Err(e) => m2 == m && r == Err::<(), CatalogErr>(e),
        Ok(k) => if !m.presets.contains_key(k) {
            m2 == m && r == Err::<(), CatalogErr>(CatalogErr::PresetNotFound(k))
        } else {
            set_source_post(m, SourceView::Preset(k), now, m2, r)
        },
    }
}

/// Deleting a preset and every binding that pointed at it.
pub open spec fn delete_post(m: StoreView, name: Seq<char>) -> (StoreView, Result<(), CatalogErr>) {
    match preset_key(m, name) {
        Err(e) => (m, Err(e)),
        Ok(k) => if !m.presets.contains_key(k) {
            (m, Err(CatalogErr::PresetNotFound(k)))
        } else {
            let m1 = StoreView { presets: m.presets.remove(k), ..m };
            let m2 = if marker_name(m1) == Some(k) {
                StoreView { marker: None, ..m1 }
            } else {
                m1
            };
            let m3 = StoreView {
                bindings: without_source(m2.bindings, SourceView::Preset(k)),
                ..m2
            };
            let m4 = if m3.session_source == Some(SourceView::Preset(k)) {
                StoreView { session_source: None, ..m3 }
            } else {
                m3
            };
            (m4, Ok(()))
        },
    }
}

} // verus!
