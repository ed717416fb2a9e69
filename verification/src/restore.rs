//! Loading a catalog back from what was stored: each piece is accepted only
//! where the catalog can hold it, so a loaded catalog keeps its invariant.
use vstd::prelude::*;

use crate::catalog::{id_index, PromptId};
use crate::names::valid_name;
use crate::store::{
    files_view, opt_view, vec_put, CatalogStore, PresetDir, PresetMeta, PresetView, SessionBinding,
    StoreView,
};

verus! {

/// Load the scratch override file of `id` (`None`: no file). Refused, with
/// nothing changed, when a file is given but there is no home directory.
pub fn restore_scratch_file(store: &mut CatalogStore, id: PromptId, content: Option<String>) -> (ok: bool)
    ensures
        ok == (old(store)@.home is Some || content is None),
        ok ==> final(store)@ == (StoreView {
            scratch: old(store)@.scratch.update(id_index(id) as int, opt_view(content)),
            ..old(store)@
        }),
        !ok ==> final(store)@ == old(store)@,
{
    if store.home().is_none() && content.is_some() {
        return false;
    }
    store.set_scratch(id.index(), content);
    true
}

/// Load the preset directory `name` with one file slot per catalog id (in
/// catalog order) and its metadata. Refused, with nothing changed, without a
/// home directory, for an invalid name or for a wrong number of slots.
pub fn restore_preset(store: &mut CatalogStore, name: &str, files: Vec<Option<String>>, meta: PresetMeta) -> (ok: bool)
    ensures
        ok == (old(store)@.home is Some && valid_name(name@) && files@.len() == 7),
        ok ==> final(store)@ == (StoreView {
            presets: old(store)@.presets.insert(name@, PresetView { files: files_view(files@), meta: meta@ }),
            ..old(store)@
        }),
        !ok ==> final(store)@ == old(store)@,
{
    if store.home().is_none() || files.len() != 7 {
        return false;
    }
    match crate::names::validate_preset_name(name) {
        Ok(k) => {
            if !crate::text::str_eq(k.as_str(), name) {
                proof {
                    assert(!valid_name(name@)) by {
                        if valid_name(name@) {
                            crate::names::lemma_valid_name_trimmed(name@);
                        }
                    }
                }
                return false;
            }
        },
        Err(_) => {
            proof {
                if valid_name(name@) {
                    crate::names::lemma_valid_name_trimmed(name@);
                }
            }
            return false;
        },
    }
    let dir = PresetDir { files, meta };
    store.put_preset(String::from_str(name), dir);
    true
}

/// Load the raw contents of the `.active` marker (`None`: no file). Refused,
/// with nothing changed, when contents are given but there is no home.
pub fn restore_marker(store: &mut CatalogStore, marker: Option<String>) -> (ok: bool)
    ensures
        ok == (old(store)@.home is Some || marker is None),
        ok ==> final(store)@ == (StoreView { marker: opt_view(marker), ..old(store)@ }),
        !ok ==> final(store)@ == old(store)@,
{
    if store.home().is_none() && marker.is_some() {
        return false;
    }
    store.set_marker(marker);
    true
}

/// Load whether the scratch overrides were already promoted. Refused, with
/// nothing changed, for `true` without a home directory.
pub fn restore_migrated(store: &mut CatalogStore, migrated: bool) -> (ok: bool)
    ensures
        ok == (old(store)@.home is Some || !migrated),
        ok ==> final(store)@ == (StoreView { migrated, ..old(store)@ }),
        !ok ==> final(store)@ == old(store)@,
{
    if store.home().is_none() && migrated {
        return false;
    }
    store.set_migrated(migrated);
    true
}

/// Load the persisted binding of session `session_id`, replacing any earlier
/// one. Refused, with nothing changed, without a home directory.
pub fn restore_binding(store: &mut CatalogStore, session_id: String, binding: SessionBinding) -> (ok: bool)
    ensures
        ok == (old(store)@.home is Some),
        ok ==> final(store)@ == (StoreView {
            bindings: old(store)@.bindings.insert(session_id@, binding@),
            ..old(store)@
        }),
        !ok ==> final(store)@ == old(store)@,
{
    if store.home().is_none() {
        return false;
    }
    let mut v = store.take_bindings();
    vec_put(&mut v, session_id, binding);
    store.put_bindings(v);
    true
}

} // verus!
