//! The catalog's persistent state — scratch overrides, named presets, the
//! `.active` marker, persisted session bindings — and the per-process session
//! binding, held as one value.
//!
//! Storage code reads this state from `$GROK_HOME`, runs an operation of
//! [`crate::ops`] on it and writes back what changed.
use vstd::prelude::*;

use crate::keyed::{
    lemma_lt_irreflexive, lemma_lt_total, lemma_lt_transitive, lemma_map_at, lemma_map_insert,
    lemma_map_remove, lemma_map_update, seq_lt, sorted_keys, str_lt, to_map,
};
use crate::model::{PromptSource, SourceView};
use crate::names::valid_name;

verus! {

/// Abstract value of an optional string.
pub open spec fn opt_view(o: Option<String>) -> Option<Seq<char>> {
    match o {
        Some(s) => Some(s@),
        None => None,
    }
}

/// A copy of an optional string.
pub fn clone_opt(o: &Option<String>) -> (r: Option<String>)
    ensures
        opt_view(r) == opt_view(*o),
{
    match o {
        Some(s) => Some(s.clone()),
        None => None,
    }
}

/// Metadata stored beside a preset's files.
#[derive(Debug)]
pub struct PresetMeta {
    pub description: Option<String>,
    pub created: Option<String>,
    pub updated: Option<String>,
}

/// Abstract value of [`PresetMeta`].
pub struct MetaView {
    pub description: Option<Seq<char>>,
    pub created: Option<Seq<char>>,
    pub updated: Option<Seq<char>>,
}

impl View for PresetMeta {
    type V = MetaView;

    open spec fn view(&self) -> MetaView {
        MetaView {
            description: opt_view(self.description),
            created: opt_view(self.created),
            updated: opt_view(self.updated),
        }
    }
}

impl PresetMeta {
    /// Metadata of a preset that has none on disk.
    pub fn empty() -> (m: PresetMeta)
        ensures
            m@ == empty_meta(),
    {
        PresetMeta { description: None, created: None, updated: None }
    }

    /// A copy of this metadata.
    pub fn duplicate(&self) -> (m: PresetMeta)
        ensures
            m@ == self@,
    {
        PresetMeta {
            description: clone_opt(&self.description),
            created: clone_opt(&self.created),
            updated: clone_opt(&self.updated),
        }
    }
}

/// Metadata with no field set.
pub open spec fn empty_meta() -> MetaView {
    MetaView { description: None, created: None, updated: None }
}

/// Abstract value of a list of optional file contents.
pub open spec fn files_view(files: Seq<Option<String>>) -> Seq<Option<Seq<char>>> {
    files.map_values(|f: Option<String>| opt_view(f))
}

/// A preset directory: the contents of the override file of each catalog id
/// (`None` where the file is absent), plus its metadata.
#[derive(Debug)]
pub struct PresetDir {
    pub files: Vec<Option<String>>,
    pub meta: PresetMeta,
}

/// Abstract value of [`PresetDir`].
pub struct PresetView {
    pub files: Seq<Option<Seq<char>>>,
    pub meta: MetaView,
}

impl View for PresetDir {
    type V = PresetView;

    open spec fn view(&self) -> PresetView {
        PresetView { files: files_view(self.files@), meta: self.meta@ }
    }
}

/// Seven absent files.
pub open spec fn no_files() -> Seq<Option<Seq<char>>> {
    Seq::new(7, |i: int| None)
}

/// A copy of a list of optional file contents.
pub fn clone_files(files: &Vec<Option<String>>) -> (r: Vec<Option<String>>)
    ensures
        files_view(r@) == files_view(files@),
{
    let mut r: Vec<Option<String>> = Vec::new();
    let mut i: usize = 0;
    while i < files.len()
        invariant
            i <= files@.len(),
            r@.len() == i,
            forall|j: int| 0 <= j < i ==> opt_view(#[trigger] r@[j]) == opt_view(files@[j]),
        decreases files.len() - i,
    {
        r.push(clone_opt(&files[i]));
        i = i + 1;
    }
    assert(files_view(r@) =~= files_view(files@));
    r
}

/// Seven absent files.
pub fn empty_files() -> (r: Vec<Option<String>>)
    ensures
        files_view(r@) == no_files(),
        r@.len() == 7,
        forall|i: int| 0 <= i < 7 ==> #[trigger] r@[i] is None,
{
    let mut r: Vec<Option<String>> = Vec::new();
    let mut i: usize = 0;
    while i < 7
        invariant
            i <= 7,
            r@.len() == i,
            forall|j: int| 0 <= j < i ==> #[trigger] r@[j] is None,
        decreases 7 - i,
    {
        r.push(None);
        i = i + 1;
    }
    assert(files_view(r@) =~= no_files());
    r
}

impl PresetDir {
    /// A copy of this directory.
    pub fn duplicate(&self) -> (d: PresetDir)
        ensures
            d@ == self@,
    {
        PresetDir { files: clone_files(&self.files), meta: self.meta.duplicate() }
    }
}

/// A persisted session binding: the source a session runs on.
#[derive(Debug)]
pub struct SessionBinding {
    pub source: PromptSource,
    pub updated: String,
}

/// Abstract value of [`SessionBinding`].
pub struct BindingView {
    pub source: SourceView,
    pub updated: Seq<char>,
}

impl View for SessionBinding {
    type V = BindingView;

    open spec fn view(&self) -> BindingView {
        BindingView { source: self.source@, updated: self.updated@ }
    }
}

/// Abstract state of the catalog.
pub struct StoreView {
    /// The home directory (`$GROK_HOME`), when it could be resolved.
    pub home: Option<Seq<char>>,
    /// Contents of the unnamed scratch override of each catalog id.
    pub scratch: Seq<Option<Seq<char>>>,
    /// Named presets by (valid) name.
    pub presets: Map<Seq<char>, PresetView>,
    /// Raw contents of the `.active` marker file.
    pub marker: Option<Seq<char>>,
    /// Whether the scratch overrides were already promoted to a preset.
    pub migrated: bool,
    /// Persisted session bindings by session id.
    pub bindings: Map<Seq<char>, BindingView>,
    /// The session this process resolves prompts for.
    pub session_id: Option<Seq<char>>,
    /// The source this process resolves prompts from, once chosen.
    pub session_source: Option<SourceView>,
}

/// What every catalog state satisfies.
pub open spec fn view_wf(m: StoreView) -> bool {
    &&& m.scratch.len() == 7
    &&& m.presets.dom().finite()
    &&& m.bindings.dom().finite()
    &&& forall|n: Seq<char>| #[trigger]
        m.presets.contains_key(n) ==> valid_name(n) && m.presets[n].files.len() == 7
    &&& m.home is None ==> {
        &&& forall|i: int| 0 <= i < 7 ==> #[trigger] m.scratch[i] is None
        &&& m.presets.dom() =~= Set::empty()
        &&& m.marker is None
        &&& m.bindings.dom() =~= Set::empty()
        &&& !m.migrated
    }
}

/// Keys of an exec keyed vector strictly ascending.
pub open spec fn vec_sorted<V>(v: Seq<(String, V)>) -> bool {
    forall|i: int, j: int|
        0 <= i < j < v.len() ==> seq_lt(#[trigger] v[i].0@, #[trigger] v[j].0@)
}

/// Where `key` is, or would go, in a sorted keyed vector.
pub fn find_key<V>(v: &Vec<(String, V)>, key: &str) -> (r: Result<usize, usize>)
    requires
        vec_sorted(v@),
    ensures
        r matches Ok(i) ==> i < v@.len() && v@[i as int].0@ == key@,
        r matches Err(p) ==> p <= v@.len() && (forall|j: int|
            0 <= j < p ==> seq_lt(#[trigger] v@[j].0@, key@)) && (forall|j: int|
            p <= j < v@.len() ==> seq_lt(key@, #[trigger] v@[j].0@)),
{
    let mut i: usize = 0;
    while i < v.len()
        invariant
            i <= v@.len(),
            vec_sorted(v@),
            forall|j: int| 0 <= j < i ==> seq_lt(#[trigger] v@[j].0@, key@),
        decreases v.len() - i,
    {
        let k = v[i].0.as_str();
        if crate::text::str_eq(k, key) {
            return Ok(i);
        }
        if str_lt(key, k) {
            assert forall|j: int| i <= j < v@.len() implies seq_lt(key@, #[trigger] v@[j].0@) by {
                if j > i {
                    lemma_lt_transitive(key@, v@[i as int].0@, v@[j].0@);
                }
            }
            return Err(i);
        }
        proof {
            lemma_lt_total(v@[i as int].0@, key@);
        }
        i = i + 1;
    }
    Err(i)
}

/// The persistent part of the catalog state.
///
/// Presets and session bindings are keyed by `String`. vstd specifies
/// `BTreeMap` only under `obeys_cmp::<Key>()`, which it establishes for
/// integers and tuples of them but not for `String`, so a `BTreeMap<String, _>`
/// here would carry no usable contract. Each is therefore held as a `Vec` of
/// `(key, value)` pairs kept strictly ascending by key (the type invariant
/// below), whose abstract value is a `Map`.
pub struct Disk {
    home: Option<String>,
    scratch: Vec<Option<String>>,
    presets: Vec<(String, PresetDir)>,
    marker: Option<String>,
    migrated: bool,
    bindings: Vec<(String, SessionBinding)>,
}

/// Keyed view of a vector of `(key, value)` pairs.
pub open spec fn pairs<V: View>(v: Seq<(String, V)>) -> Seq<(Seq<char>, V::V)> {
    v.map_values(|e: (String, V)| (e.0@, e.1@))
}

impl Disk {
    #[verifier::type_invariant]
    closed spec fn inv(&self) -> bool {
        &&& self.scratch@.len() == 7
        &&& vec_sorted(self.presets@)
        &&& entries_ok(self.presets@)
        &&& vec_sorted(self.bindings@)
        &&& self.home is None ==> {
            &&& forall|i: int| 0 <= i < 7 ==> #[trigger] self.scratch@[i] is None
            &&& self.presets@.len() == 0
            &&& self.marker is None
            &&& self.bindings@.len() == 0
            &&& !self.migrated
        }
    }
}

impl View for Disk {
    type V = StoreView;

    closed spec fn view(&self) -> StoreView {
        StoreView {
            home: opt_view(self.home),
            scratch: files_view(self.scratch@),
            presets: to_map(pairs(self.presets@)),
            marker: opt_view(self.marker),
            migrated: self.migrated,
            bindings: to_map(pairs(self.bindings@)),
            session_id: None,
            session_source: None,
        }
    }
}

pub proof fn lemma_pairs_sorted<V: View>(v: Seq<(String, V)>)
    requires
        vec_sorted(v),
    ensures
        sorted_keys(pairs(v)),
{
    let s = pairs(v);
    assert forall|i: int, j: int| 0 <= i < j < s.len() implies seq_lt(
        #[trigger] s[i].0,
        #[trigger] s[j].0,
    ) by {
        assert(s[i].0 == v[i].0@);
        assert(s[j].0 == v[j].0@);
    }
}

/// Store `val` under `key`, replacing any entry with that key.
pub fn vec_put<V: View>(v: &mut Vec<(String, V)>, key: String, val: V) -> (r: Result<usize, usize>)
    requires
        vec_sorted(old(v)@),
    ensures
        vec_sorted(final(v)@),
        to_map(pairs(final(v)@)) == to_map(pairs(old(v)@)).insert(key@, val@),
        (r is Ok) == to_map(pairs(old(v)@)).contains_key(key@),
        r matches Ok(i) ==> i < old(v)@.len() && final(v)@ == old(v)@.update(i as int, (key, val)),
        r matches Err(p) ==> p <= old(v)@.len() && final(v)@ == old(v)@.insert(p as int, (key, val)),
{
    proof {
        lemma_pairs_sorted(v@);
    }
    let ghost old_ps = pairs(v@);
    let ghost old_v = v@;
    match find_key(v, key.as_str()) {
        Ok(i) => {
            let ghost e = (key, val);
            proof {
                lemma_vec_update_sorted(v@, i as int, e);
                lemma_map_update(old_ps, i as int, val@);
                assert(pairs(v@.update(i as int, e)) =~= old_ps.update(
                    i as int,
                    (old_ps[i as int].0, val@),
                ));
            }
            proof {
                lemma_map_at(old_ps, i as int);
            }
            v.set(i, (key, val));
            Ok(i)
        },
        Err(p) => {
            let ghost e = (key, val);
            proof {
                lemma_vec_insert_sorted(v@, p as int, e);
                assert forall|j: int| 0 <= j < p implies seq_lt(#[trigger] old_ps[j].0, key@) by {
                    assert(old_ps[j].0 == v@[j].0@);
                }
                assert forall|j: int| p <= j < old_ps.len() implies seq_lt(
                    key@,
                    #[trigger] old_ps[j].0,
                ) by {
                    assert(old_ps[j].0 == v@[j].0@);
                }
                lemma_map_insert(old_ps, p as int, key@, val@);
                assert(pairs(v@.insert(p as int, e)) =~= old_ps.insert(p as int, (key@, val@)));
            }
            proof {
                if to_map(old_ps).dom().contains(key@) {
                    let j = choose|j: int| 0 <= j < old_ps.len() && #[trigger] old_ps[j].0 == key@;
                    assert(old_ps[j].0 == old_v[j].0@);
                    lemma_lt_irreflexive(key@);
                }
            }
            v.insert(p, (key, val));
            Err(p)
        },
    }
}

/// Remove the entry with key `key`, if any.
pub fn vec_remove_key<V: View>(v: &mut Vec<(String, V)>, key: &str) -> (r: Option<usize>)
    requires
        vec_sorted(old(v)@),
    ensures
        vec_sorted(final(v)@),
        to_map(pairs(final(v)@)) == to_map(pairs(old(v)@)).remove(key@),
        r matches Some(i) ==> i < old(v)@.len() && final(v)@ == old(v)@.remove(i as int),
        r is None ==> final(v)@ == old(v)@,
{
    proof {
        lemma_pairs_sorted(v@);
    }
    let ghost old_ps = pairs(v@);
    let ghost old_v = v@;
    match find_key(v, key) {
        Ok(i) => {
            proof {
                lemma_vec_remove_sorted(v@, i as int);
                lemma_map_remove(old_ps, i as int);
                assert(pairs(v@.remove(i as int)) =~= old_ps.remove(i as int));
            }
            v.remove(i);
            Some(i)
        },
        Err(p) => {
            proof {
                if to_map(old_ps).dom().contains(key@) {
                    let j = choose|j: int| 0 <= j < old_ps.len() && #[trigger] old_ps[j].0 == key@;
                    assert(old_ps[j].0 == v@[j].0@);
                    lemma_lt_irreflexive(key@);
                }
                assert(to_map(old_ps).remove(key@) =~= to_map(old_ps));
            }
            None
        },
    }
}

proof fn lemma_vec_insert_sorted<V>(v: Seq<(String, V)>, p: int, e: (String, V))
    requires
        vec_sorted(v),
        0 <= p <= v.len(),
        forall|j: int| 0 <= j < p ==> seq_lt(#[trigger] v[j].0@, e.0@),
        forall|j: int| p <= j < v.len() ==> seq_lt(e.0@, #[trigger] v[j].0@),
    ensures
        vec_sorted(v.insert(p, e)),
{
    let t = v.insert(p, e);
    assert forall|a: int, b: int| 0 <= a < b < t.len() implies seq_lt(
        #[trigger] t[a].0@,
        #[trigger] t[b].0@,
    ) by {
        if a < p && b > p {
            assert(t[b] == v[b - 1]);
            lemma_lt_transitive(v[a].0@, e.0@, v[b - 1].0@);
        } else if a > p {
            assert(t[a] == v[a - 1]);
            assert(t[b] == v[b - 1]);
        } else if a < p && b < p {
        } else if a == p {
            assert(t[b] == v[b - 1]);
        } else {
            assert(t[a] == v[a]);
        }
    }
}

proof fn lemma_vec_remove_sorted<V>(v: Seq<(String, V)>, i: int)
    requires
        vec_sorted(v),
        0 <= i < v.len(),
    ensures
        vec_sorted(v.remove(i)),
{
    let t = v.remove(i);
    assert forall|a: int, b: int| 0 <= a < b < t.len() implies seq_lt(
        #[trigger] t[a].0@,
        #[trigger] t[b].0@,
    ) by {
        if a < i && b >= i {
            assert(t[b] == v[b + 1]);
        } else if a >= i {
            assert(t[a] == v[a + 1]);
            assert(t[b] == v[b + 1]);
        }
    }
}

/// Removing an entry keeps a keyed vector sorted.
pub proof fn lemma_vec_remove_sorted_pub<V>(v: Seq<(String, V)>, i: int)
    requires
        vec_sorted(v),
        0 <= i < v.len(),
    ensures
        vec_sorted(v.remove(i)),
{
    lemma_vec_remove_sorted(v, i);
}

proof fn lemma_vec_update_sorted<V>(v: Seq<(String, V)>, i: int, e: (String, V))
    requires
        vec_sorted(v),
        0 <= i < v.len(),
        e.0@ == v[i].0@,
    ensures
        vec_sorted(v.update(i, e)),
{
    let t = v.update(i, e);
    assert forall|a: int, b: int| 0 <= a < b < t.len() implies seq_lt(
        #[trigger] t[a].0@,
        #[trigger] t[b].0@,
    ) by {
        assert(t[a].0@ == v[a].0@);
        assert(t[b].0@ == v[b].0@);
    }
}

impl Disk {
    /// An empty catalog under `home`, or with no home at all.
    pub fn new(home: Option<String>) -> (s: Disk)
        ensures
            s@ == empty_store(opt_view(home)),
    {
        let s = Disk {
            home: None,
            scratch: empty_files(),
            presets: Vec::new(),
            marker: None,
            migrated: false,
            bindings: Vec::new(),
        };
        proof {
            assert(files_view(s.scratch@) =~= no_files());
            assert(to_map(pairs(s.presets@)) =~= Map::empty());
            assert(to_map(pairs(s.bindings@)) =~= Map::empty());
        }
        let mut s = s;
        s.home = home;
        s
    }

    /// The state satisfies [`view_wf`].
    pub(crate) fn wf_holds(&self)
        ensures
            view_wf(self@),
    {
        proof { use_type_invariant(self); }
        proof {
        lemma_pairs_sorted(self.presets@);
        lemma_pairs_sorted(self.bindings@);
        }
        let ghost ps = pairs(self.presets@);
        let ghost bs = pairs(self.bindings@);
        assert forall|n: Seq<char>| #[trigger] self@.presets.contains_key(n) implies valid_name(n)
            && self@.presets[n].files.len() == 7 by {
            let i = choose|i: int| 0 <= i < ps.len() && #[trigger] ps[i].0 == n;
            lemma_map_at(ps, i);
            assert(ps[i] == (self.presets@[i].0@, self.presets@[i].1@));
        }
        proof {
        crate::keyed::lemma_map_len(ps);
        crate::keyed::lemma_map_len(bs);
        if self.home is None {
            assert(self@.presets.dom() =~= Set::empty());
            assert(self@.bindings.dom() =~= Set::empty());
        }
        }
    }

    fn preset_index(&self, name: &str) -> (r: Result<usize, usize>)
        ensures
            r matches Ok(i) ==> i < self.presets@.len() && self.presets@[i as int].0@ == name@
                && self@.presets.contains_key(name@) && self@.presets[name@]
                == self.presets@[i as int].1@,
            r matches Err(p) ==> !self@.presets.contains_key(name@),
    {
        proof {
            use_type_invariant(self);
            lemma_pairs_sorted(self.presets@);
        }
        let r = find_key(&self.presets, name);
        proof {
            let ps = pairs(self.presets@);
            match r {
                Ok(i) => {
                    lemma_map_at(ps, i as int);
                },
                Err(p) => {
                    if self@.presets.contains_key(name@) {
                        let j = choose|j: int| 0 <= j < ps.len() && #[trigger] ps[j].0 == name@;
                        assert(ps[j].0 == self.presets@[j].0@);
                        lemma_lt_irreflexive(name@);
                    }
                },
            }
        }
        r
    }

    /// The preset named `name`, if any.
    pub fn preset(&self, name: &str) -> (r: Option<&PresetDir>)
        ensures
            r matches Some(d) ==> self@.presets.contains_key(name@) && d@ == self@.presets[name@],
            r is None ==> !self@.presets.contains_key(name@),
    {
        match self.preset_index(name) {
            Ok(i) => Some(&self.presets[i].1),
            Err(_) => None,
        }
    }

    /// Store `dir` as the preset named `name`, replacing any preset of that name.
    pub(crate) fn put_preset(&mut self, name: String, dir: PresetDir)
        requires
            valid_name(name@),
            dir@.files.len() == 7,
            old(self)@.home is Some,
        ensures
            final(self)@ == (StoreView {
                presets: old(self)@.presets.insert(name@, dir@),
                ..old(self)@
            }),
    {
        proof {
            use_type_invariant(&*self);
        }
        let ghost old_v = self.presets@;
        let ghost e = (name, dir);
        let mut v: Vec<(String, PresetDir)> = Vec::new();
        std::mem::swap(&mut v, &mut self.presets);
        assert(v@ == old_v);
        let r = vec_put(&mut v, name, dir);
        proof {
            lemma_put_keeps_names(old_v, v@, e, r);
        }
        assert(vec_sorted(v@));
        assert(self.home is Some);
        self.presets = v;
    }

    /// Remove the preset named `name`, if any.
    pub(crate) fn drop_preset(&mut self, name: &str)
        ensures
            final(self)@ == (StoreView { presets: old(self)@.presets.remove(name@), ..old(self)@ }),
    {
        proof {
            use_type_invariant(&*self);
        }
        let ghost old_v = self.presets@;
        let mut v: Vec<(String, PresetDir)> = Vec::new();
        std::mem::swap(&mut v, &mut self.presets);
        assert(v@ == old_v);
        let r = vec_remove_key(&mut v, name);
        proof {
            lemma_remove_keeps_names(old_v, v@, r);
        }
        assert(vec_sorted(v@));
        if self.home.is_none() {
            assert(old_v.len() == 0);
            assert(v@.len() == 0);
        }
        self.presets = v;
    }
}

impl Disk {
    /// The home directory, when it could be resolved.
    pub fn home(&self) -> (r: &Option<String>)
        ensures
            opt_view(*r) == self@.home,
    {
        &self.home
    }

    /// Contents of the scratch override of catalog slot `i`.
    pub fn scratch_file(&self, i: usize) -> (r: &Option<String>)
        requires
            i < 7,
        ensures
            opt_view(*r) == self@.scratch[i as int],
    {
        proof {
            use_type_invariant(self);
        }
        &self.scratch[i]
    }

    /// Raw contents of the `.active` marker file.
    pub fn marker(&self) -> (r: &Option<String>)
        ensures
            opt_view(*r) == self@.marker,
    {
        &self.marker
    }

    /// Whether the scratch overrides were already promoted to a preset.
    pub fn migrated(&self) -> (r: bool)
        ensures
            r == self@.migrated,
    {
        self.migrated
    }

    /// The presets, ascending by name.
    pub fn preset_entries(&self) -> (r: &Vec<(String, PresetDir)>)
        ensures
            vec_sorted(r@),
            to_map(pairs(r@)) == self@.presets,
            forall|i: int|
                0 <= i < r@.len() ==> valid_name(#[trigger] r@[i].0@) && r@[i].1@.files.len()
                    == 7,
            sorted_keys(pairs(r@)),
    {
        proof {
            use_type_invariant(self);
            lemma_pairs_sorted(self.presets@);
        }
        &self.presets
    }

    /// The persisted session bindings, ascending by session id.
    pub fn binding_entries(&self) -> (r: &Vec<(String, SessionBinding)>)
        ensures
            vec_sorted(r@),
            sorted_keys(pairs(r@)),
            to_map(pairs(r@)) == self@.bindings,
    {
        proof {
            use_type_invariant(self);
            lemma_pairs_sorted(self.bindings@);
        }
        &self.bindings
    }

    pub(crate) fn set_scratch(&mut self, i: usize, content: Option<String>)
        requires
            i < 7,
            old(self)@.home is Some || content is None,
        ensures
            final(self)@ == (StoreView {
                scratch: old(self)@.scratch.update(i as int, opt_view(content)),
                ..old(self)@
            }),
    {
        proof {
            use_type_invariant(&*self);
        }
        let ghost old_v = self.scratch@;
        let mut v: Vec<Option<String>> = empty_files();
        std::mem::swap(&mut v, &mut self.scratch);
        v.set(i, content);
        assert(files_view(v@) =~= files_view(old_v).update(i as int, opt_view(content)));
        assert(self.home is None ==> forall|j: int| 0 <= j < 7 ==> #[trigger] v@[j] is None);
        self.scratch = v;
    }

    pub(crate) fn set_marker(&mut self, marker: Option<String>)
        requires
            old(self)@.home is Some || marker is None,
        ensures
            final(self)@ == (StoreView { marker: opt_view(marker), ..old(self)@ }),
    {
        proof {
            use_type_invariant(&*self);
        }
        self.marker = marker;
    }

    pub(crate) fn set_migrated(&mut self, migrated: bool)
        requires
            old(self)@.home is Some || !migrated,
        ensures
            final(self)@ == (StoreView { migrated, ..old(self)@ }),
    {
        proof {
            use_type_invariant(&*self);
        }
        self.migrated = migrated;
    }

    /// Take the binding vector out, leaving no bindings behind.
    pub(crate) fn take_bindings(&mut self) -> (r: Vec<(String, SessionBinding)>)
        ensures
            vec_sorted(r@),
            sorted_keys(pairs(r@)),
            to_map(pairs(r@)) == old(self)@.bindings,
            final(self)@ == (StoreView { bindings: Map::empty(), ..old(self)@ }),
    {
        proof {
            use_type_invariant(&*self);
            lemma_pairs_sorted(self.bindings@);
        }
        let mut v: Vec<(String, SessionBinding)> = Vec::new();
        std::mem::swap(&mut v, &mut self.bindings);
        assert(to_map(pairs(self.bindings@)) =~= Map::empty());
        v
    }

    /// Install `v` as the binding vector.
    pub(crate) fn put_bindings(&mut self, v: Vec<(String, SessionBinding)>)
        requires
            vec_sorted(v@),
            old(self)@.home is Some || v@.len() == 0,
        ensures
            final(self)@ == (StoreView { bindings: to_map(pairs(v@)), ..old(self)@ }),
    {
        proof {
            use_type_invariant(&*self);
        }
        self.bindings = v;
    }
}

/// Every preset entry has a valid name and one slot per catalog id.
pub open spec fn entries_ok(v: Seq<(String, PresetDir)>) -> bool {
    forall|j: int| 0 <= j < v.len() ==> valid_name(#[trigger] v[j].0@) && v[j].1@.files.len() == 7
}

proof fn lemma_remove_keeps_names(
    old_v: Seq<(String, PresetDir)>,
    v: Seq<(String, PresetDir)>,
    r: Option<usize>,
)
    requires
        entries_ok(old_v),
        r matches Some(i) ==> i < old_v.len() && v == old_v.remove(i as int),
        r is None ==> v == old_v,
    ensures
        entries_ok(v),
{
    assert forall|j: int| 0 <= j < v.len() implies valid_name(#[trigger] v[j].0@)
        && v[j].1@.files.len() == 7 by {
        match r {
            Some(i) => {
                if j < i {
                    assert(v[j] == old_v[j]);
                    assert(valid_name(old_v[j].0@));
                } else {
                    assert(v[j] == old_v[j + 1]);
                    assert(valid_name(old_v[j + 1].0@));
                }
            },
            None => {
                assert(valid_name(old_v[j].0@));
            },
        }
    }
}

proof fn lemma_put_keeps_names(
    old_v: Seq<(String, PresetDir)>,
    v: Seq<(String, PresetDir)>,
    e: (String, PresetDir),
    r: Result<usize, usize>,
)
    requires
        entries_ok(old_v),
        valid_name(e.0@),
        e.1@.files.len() == 7,
        r matches Ok(i) ==> i < old_v.len() && v == old_v.update(i as int, e),
        r matches Err(p) ==> p <= old_v.len() && v == old_v.insert(p as int, e),
    ensures
        entries_ok(v),
{
    assert forall|j: int| 0 <= j < v.len() implies valid_name(#[trigger] v[j].0@)
        && v[j].1@.files.len() == 7 by {
        match r {
            Ok(i) => {
                if j != i {
                    assert(v[j] == old_v[j]);
                    assert(valid_name(old_v[j].0@));
                } else {
                    assert(v[j] == e);
                }
            },
            Err(p) => {
                if j < p {
                    assert(v[j] == old_v[j]);
                    assert(valid_name(old_v[j].0@));
                } else if j > p {
                    assert(v[j] == old_v[j - 1]);
                    assert(valid_name(old_v[j - 1].0@));
                } else {
                    assert(v[j] == e);
                }
            },
        }
    }
}

/// The catalog state: what is stored under the home directory, plus the
/// session this process is bound to.
pub struct CatalogStore {
    disk: Disk,
    session_id: Option<String>,
    session_source: Option<PromptSource>,
}

impl View for CatalogStore {
    type V = StoreView;

    closed spec fn view(&self) -> StoreView {
        StoreView {
            session_id: opt_view(self.session_id),
            session_source: match self.session_source {
                Some(s) => Some(s@),
                None => None,
            },
            ..self.disk@
        }
    }
}

impl CatalogStore {
    /// An empty catalog under `home`, or with no home at all.
    pub fn new(home: Option<String>) -> (s: CatalogStore)
        ensures
            s@ == empty_store(opt_view(home)),
    {
        CatalogStore { disk: Disk::new(home), session_id: None, session_source: None }
    }

    /// The state satisfies [`view_wf`].
    pub(crate) fn wf_holds(&self)
        ensures
            view_wf(self@),
    {
        self.disk.wf_holds();
    }

    /// The preset named `name`, if any.
    pub fn preset(&self, name: &str) -> (r: Option<&PresetDir>)
        ensures
            r matches Some(d) ==> self@.presets.contains_key(name@) && d@ == self@.presets[name@],
            r is None ==> !self@.presets.contains_key(name@),
    {
        self.disk.preset(name)
    }

    pub(crate) fn put_preset(&mut self, name: String, dir: PresetDir)
        requires
            valid_name(name@),
            dir@.files.len() == 7,
            old(self)@.home is Some,
        ensures
            final(self)@ == (StoreView {
                presets: old(self)@.presets.insert(name@, dir@),
                ..old(self)@
            }),
    {
        self.disk.put_preset(name, dir);
    }

    pub(crate) fn drop_preset(&mut self, name: &str)
        ensures
            final(self)@ == (StoreView { presets: old(self)@.presets.remove(name@), ..old(self)@ }),
    {
        self.disk.drop_preset(name);
    }

    /// The home directory, when it could be resolved.
    pub fn home(&self) -> (r: &Option<String>)
        ensures
            opt_view(*r) == self@.home,
    {
        self.disk.home()
    }

    /// Contents of the scratch override of catalog slot `i`.
    pub fn scratch_file(&self, i: usize) -> (r: &Option<String>)
        requires
            i < 7,
        ensures
            opt_view(*r) == self@.scratch[i as int],
    {
        self.disk.scratch_file(i)
    }

    /// Raw contents of the `.active` marker file.
    pub fn marker(&self) -> (r: &Option<String>)
        ensures
            opt_view(*r) == self@.marker,
    {
        self.disk.marker()
    }

    /// Whether the scratch overrides were already promoted to a preset.
    pub fn migrated(&self) -> (r: bool)
        ensures
            r == self@.migrated,
    {
        self.disk.migrated()
    }

    /// The session this process resolves prompts for.
    pub fn session_id(&self) -> (r: &Option<String>)
        ensures
            opt_view(*r) == self@.session_id,
    {
        &self.session_id
    }

    /// The source this process resolves prompts from, once chosen.
    pub fn session_source(&self) -> (r: &Option<PromptSource>)
        ensures
            self@.session_source == match *r {
                Some(s) => Some(s@),
                None => None::<SourceView>,
            },
    {
        &self.session_source
    }

    /// The presets, ascending by name.
    pub fn preset_entries(&self) -> (r: &Vec<(String, PresetDir)>)
        ensures
            vec_sorted(r@),
            to_map(pairs(r@)) == self@.presets,
            forall|i: int|
                0 <= i < r@.len() ==> valid_name(#[trigger] r@[i].0@) && r@[i].1@.files.len()
                    == 7,
            sorted_keys(pairs(r@)),
    {
        self.disk.preset_entries()
    }

    /// The persisted session bindings, ascending by session id.
    pub fn binding_entries(&self) -> (r: &Vec<(String, SessionBinding)>)
        ensures
            vec_sorted(r@),
            sorted_keys(pairs(r@)),
            to_map(pairs(r@)) == self@.bindings,
    {
        self.disk.binding_entries()
    }

    pub(crate) fn set_scratch(&mut self, i: usize, content: Option<String>)
        requires
            i < 7,
            old(self)@.home is Some || content is None,
        ensures
            final(self)@ == (StoreView {
                scratch: old(self)@.scratch.update(i as int, opt_view(content)),
                ..old(self)@
            }),
    {
        self.disk.set_scratch(i, content);
    }

    pub(crate) fn set_marker(&mut self, marker: Option<String>)
        requires
            old(self)@.home is Some || marker is None,
        ensures
            final(self)@ == (StoreView { marker: opt_view(marker), ..old(self)@ }),
    {
        self.disk.set_marker(marker);
    }

    pub(crate) fn set_migrated(&mut self, migrated: bool)
        requires
            old(self)@.home is Some || !migrated,
        ensures
            final(self)@ == (StoreView { migrated, ..old(self)@ }),
    {
        self.disk.set_migrated(migrated);
    }

    pub(crate) fn set_session_id(&mut self, id: Option<String>)
        ensures
            final(self)@ == (StoreView { session_id: opt_view(id), ..old(self)@ }),
    {
        self.session_id = id;
    }

    pub(crate) fn set_session_source(&mut self, source: Option<PromptSource>)
        ensures
            final(self)@ == (StoreView {
                session_source: match source {
                    Some(s) => Some(s@),
                    None => None::<SourceView>,
                },
                ..old(self)@
            }),
    {
        self.session_source = source;
    }

    pub(crate) fn take_bindings(&mut self) -> (r: Vec<(String, SessionBinding)>)
        ensures
            vec_sorted(r@),
            sorted_keys(pairs(r@)),
            to_map(pairs(r@)) == old(self)@.bindings,
            final(self)@ == (StoreView { bindings: Map::empty(), ..old(self)@ }),
    {
        self.disk.take_bindings()
    }

    pub(crate) fn put_bindings(&mut self, v: Vec<(String, SessionBinding)>)
        requires
            vec_sorted(v@),
            old(self)@.home is Some || v@.len() == 0,
        ensures
            final(self)@ == (StoreView { bindings: to_map(pairs(v@)), ..old(self)@ }),
    {
        self.disk.put_bindings(v);
    }
}

/// A catalog with nothing stored yet.
pub open spec fn empty_store(home: Option<Seq<char>>) -> StoreView {
    StoreView {
        home,
        scratch: no_files(),
        presets: Map::empty(),
        marker: None,
        migrated: false,
        bindings: Map::empty(),
        session_id: None,
        session_source: None,
    }
}

} // verus!
