//! The prompts browser: the catalog list with its category headers, the
//! filter over it, the selection and how it moves, the preview text, and the
//! text helpers its rows are drawn with.
use vstd::prelude::*;

use crate::model::{
    infos_view, source_preset_name, EffectivePrompt, EffectiveView, PresetInfoView,
    PromptPresetInfo,
};
use crate::catalog::{
    all_ids, category_label, id_category, id_description, id_is_template, id_name, id_title,
    list_prompts,
    PromptCategory, PromptId,
};
use crate::ops::{active_preset_name, effective_prompt, has_override, list_presets, resolve_body};
use crate::semantics::{effective_spec, listed, load_override_spec, session_source_spec};
use crate::store::{opt_view, CatalogStore, StoreView};
use crate::text::{chars_of, dec, decimal, str_eq};
use crate::unicode::{
    char_width, lowercase_of, str_width, to_lowercase, width_of_char, width_of_str,
};

verus! {

/// The browser's two tabs.
#[derive(Debug, Clone, Copy, PartialEq, Eq, Structural)]
pub enum PromptsTab {
    Catalog,
    Presets,
}

/// The tab that is not `t`.
pub open spec fn other_tab(t: PromptsTab) -> PromptsTab {
    match t {
        PromptsTab::Catalog => PromptsTab::Presets,
        PromptsTab::Presets => PromptsTab::Catalog,
    }
}

/// Label of a tab.
pub open spec fn tab_label(t: PromptsTab) -> Seq<char> {
    match t {
        PromptsTab::Catalog => "Catalog"@,
        PromptsTab::Presets => "Presets"@,
    }
}

impl PromptsTab {
    /// Both tabs, in display order.
    pub const ALL: [PromptsTab; 2] = [PromptsTab::Catalog, PromptsTab::Presets];

    /// Label shown in the tab strip.
    pub fn label(self) -> (s: &'static str)
        ensures
            s@ == tab_label(self),
    {
        match self {
            PromptsTab::Catalog => "Catalog",
            PromptsTab::Presets => "Presets",
        }
    }

    /// The other tab.
    pub fn other(self) -> (t: PromptsTab)
        ensures
            t == other_tab(self),
    {
        match self {
            PromptsTab::Catalog => PromptsTab::Presets,
            PromptsTab::Presets => PromptsTab::Catalog,
        }
    }
}

/// One row of the catalog list: a category header or a prompt.
#[derive(Debug, Clone)]
pub struct PromptListEntry {
    pub id: Option<PromptId>,
    pub label: String,
    pub meta_display: String,
    pub is_header: bool,
    pub is_override: bool,
}

/// Abstract value of a [`PromptListEntry`].
pub struct EntryView {
    pub id: Option<PromptId>,
    pub label: Seq<char>,
    pub meta_display: Seq<char>,
    pub is_header: bool,
    pub is_override: bool,
}

impl View for PromptListEntry {
    type V = EntryView;

    open spec fn view(&self) -> EntryView {
        EntryView {
            id: self.id,
            label: self.label@,
            meta_display: self.meta_display@,
            is_header: self.is_header,
            is_override: self.is_override,
        }
    }
}

/// Abstract values of a list of rows.
pub open spec fn entries_view(v: Seq<PromptListEntry>) -> Seq<EntryView> {
    v.map_values(|e: PromptListEntry| e@)
}

// ── Building the catalog list ──────────────────────────────────────────────

/// The ids of `ids` in category `c`, in order.
pub open spec fn in_category(ids: Seq<PromptId>, c: PromptCategory) -> Seq<PromptId>
    decreases ids.len(),
{
    if ids.len() == 0 {
        Seq::empty()
    } else {
        let rest = in_category(ids.drop_last(), c);
        if id_category(ids.last()) == c {
            rest.push(ids.last())
        } else {
            rest
        }
    }
}

/// The header row of category `c`.
pub open spec fn header_entry(c: PromptCategory) -> EntryView {
    EntryView {
        id: None,
        label: category_label(c),
        meta_display: Seq::empty(),
        is_header: true,
        is_override: false,
    }
}

/// The row of prompt `id`, marked by whether the session overrides it.
pub open spec fn prompt_entry(m: StoreView, id: PromptId) -> EntryView {
    let o = load_override_spec(m, id) is Some;
    EntryView {
        id: Some(id),
        label: id_title(id),
        meta_display: if o {
            "modified"@
        } else {
            "default"@
        },
        is_header: false,
        is_override: o,
    }
}

/// The rows of category `c`: its header, then its prompts; nothing when it
/// has no prompt.
pub open spec fn category_block(m: StoreView, c: PromptCategory) -> Seq<EntryView> {
    let ids = in_category(all_ids(), c);
    if ids.len() == 0 {
        Seq::empty()
    } else {
        seq![header_entry(c)] + ids.map_values(|id: PromptId| prompt_entry(m, id))
    }
}

/// The catalog list: each category's block, in category order.
pub open spec fn catalog_entries(m: StoreView) -> Seq<EntryView> {
    category_block(m, PromptCategory::Session) + category_block(m, PromptCategory::Subagents)
}

fn category_at(i: usize) -> (c: PromptCategory)
    requires
        i < 2,
    ensures
        c == (if i == 0 { PromptCategory::Session } else { PromptCategory::Subagents }),
{
    if i == 0 {
        PromptCategory::Session
    } else {
        PromptCategory::Subagents
    }
}

fn push_category(out: &mut Vec<PromptListEntry>, store: &CatalogStore, c: PromptCategory)
    ensures
        entries_view(final(out)@) == entries_view(old(out)@) + category_block(store@, c),
{
    let defs = list_prompts();
    let mut ids: Vec<PromptId> = Vec::new();
    let mut j: usize = 0;
    assert(all_ids().take(0) =~= Seq::<PromptId>::empty());
    while j < defs.len()
        invariant
            j <= 7,
            defs@.len() == 7,
            forall|i: int| 0 <= i < 7 ==> crate::catalog::definition_matches(#[trigger] defs@[i], all_ids()[i]),
            ids@ == in_category(all_ids().take(j as int), c),
        decreases defs.len() - j,
    {
        let d = defs[j];
        proof {
            assert(crate::catalog::definition_matches(defs@[j as int], all_ids()[j as int]));
            assert(all_ids().take(j + 1).drop_last() =~= all_ids().take(j as int));
            assert(all_ids().take(j + 1).last() == all_ids()[j as int]);
        }
        if d.category == c {
            ids.push(d.id);
        }
        j = j + 1;
    }
    assert(all_ids().take(7) =~= all_ids());
    if ids.len() == 0 {
        assert(entries_view(out@) + category_block(store@, c) =~= entries_view(out@));
        return;
    }
    let ghost before = entries_view(out@);
    out.push(
        PromptListEntry {
            id: None,
            label: String::from_str(c.label()),
            meta_display: String::new(),
            is_header: true,
            is_override: false,
        },
    );
    proof {
        reveal_strlit("");
        assert(entries_view(out@) =~= before + seq![header_entry(c)]);
    }
    let mut k: usize = 0;
    while k < ids.len()
        invariant
            k <= ids@.len(),
            ids@ == in_category(all_ids(), c),
            entries_view(out@) == before + seq![header_entry(c)] + ids@.take(k as int).map_values(
                |id: PromptId| prompt_entry(store@, id),
            ),
        decreases ids.len() - k,
    {
        let id = ids[k];
        let is_override = has_override(store, id);
        let meta = if is_override {
            String::from_str("modified")
        } else {
            String::from_str("default")
        };
        let ghost prev = entries_view(out@);
        out.push(
            PromptListEntry {
                id: Some(id),
                label: String::from_str(id.title()),
                meta_display: meta,
                is_header: false,
                is_override,
            },
        );
        proof {
            assert(ids@.take(k + 1) =~= ids@.take(k as int).push(id));
            assert(entries_view(out@) =~= prev.push(prompt_entry(store@, id)));
            assert(ids@.take(k + 1).map_values(|id: PromptId| prompt_entry(store@, id))
                =~= ids@.take(k as int).map_values(|id: PromptId| prompt_entry(store@, id)).push(
                prompt_entry(store@, id),
            ));
        }
        k = k + 1;
    }
    assert(ids@.take(k as int) =~= ids@);
}

/// The catalog list for the session's source: for each category, a header
/// row and one row per prompt, marked `modified` when the session overrides
/// it and `default` otherwise.
pub fn build_catalog_entries(store: &CatalogStore) -> (r: Vec<PromptListEntry>)
    ensures
        entries_view(r@) == catalog_entries(store@),
{
    let mut out: Vec<PromptListEntry> = Vec::new();
    let mut ci: usize = 0;
    assert(entries_view(out@) =~= Seq::<EntryView>::empty());
    while ci < 2
        invariant
            ci <= 2,
            entries_view(out@) == if ci == 0 {
                Seq::<EntryView>::empty()
            } else if ci == 1 {
                category_block(store@, PromptCategory::Session)
            } else {
                catalog_entries(store@)
            },
        decreases 2 - ci,
    {
        let c = category_at(ci);
        push_category(&mut out, store, c);
        proof {
            if ci == 0 {
                assert(Seq::<EntryView>::empty() + category_block(store@, c) =~= category_block(store@, c));
            }
        }
        ci = ci + 1;
    }
    out
}

// ── Filtering ──────────────────────────────────────────────────────────────

/// Whether `needle` occurs in `hay` (an empty needle always does).
pub open spec fn seq_contains(hay: Seq<char>, needle: Seq<char>) -> bool {
    exists|i: int| 0 <= i && i + needle.len() <= hay.len() && #[trigger] hay.subrange(i, i + needle.len()) == needle
}

/// Whether `needle` occurs in `hay`, as `str::contains` answers it.
pub fn contains_str(hay: &str, needle: &str) -> (r: bool)
    ensures
        r == seq_contains(hay@, needle@),
{
    let h = chars_of(hay);
    let n = chars_of(needle);
    if n.len() > h.len() {
        proof {
            if seq_contains(hay@, needle@) {
                let i = choose|i: int| 0 <= i && i + needle@.len() <= hay@.len() && #[trigger] hay@.subrange(i, i + needle@.len()) == needle@;
            }
        }
        return false;
    }
    let last = h.len() - n.len();
    let mut i: usize = 0;
    loop
        invariant
            h@ == hay@,
            n@ == needle@,
            n@.len() <= h@.len(),
            last == h@.len() - n@.len(),
            i <= last,
            forall|k: int| 0 <= k < i ==> #[trigger] hay@.subrange(k, k + needle@.len()) != needle@,
        decreases last - i,
    {
        let mut j: usize = 0;
        let mut same = true;
        while j < n.len()
            invariant
                h@ == hay@,
                n@ == needle@,
                i <= last,
                last == h@.len() - n@.len(),
                n@.len() <= h@.len(),
                i + n@.len() <= h.len(),
                j <= n@.len(),
                same ==> forall|t: int| 0 <= t < j ==> h@[i + t] == n@[t],
                !same ==> hay@.subrange(i as int, i + needle@.len()) != needle@,
            decreases n.len() - j,
        {
            if h[i + j] != n[j] {
                proof {
                    assert(hay@.subrange(i as int, i + needle@.len())[j as int] == h@[i + j]);
                }
                same = false;
            }
            j = j + 1;
        }
        if same {
            assert(hay@.subrange(i as int, i + needle@.len()) =~= needle@);
            return true;
        }
        if i == last {
            proof {
                if seq_contains(hay@, needle@) {
                    let k = choose|k: int| 0 <= k && k + needle@.len() <= hay@.len() && #[trigger] hay@.subrange(k, k + needle@.len()) == needle@;
                    assert(k <= i);
                }
            }
            return false;
        }
        i = i + 1;
    }
}

/// Whether prompt row `e` matches the lowercased query `needle`, given its
/// lowercased label and description: by label, file name or description.
pub open spec fn row_matches(e: EntryView, needle: Seq<char>, label_lower: Seq<char>, desc_lower: Seq<char>) -> bool {
    seq_contains(label_lower, needle) || match e.id {
        Some(id) => seq_contains(id_name(id), needle) || seq_contains(desc_lower, needle),
        None => false,
    }
}

/// The first `n` rows filtered: the kept positions, and the header still
/// waiting for its first matching row.
pub open spec fn filter_prefix(es: Seq<EntryView>, needle: Seq<char>, labels: Seq<Seq<char>>, descs: Seq<Seq<char>>, n: nat) -> (Seq<usize>, Option<usize>)
    decreases n,
{
    if n == 0 {
        (Seq::empty(), None)
    } else {
        let (kept, pending) = filter_prefix(es, needle, labels, descs, (n - 1) as nat);
        let i = (n - 1) as int;
        if es[i].is_header {
            (kept, Some(i as usize))
        } else if row_matches(es[i], needle, labels[i], descs[i]) {
            let with_header = match pending {
                Some(h) => kept.push(h),
                None => kept,
            };
            (with_header.push(i as usize), None)
        } else {
            (kept, pending)
        }
    }
}

/// Positions of the rows kept by the lowercased query `needle`: every
/// matching prompt row, each preceded by its category header the first time
/// that category has a match.
pub open spec fn filter_rows(es: Seq<EntryView>, needle: Seq<char>, labels: Seq<Seq<char>>, descs: Seq<Seq<char>>) -> Seq<usize> {
    filter_prefix(es, needle, labels, descs, es.len()).0
}

/// The lowercased description each row is matched against.
pub open spec fn desc_lower_of(e: EntryView) -> Seq<char> {
    match e.id {
        Some(id) => lowercase_of(id_description(id)),
        None => Seq::empty(),
    }
}

/// Positions of the rows of `es` kept by `query`: all of them for an empty
/// query, else the rows [`filter_rows`] keeps for the lowercased query.
pub open spec fn filtered_spec(es: Seq<EntryView>, query: Seq<char>) -> Seq<usize> {
    if query.len() == 0 {
        Seq::new(es.len(), |i: int| i as usize)
    } else {
        filter_rows(
            es,
            lowercase_of(query),
            Seq::new(es.len(), |i: int| lowercase_of(es[i].label)),
            Seq::new(es.len(), |i: int| desc_lower_of(es[i])),
        )
    }
}

/// Filter `entries` by the lowercased query `needle`, given each row's
/// lowercased label and description.
pub fn filter_matching(entries: &Vec<PromptListEntry>, needle: &str, labels: &Vec<String>, descs: &Vec<String>) -> (r: Vec<usize>)
    requires
        labels@.len() == entries@.len(),
        descs@.len() == entries@.len(),
    ensures
        r@ == filter_rows(
            entries_view(entries@),
            needle@,
            labels@.map_values(|s: String| s@),
            descs@.map_values(|s: String| s@),
        ),
{
    let ghost es = entries_view(entries@);
    let ghost ls = labels@.map_values(|s: String| s@);
    let ghost ds = descs@.map_values(|s: String| s@);
    let mut result: Vec<usize> = Vec::new();
    let mut pending: Option<usize> = None;
    let mut i: usize = 0;
    while i < entries.len()
        invariant
            i <= entries@.len(),
            labels@.len() == entries@.len(),
            descs@.len() == entries@.len(),
            es == entries_view(entries@),
            ls == labels@.map_values(|s: String| s@),
            ds == descs@.map_values(|s: String| s@),
            (result@, pending) == filter_prefix(es, needle@, ls, ds, i as nat),
        decreases entries.len() - i,
    {
        let entry = &entries[i];
        assert(es[i as int] == entry@);
        if entry.is_header {
            pending = Some(i);
        } else {
            let matched = contains_str(labels[i].as_str(), needle) || match entry.id {
                Some(id) => contains_str(id.as_str(), needle) || contains_str(descs[i].as_str(), needle),
                None => false,
            };
            assert(matched == row_matches(es[i as int], needle@, ls[i as int], ds[i as int]));
            if matched {
                match pending {
                    Some(h) => {
                        result.push(h);
                    },
                    None => {},
                }
                pending = None;
                result.push(i);
            }
        }
        i = i + 1;
    }
    result
}

/// Positions of the rows kept by `query`: all rows for an empty query;
/// otherwise every prompt whose title, file name or description contains the
/// query (ignoring case), each category header kept before its first match.
pub fn compute_filtered(entries: &Vec<PromptListEntry>, query: &str) -> (r: Vec<usize>)
    ensures
        r@ == filtered_spec(entries_view(entries@), query@),
{
    let ghost es = entries_view(entries@);
    if query.unicode_len() == 0 {
        let mut all: Vec<usize> = Vec::new();
        let mut i: usize = 0;
        while i < entries.len()
            invariant
                i <= entries@.len(),
                all@ == Seq::new(i as nat, |k: int| k as usize),
            decreases entries.len() - i,
        {
            all.push(i);
            proof {
                assert(all@ =~= Seq::new((i + 1) as nat, |k: int| k as usize));
            }
            i = i + 1;
        }
        return all;
    }
    let needle = to_lowercase(query);
    let mut labels: Vec<String> = Vec::new();
    let mut descs: Vec<String> = Vec::new();
    let mut i: usize = 0;
    while i < entries.len()
        invariant
            i <= entries@.len(),
            es == entries_view(entries@),
            labels@.len() == i,
            descs@.len() == i,
            forall|k: int| 0 <= k < i ==> #[trigger] labels@[k]@ == lowercase_of(es[k].label),
            forall|k: int| 0 <= k < i ==> #[trigger] descs@[k]@ == desc_lower_of(es[k]),
        decreases entries.len() - i,
    {
        let entry = &entries[i];
        assert(es[i as int] == entry@);
        labels.push(to_lowercase(entry.label.as_str()));
        let d = match entry.id {
            Some(id) => to_lowercase(id.description()),
            None => String::new(),
        };
        proof {
            reveal_strlit("");
        }
        descs.push(d);
        i = i + 1;
    }
    let r = filter_matching(entries, needle.as_str(), &labels, &descs);
    assert(labels@.map_values(|s: String| s@) =~= Seq::new(es.len(), |k: int| lowercase_of(es[k].label)));
    assert(descs@.map_values(|s: String| s@) =~= Seq::new(es.len(), |k: int| desc_lower_of(es[k])));
    r
}

/// Whether preset `p` matches the lowercased query `needle`: by name or
/// description.
pub open spec fn preset_matches(p: PresetInfoView, needle: Seq<char>) -> bool {
    seq_contains(lowercase_of(p.name), needle) || match p.description {
        Some(d) => seq_contains(lowercase_of(d), needle),
        None => false,
    }
}

/// Positions, among the first `n` presets, of those matching `needle`.
pub open spec fn matching_presets(ps: Seq<PresetInfoView>, needle: Seq<char>, n: nat) -> Seq<usize>
    decreases n,
{
    if n == 0 {
        Seq::empty()
    } else {
        let kept = matching_presets(ps, needle, (n - 1) as nat);
        if preset_matches(ps[n - 1], needle) {
            kept.push((n - 1) as usize)
        } else {
            kept
        }
    }
}

/// Positions of the presets kept by `query`: all of them for an empty query,
/// else those whose name or description contains the lowercased query.
pub open spec fn filtered_presets(ps: Seq<PresetInfoView>, query: Seq<char>) -> Seq<usize> {
    if query.len() == 0 {
        Seq::new(ps.len(), |i: int| i as usize)
    } else {
        matching_presets(ps, lowercase_of(query), ps.len())
    }
}

/// Positions of the presets kept by `query`: every preset for an empty
/// query; otherwise those whose name or description contains the query,
/// ignoring case.
pub fn compute_filtered_presets(presets: &Vec<PromptPresetInfo>, query: &str) -> (r: Vec<usize>)
    ensures
        r@ == filtered_presets(infos_view(presets@), query@),
{
    let ghost ps = infos_view(presets@);
    let mut out: Vec<usize> = Vec::new();
    if query.unicode_len() == 0 {
        let mut i: usize = 0;
        while i < presets.len()
            invariant
                i <= presets@.len(),
                out@ == Seq::new(i as nat, |k: int| k as usize),
            decreases presets.len() - i,
        {
            out.push(i);
            proof {
                assert(out@ =~= Seq::new((i + 1) as nat, |k: int| k as usize));
            }
            i = i + 1;
        }
        return out;
    }
    let needle = to_lowercase(query);
    let mut i: usize = 0;
    while i < presets.len()
        invariant
            i <= presets@.len(),
            ps == infos_view(presets@),
            needle@ == lowercase_of(query@),
            out@ == matching_presets(ps, needle@, i as nat),
        decreases presets.len() - i,
    {
        let p = &presets[i];
        assert(ps[i as int] == p@);
        let name = to_lowercase(p.name.as_str());
        let hit = contains_str(name.as_str(), needle.as_str()) || match &p.description {
            Some(d) => {
                let desc = to_lowercase(d.as_str());
                contains_str(desc.as_str(), needle.as_str())
            },
            None => false,
        };
        assert(hit == preset_matches(ps[i as int], needle@));
        if hit {
            out.push(i);
        }
        i = i + 1;
    }
    out
}

proof fn lemma_matching_presets_in_range(ps: Seq<PresetInfoView>, needle: Seq<char>, n: nat)
    requires
        n <= usize::MAX + 1,
    ensures
        forall|k: int| 0 <= k < matching_presets(ps, needle, n).len() ==> #[trigger] matching_presets(ps, needle, n)[k] < n,
    decreases n,
{
    if n > 0 {
        lemma_matching_presets_in_range(ps, needle, (n - 1) as nat);
        let kept = matching_presets(ps, needle, (n - 1) as nat);
        let last = (n - 1) as usize;
        assert(last as int == n - 1);
        if preset_matches(ps[n - 1], needle) {
            assert forall|k: int| 0 <= k < kept.push(last).len() implies #[trigger] kept.push(last)[k] < n by {
                if k < kept.len() {
                    assert(kept.push(last)[k] == kept[k]);
                }
            }
        }
    }
}

/// A preset among the first `n` that matches `needle` is kept.
pub(crate) proof fn lemma_matching_presets_keeps(ps: Seq<PresetInfoView>, needle: Seq<char>, n: nat, i: int)
    requires
        n <= ps.len(),
        ps.len() <= usize::MAX,
        0 <= i < n,
        preset_matches(ps[i], needle),
    ensures
        matching_presets(ps, needle, n).contains(i as usize),
    decreases n,
{
    let kept = matching_presets(ps, needle, (n - 1) as nat);
    let last = (n - 1) as int;
    if i == last {
        let out = kept.push(i as usize);
        assert(out[out.len() - 1] == i as usize);
    } else {
        lemma_matching_presets_keeps(ps, needle, (n - 1) as nat, i);
        let j = choose|j: int| 0 <= j < kept.len() && kept[j] == i as usize;
        if preset_matches(ps[last], needle) {
            assert(kept.push(last as usize)[j] == i as usize);
        }
    }
}

/// Every preset among the first `n` kept for `needle` matches it.
pub(crate) proof fn lemma_matching_presets_sound(ps: Seq<PresetInfoView>, needle: Seq<char>, n: nat)
    requires
        n <= ps.len(),
        ps.len() <= usize::MAX,
    ensures
        forall|j: int| 0 <= j < matching_presets(ps, needle, n).len() ==> {
            let p = #[trigger] matching_presets(ps, needle, n)[j];
            p < n && preset_matches(ps[p as int], needle)
        },
    decreases n,
{
    if n > 0 {
        lemma_matching_presets_sound(ps, needle, (n - 1) as nat);
        let kept = matching_presets(ps, needle, (n - 1) as nat);
        let last = (n - 1) as usize;
        assert(last as int == n - 1);
        if preset_matches(ps[n - 1], needle) {
            assert forall|j: int| 0 <= j < kept.push(last).len() implies {
                let p = #[trigger] kept.push(last)[j];
                p < n && preset_matches(ps[p as int], needle)
            } by {
                if j < kept.len() {
                    assert(kept.push(last)[j] == kept[j]);
                }
            }
        }
    }
}

/// Every position among the first `n` rows kept for `needle` is a header or
/// a matching prompt row.
pub(crate) proof fn lemma_filter_prefix_sound(es: Seq<EntryView>, needle: Seq<char>, ls: Seq<Seq<char>>, ds: Seq<Seq<char>>, n: nat)
    requires
        n <= es.len(),
        es.len() <= usize::MAX,
    ensures
        forall|j: int| 0 <= j < filter_prefix(es, needle, ls, ds, n).0.len() ==> {
            let p = #[trigger] filter_prefix(es, needle, ls, ds, n).0[j] as int;
            p < n && (es[p].is_header || row_matches(es[p], needle, ls[p], ds[p]))
        },
        filter_prefix(es, needle, ls, ds, n).1 matches Some(h) ==> h < n && es[h as int].is_header,
    decreases n,
{
    if n > 0 {
        lemma_filter_prefix_sound(es, needle, ls, ds, (n - 1) as nat);
        let (kept, pending) = filter_prefix(es, needle, ls, ds, (n - 1) as nat);
        let i = (n - 1) as int;
        let last = i as usize;
        assert(last as int == i);
        if !es[i].is_header && row_matches(es[i], needle, ls[i], ds[i]) {
            let with_header = match pending {
                Some(h) => kept.push(h),
                None => kept,
            };
            assert forall|j: int| 0 <= j < with_header.len() implies {
                let p = #[trigger] with_header[j] as int;
                p < n && (es[p].is_header || row_matches(es[p], needle, ls[p], ds[p]))
            } by {
                if j < kept.len() {
                    assert(with_header[j] == kept[j]);
                }
            }
            assert forall|j: int| 0 <= j < with_header.push(last).len() implies {
                let p = #[trigger] with_header.push(last)[j] as int;
                p < n && (es[p].is_header || row_matches(es[p], needle, ls[p], ds[p]))
            } by {
                if j < with_header.len() {
                    assert(with_header.push(last)[j] == with_header[j]);
                }
            }
        }
    }
}

proof fn lemma_filtered_presets_in_range(ps: Seq<PresetInfoView>, query: Seq<char>)
    requires
        ps.len() <= usize::MAX,
    ensures
        forall|k: int| 0 <= k < filtered_presets(ps, query).len() ==> #[trigger] filtered_presets(ps, query)[k] < ps.len(),
{
    if query.len() > 0 {
        lemma_matching_presets_in_range(ps, lowercase_of(query), ps.len());
    }
}

// ── Row text ───────────────────────────────────────────────────────────────

/// `v` clamped to the `u16` range.
pub fn sat_u16(v: usize) -> (r: u16)
    ensures
        r == (if v < 0xffff { v } else { 0xffff }),
{
    if v < 0xffff {
        v as u16
    } else {
        0xffff
    }
}

/// Columns a character of display width `w` takes (a control character none).
pub open spec fn col_width(w: Option<usize>) -> nat {
    match w {
        Some(w) => w as nat,
        None => 0,
    }
}

/// How many of the characters with display widths `ws`, taken in order,
/// fit whole in `max` columns when `used` are taken already.
pub open spec fn fit_count(ws: Seq<Option<usize>>, max: nat, used: nat) -> nat
    decreases ws.len(),
{
    if ws.len() == 0 {
        0
    } else if used + col_width(ws[0]) > max {
        0
    } else {
        1 + fit_count(ws.drop_first(), max, used + col_width(ws[0]))
    }
}

/// The display widths of the characters of `s`.
pub open spec fn char_widths(s: Seq<char>) -> Seq<Option<usize>> {
    s.map_values(|c: char| char_width(c))
}

/// `s` when it fits in `max` columns, else its longest prefix that does.
pub open spec fn truncated(s: Seq<char>, max: nat) -> Seq<char> {
    if str_width(s) <= max {
        s
    } else {
        s.take(fit_count(char_widths(s), max, 0) as int)
    }
}

/// How many characters of display widths `widths` fit whole in `max` columns.
pub fn fit_count_of(widths: &Vec<Option<usize>>, max: usize) -> (n: usize)
    ensures
        n == fit_count(widths@, max as nat, 0),
{
    let mut used: usize = 0;
    let mut i: usize = 0;
    assert(widths@.skip(0) =~= widths@);
    while i < widths.len()
        invariant
            i <= widths@.len(),
            used <= max,
            i + fit_count(widths@.skip(i as int), max as nat, used as nat) == fit_count(widths@, max as nat, 0),
        ensures
            i + fit_count(widths@.skip(i as int), max as nat, used as nat) == fit_count(widths@, max as nat, 0),
            fit_count(widths@.skip(i as int), max as nat, used as nat) == 0,
        decreases widths.len() - i,
    {
        let w = match widths[i] {
            Some(x) => x,
            None => 0,
        };
        let ghost rest = widths@.skip(i as int);
        assert(rest[0] == widths@[i as int]);
        assert(rest.drop_first() =~= widths@.skip(i + 1));
        if w > max - used {
            break;
        }
        used = used + w;
        i = i + 1;
    }
    proof {
        if i == widths.len() {
            assert(widths@.skip(i as int) =~= Seq::<Option<usize>>::empty());
        }
    }
    i
}

/// `s` (of display width `width`, its characters of display widths
/// `widths`) when it fits in `max` columns, else its longest prefix that does.
pub fn truncate_with_widths(s: &str, width: usize, widths: &Vec<Option<usize>>, max: usize) -> (r: String)
    requires
        widths@.len() == s@.len(),
    ensures
        r@ == (if width <= max { s@ } else { s@.take(fit_count(widths@, max as nat, 0) as int) }),
{
    if width <= max {
        return String::from_str(s);
    }
    let n = fit_count_of(widths, max);
    proof {
        lemma_fit_count_bound(widths@, max as nat, 0);
    }
    let r = String::from_str(s.substring_char(0, n));
    assert(r@ =~= s@.take(n as int));
    r
}

proof fn lemma_fit_count_bound(ws: Seq<Option<usize>>, max: nat, used: nat)
    ensures
        fit_count(ws, max, used) <= ws.len(),
    decreases ws.len(),
{
    if ws.len() > 0 && used + col_width(ws[0]) <= max {
        lemma_fit_count_bound(ws.drop_first(), max, used + col_width(ws[0]));
    }
}

/// The display width of each character of `s`.
pub(crate) fn widths_of(s: &str) -> (r: Vec<Option<usize>>)
    ensures
        r@ == char_widths(s@),
{
    let v = chars_of(s);
    let mut r: Vec<Option<usize>> = Vec::new();
    let mut i: usize = 0;
    while i < v.len()
        invariant
            v@ == s@,
            i <= v@.len(),
            r@ == char_widths(s@).take(i as int),
        decreases v.len() - i,
    {
        r.push(width_of_char(v[i]));
        i = i + 1;
        assert(r@ =~= char_widths(s@).take(i as int));
    }
    assert(char_widths(s@).take(i as int) =~= char_widths(s@));
    r
}

/// `s` cut to fit `max` display columns.
pub fn truncate_to_width(s: &str, max: usize) -> (r: String)
    ensures
        r@ == truncated(s@, max as nat),
{
    let width = width_of_str(s);
    let widths = widths_of(s);
    truncate_with_widths(s, width, &widths, max)
}

// ── Browser state ──────────────────────────────────────────────────────────

/// What the browser is doing; the text being typed in the editor, the name
/// field and the filter lives in the application's widgets.
#[derive(Debug)]
pub enum PromptsModalMode {
    /// Moving through the list.
    Browse,
    /// Typing into the filter.
    FilterFocused,
    /// Waiting for a second `r` to reset the row at this filtered position.
    ConfirmingReset { idx: usize },
    /// Editing the body of one prompt; `original` is the body it started from.
    Editing { id: PromptId, dirty: bool, original: String },
    /// Naming a preset for `purpose`; the name field starts out holding
    /// `suggestion`, and `error` is the last refusal.
    NamingPreset { purpose: NameFor, suggestion: String, error: Option<String> },
    /// Waiting for a second `d` to delete this preset.
    ConfirmingDeletePreset { name: String },
    /// Waiting for a second `c` to run the session on the built-in prompts.
    ConfirmingDefaults,
    /// A new preset's name is taken: waiting for `o` or `Enter` to replace
    /// that preset, or `Esc` to keep it.
    ConfirmingOverwrite { preset: String },
}

/// What a name typed into the name field is for.
#[derive(Debug)]
pub enum NameFor {
    /// A new preset from the session's prompts.
    New,
    /// A new name for this preset.
    Rename(String),
    /// A copy of this preset.
    Duplicate(String),
}

/// State of the prompts browser: which tab, the rows and presets it shows,
/// the filter, the selection and the preview text.
pub struct PromptsModalState {
    pub tab: PromptsTab,
    pub entries: Vec<PromptListEntry>,
    pub presets: Vec<PromptPresetInfo>,
    /// Position of the selection in `filtered_cache` (Catalog) or `presets`.
    pub selected: usize,
    pub scroll_offset: usize,
    /// Markdown shown beside the list for the selection.
    pub preview: Option<String>,
    pub preview_scroll: usize,
    pub mode: PromptsModalMode,
    pub query: String,
    pub fullscreen: bool,
    /// Positions in `entries` (Catalog) or `presets` (Presets) being shown.
    pub filtered_cache: Vec<usize>,
    pub status: Option<String>,
    /// Name of the preset the session runs on, for the title bar.
    pub active_preset: Option<String>,
    /// Terminal caret position of the field being typed into, once drawn.
    pub cursor_pos: Option<(u16, u16)>,
    /// Where the list was last drawn.
    pub list_area: Rect,
    /// Where the preview was last drawn.
    pub preview_area: Rect,
    /// Where the list's scrollbar was last drawn, when it had one.
    pub list_scrollbar_area: Option<Rect>,
    /// Where the preview's scrollbar was last drawn, when it had one.
    pub preview_scrollbar_area: Option<Rect>,
    /// Lines the preview wrapped to when last drawn.
    pub preview_total_lines: usize,
    /// Where the text field being typed into was last drawn.
    pub edit_area: Option<Rect>,
}

/// A screen rectangle, in terminal cells.
#[derive(Debug, Clone, Copy, PartialEq, Eq, Structural)]
pub struct Rect {
    pub x: u16,
    pub y: u16,
    pub width: u16,
    pub height: u16,
}

/// Whether cell (`column`, `row`) lies in the non-empty rectangle `r`.
pub open spec fn in_rect_spec(r: Rect, column: u16, row: u16) -> bool {
    r.width > 0 && r.height > 0 && r.x <= column < r.x + r.width && r.y <= row < r.y + r.height
}

impl Rect {
    /// The empty rectangle at the origin.
    pub fn empty() -> (r: Rect)
        ensures
            r == (Rect { x: 0, y: 0, width: 0, height: 0 }),
    {
        Rect { x: 0, y: 0, width: 0, height: 0 }
    }

    /// Whether cell (`column`, `row`) lies in this rectangle.
    pub fn contains(&self, column: u16, row: u16) -> (b: bool)
        ensures
            b == in_rect_spec(*self, column, row),
    {
        self.width > 0 && self.height > 0 && column >= self.x && (column as u32) < self.x as u32
            + self.width as u32 && row >= self.y && (row as u32) < self.y as u32 + self.height as u32
    }
}

/// Shown positions point at rows (Catalog tab) or at presets (Presets tab).
pub open spec fn modal_wf(s: PromptsModalState) -> bool {
    &&& s.tab == PromptsTab::Catalog ==> forall|k: int| 0 <= k < s.filtered_cache@.len() ==> #[trigger] s.filtered_cache@[k] < s.entries@.len()
    &&& s.tab == PromptsTab::Presets ==> forall|k: int| 0 <= k < s.filtered_cache@.len() ==> #[trigger] s.filtered_cache@[k] < s.presets@.len()
}

/// Whether shown position `k` holds a prompt row (not a header).
pub open spec fn selectable(s: PromptsModalState, k: int) -> bool {
    0 <= k < s.filtered_cache@.len() && !s.entries@[s.filtered_cache@[k] as int].is_header
}

/// The first prompt row at shown position `from` or later.
pub open spec fn next_row(s: PromptsModalState, from: int) -> Option<int>
    decreases s.filtered_cache@.len() - from,
{
    if from < 0 || from >= s.filtered_cache@.len() {
        None
    } else if selectable(s, from) {
        Some(from)
    } else {
        next_row(s, from + 1)
    }
}

/// The last prompt row at shown position `from` or earlier.
pub open spec fn prev_row(s: PromptsModalState, from: int) -> Option<int>
    decreases from + 1,
{
    if from < 0 || from >= s.filtered_cache@.len() {
        None
    } else if selectable(s, from) {
        Some(from)
    } else {
        prev_row(s, from - 1)
    }
}

/// The row under the selection (Catalog tab only).
pub open spec fn selected_entry_spec(s: PromptsModalState) -> Option<EntryView> {
    if s.tab == PromptsTab::Catalog && s.selected < s.filtered_cache@.len()
        && s.filtered_cache@[s.selected as int] < s.entries@.len() {
        Some(s.entries@[s.filtered_cache@[s.selected as int] as int]@)
    } else {
        None
    }
}

/// The preset under the selection (Presets tab only).
pub open spec fn selected_preset_info(s: PromptsModalState) -> Option<PresetInfoView> {
    if s.tab == PromptsTab::Presets && s.selected < s.filtered_cache@.len()
        && s.filtered_cache@[s.selected as int] < s.presets@.len() {
        Some(s.presets@[s.filtered_cache@[s.selected as int] as int]@)
    } else {
        None
    }
}

/// The name of the preset under the selection (Presets tab only).
pub open spec fn selected_preset_spec(s: PromptsModalState) -> Option<Seq<char>> {
    match selected_preset_info(s) {
        Some(p) => Some(p.name),
        None => None,
    }
}

/// `s` with only the selection moved to `k`.
pub open spec fn with_selected(s: PromptsModalState, k: int) -> PromptsModalState {
    PromptsModalState { selected: k as usize, ..s }
}

/// The positions the current tab shows: the filtered rows (Catalog) or the
/// filtered presets (Presets).
pub open spec fn shown_positions(s: PromptsModalState) -> Seq<usize> {
    match s.tab {
        PromptsTab::Catalog => filtered_spec(entries_view(s.entries@), s.query@),
        PromptsTab::Presets => filtered_presets(infos_view(s.presets@), s.query@),
    }
}

proof fn lemma_filtered_in_range(es: Seq<EntryView>, query: Seq<char>)
    ensures
        forall|k: int| 0 <= k < filtered_spec(es, query).len() ==> #[trigger] filtered_spec(es, query)[k] < es.len(),
{
    if query.len() > 0 {
        let needle = lowercase_of(query);
        let ls = Seq::new(es.len(), |i: int| lowercase_of(es[i].label));
        let ds = Seq::new(es.len(), |i: int| desc_lower_of(es[i]));
        lemma_filter_prefix_in_range(es, needle, ls, ds, es.len());
    }
}

/// A matching prompt row among the first `n` rows is kept.
pub(crate) proof fn lemma_filter_prefix_keeps_match(es: Seq<EntryView>, needle: Seq<char>, ls: Seq<Seq<char>>, ds: Seq<Seq<char>>, n: nat, i: int)
    requires
        n <= es.len(),
        es.len() <= usize::MAX,
        0 <= i < n,
        !es[i].is_header,
        row_matches(es[i], needle, ls[i], ds[i]),
    ensures
        filter_prefix(es, needle, ls, ds, n).0.contains(i as usize),
    decreases n,
{
    let (kept, pending) = filter_prefix(es, needle, ls, ds, (n - 1) as nat);
    let last = (n - 1) as int;
    if i == last {
        let with_header = match pending {
            Some(h) => kept.push(h),
            None => kept,
        };
        let out = with_header.push(i as usize);
        assert(out[out.len() - 1] == i as usize);
    } else {
        lemma_filter_prefix_keeps_match(es, needle, ls, ds, (n - 1) as nat, i);
        let j = choose|j: int| 0 <= j < kept.len() && kept[j] == i as usize;
        if !es[last].is_header && row_matches(es[last], needle, ls[last], ds[last]) {
            let with_header = match pending {
                Some(h) => kept.push(h),
                None => kept,
            };
            assert(with_header[j] == i as usize);
            assert(with_header.push(last as usize)[j] == i as usize);
        }
    }
}

proof fn lemma_filter_prefix_in_range(es: Seq<EntryView>, needle: Seq<char>, ls: Seq<Seq<char>>, ds: Seq<Seq<char>>, n: nat)
    requires
        n <= es.len(),
    ensures
        forall|k: int| 0 <= k < filter_prefix(es, needle, ls, ds, n).0.len() ==> #[trigger] filter_prefix(es, needle, ls, ds, n).0[k] < n,
        filter_prefix(es, needle, ls, ds, n).1 matches Some(h) ==> h < n,
    decreases n,
{
    if n > 0 {
        lemma_filter_prefix_in_range(es, needle, ls, ds, (n - 1) as nat);
    }
}

/// The selection put on the first prompt row (Catalog tab), when there is one.
pub open spec fn past_headers(s: PromptsModalState) -> PromptsModalState {
    if s.tab == PromptsTab::Catalog && next_row(s, 0) is Some {
        with_selected(s, next_row(s, 0)->0)
    } else {
        s
    }
}

/// The selection moved one prompt row (or preset) down, and whether it moved.
pub open spec fn next_spec(s: PromptsModalState) -> (PromptsModalState, bool) {
    match s.tab {
        PromptsTab::Catalog => match next_row(s, s.selected + 1) {
            Some(k) => (with_selected(s, k), true),
            None => (s, false),
        },
        PromptsTab::Presets => if s.selected + 1 < s.filtered_cache@.len() {
            (with_selected(s, s.selected + 1), true)
        } else {
            (s, false)
        },
    }
}

/// The selection moved one prompt row (or preset) up, and whether it moved.
pub open spec fn prev_spec(s: PromptsModalState) -> (PromptsModalState, bool) {
    if s.selected == 0 {
        (s, false)
    } else {
        match s.tab {
            PromptsTab::Catalog => match prev_row(s, s.selected - 1) {
                Some(k) => (with_selected(s, k), true),
                None => (s, false),
            },
            PromptsTab::Presets => (with_selected(s, s.selected - 1), true),
        }
    }
}

// ── Preview text ───────────────────────────────────────────────────────────

/// Preview of prompt `id`, resolved as `ep`, while `active` is the preset
/// the session runs on.
pub open spec fn catalog_preview(id: PromptId, ep: EffectiveView, active: Option<Seq<char>>) -> Seq<char> {
    let status = if ep.is_override {
        "**Status:** overridden (local)"@ + match ep.override_path {
            Some(p) => "  \n**Path:** `"@ + p + "`"@,
            None => Seq::<char>::empty(),
        }
    } else {
        "**Status:** default (built-in — updates with Grok Build)"@
    };
    let active_line = match active {
        Some(a) => "  \n**Active preset:** `"@ + a + "`"@,
        None => Seq::<char>::empty(),
    };
    let template_note = if id_is_template(id) {
        "\n\n> Template uses MiniJinja `${{ }}` / `${% %}` — keep syntax intact."@
    } else {
        Seq::<char>::empty()
    };
    let body_end = if ep.body.len() > 0 && ep.body.last() == '\n' {
        Seq::<char>::empty()
    } else {
        "\n"@
    };
    "# "@ + id_title(id) + "\n\n"@ + id_description(id) + "\n\n"@ + status + active_line + template_note
        + "\n\n*Enter / e* edit in TUI · *E* external editor · *r* reset\n\n---\n\n```\n"@ + ep.body
        + body_end + "```\n"@
}

/// `b` occurs in `a + b + c`.
pub(crate) proof fn lemma_contains_middle(a: Seq<char>, b: Seq<char>, c: Seq<char>)
    ensures
        seq_contains(a + b + c, b),
{
    let whole = a + b + c;
    assert(whole.subrange(a.len() as int, (a.len() + b.len()) as int) =~= b);
}

/// The preview of a prompt holds the body it was resolved to.
pub(crate) proof fn lemma_catalog_preview_holds_body(id: PromptId, ep: EffectiveView, active: Option<Seq<char>>)
    ensures
        seq_contains(catalog_preview(id, ep, active), ep.body),
{
    let status = if ep.is_override {
        "**Status:** overridden (local)"@ + match ep.override_path {
            Some(p) => "  \n**Path:** `"@ + p + "`"@,
            None => Seq::<char>::empty(),
        }
    } else {
        "**Status:** default (built-in — updates with Grok Build)"@
    };
    let active_line = match active {
        Some(a) => "  \n**Active preset:** `"@ + a + "`"@,
        None => Seq::<char>::empty(),
    };
    let template_note = if id_is_template(id) {
        "\n\n> Template uses MiniJinja `${{ }}` / `${% %}` — keep syntax intact."@
    } else {
        Seq::<char>::empty()
    };
    let body_end = if ep.body.len() > 0 && ep.body.last() == '\n' {
        Seq::<char>::empty()
    } else {
        "\n"@
    };
    let pre = "# "@ + id_title(id) + "\n\n"@ + id_description(id) + "\n\n"@ + status + active_line + template_note
        + "\n\n*Enter / e* edit in TUI · *E* external editor · *r* reset\n\n---\n\n```\n"@;
    let post = body_end + "```\n"@;
    assert(catalog_preview(id, ep, active) =~= pre + ep.body + post);
    lemma_contains_middle(pre, ep.body, post);
}

/// Preview of preset `p`.
pub open spec fn preset_preview(p: PresetInfoView) -> Seq<char> {
    "# Preset `"@ + p.name + "`\n\n"@ + "**Overrides:** "@ + dec(p.override_count) + " prompt(s)\n\n"@
        + (if p.is_active {
        "**Active** — this snapshot is currently applied.\n\n"@
    } else {
        Seq::<char>::empty()
    })
        + "Working overrides live in `$GROK_HOME/prompts/` (outside any git repo).\nPresets live in `$GROK_HOME/prompt-presets/`.\n\nDefaults always come from the binary templates — never from disk.\n\n*Enter* apply · *n* save current as new · *u* update selected · *d* delete · *c* clear to pure defaults\n"@
}

/// Preview shown when presets exist but the filter keeps none of them.
pub open spec fn no_match_preview() -> Seq<char> {
    "# Presets\n\nNo preset matches the filter.\n\nPress **Esc** and clear the filter to see every preset.\n"@
}

/// Preview shown when there is no preset.
pub open spec fn no_presets_preview() -> Seq<char> {
    "# Presets\n\nNo presets yet.\n\nPress **n** to save your current overrides as a named preset.\n\nPersonal prompts stay under `$GROK_HOME` and are never part of the source tree or GitHub rebuilds.\n"@
}

/// What the preview shows for the selection of `s` in catalog `m`.
pub open spec fn preview_spec(s: PromptsModalState, m: StoreView) -> Option<Seq<char>> {
    match s.tab {
        PromptsTab::Catalog => match selected_entry_spec(s) {
            Some(e) => if !e.is_header && e.id is Some {
                Some(catalog_preview(e.id->0, effective_spec(m, None, e.id->0), opt_view(s.active_preset)))
            } else {
                None
            },
            None => None,
        },
        PromptsTab::Presets => match selected_preset_info(s) {
            Some(p) => Some(preset_preview(p)),
            None => if s.presets@.len() == 0 {
                Some(no_presets_preview())
            } else {
                Some(no_match_preview())
            },
        },
    }
}

/// `t` is `s` with the preview recomputed for catalog `m` and scrolled to
/// the top.
pub open spec fn previewed(s: PromptsModalState, t: PromptsModalState, m: StoreView) -> bool {
    &&& t == PromptsModalState { preview: t.preview, preview_scroll: 0, ..s }
    &&& opt_view(t.preview) == preview_spec(s, m)
}

impl PromptsModalState {
    /// The filter text.
    pub fn query(&self) -> (r: &str)
        ensures
            r@ == self.query@,
    {
        self.query.as_str()
    }

    /// Terminal caret for the field being typed into, once drawn.
    pub fn caret(&self) -> (r: Option<(u16, u16)>)
        ensures
            r == self.cursor_pos,
    {
        self.cursor_pos
    }

    /// Recompute the shown positions for the current tab and filter.
    pub fn invalidate_filter(&mut self)
        ensures
            *final(self) == (PromptsModalState { filtered_cache: final(self).filtered_cache, ..*old(self) }),
            final(self).filtered_cache@ == shown_positions(*old(self)),
            modal_wf(*final(self)),
    {
        match self.tab {
            PromptsTab::Catalog => {
                let f = compute_filtered(&self.entries, self.query.as_str());
                proof {
                    lemma_filtered_in_range(entries_view(self.entries@), self.query@);
                    assert(entries_view(self.entries@).len() == self.entries@.len());
                }
                self.filtered_cache = f;
            },
            PromptsTab::Presets => {
                let f = compute_filtered_presets(&self.presets, self.query.as_str());
                let count = self.presets.len();
                proof {
                    assert(count == self.presets@.len());
                    assert(infos_view(self.presets@).len() == self.presets@.len());
                    lemma_filtered_presets_in_range(infos_view(self.presets@), self.query@);
                }
                self.filtered_cache = f;
            },
        }
    }

    /// The row under the selection, on the Catalog tab.
    pub fn selected_entry(&self) -> (r: Option<&PromptListEntry>)
        ensures
            match r {
                Some(e) => selected_entry_spec(*self) == Some(e@),
                None => selected_entry_spec(*self) is None,
            },
    {
        if self.tab != PromptsTab::Catalog {
            return None;
        }
        if self.selected < self.filtered_cache.len() {
            let i = self.filtered_cache[self.selected];
            if i < self.entries.len() {
                return Some(&self.entries[i]);
            }
        }
        None
    }

    /// Name of the preset under the selection, on the Presets tab.
    pub fn selected_preset_name(&self) -> (r: Option<String>)
        ensures
            match r {
                Some(n) => selected_preset_spec(*self) == Some(n@),
                None => selected_preset_spec(*self) is None,
            },
    {
        if self.tab != PromptsTab::Presets {
            return None;
        }
        if self.selected < self.filtered_cache.len() {
            let i = self.filtered_cache[self.selected];
            if i < self.presets.len() {
                return Some(self.presets[i].name.clone());
            }
        }
        None
    }

    fn first_row_from(&self, from: usize) -> (r: Option<usize>)
        requires
            modal_wf(*self),
            self.tab == PromptsTab::Catalog,
        ensures
            match r {
                Some(k) => next_row(*self, from as int) == Some(k as int),
                None => next_row(*self, from as int) is None,
            },
    {
        let mut k = from;
        while k < self.filtered_cache.len()
            invariant
                modal_wf(*self),
                self.tab == PromptsTab::Catalog,
                from <= k,
                next_row(*self, from as int) == next_row(*self, k as int),
            decreases self.filtered_cache.len() - k,
        {
            if !self.entries[self.filtered_cache[k]].is_header {
                return Some(k);
            }
            k = k + 1;
        }
        None
    }

    /// Put the selection on the first prompt row (Catalog tab); unchanged
    /// when no prompt row is shown.
    pub fn advance_past_headers(&mut self)
        requires
            modal_wf(*old(self)),
        ensures
            *final(self) == past_headers(*old(self)),
    {
        if self.tab != PromptsTab::Catalog {
            return;
        }
        match self.first_row_from(0) {
            Some(k) => {
                self.selected = k;
            },
            None => {},
        }
    }

    /// Move the selection to the next prompt row (Catalog) or preset
    /// (Presets); `false`, with nothing changed, when there is none.
    pub fn advance_next(&mut self) -> (moved: bool)
        requires
            modal_wf(*old(self)),
        ensures
            (*final(self), moved) == next_spec(*old(self)),
    {
        match self.tab {
            PromptsTab::Catalog => {
                if self.selected >= self.filtered_cache.len() {
                    assert(next_row(*self, self.selected + 1) is None);
                    return false;
                }
                match self.first_row_from(self.selected + 1) {
                    Some(k) => {
                        self.selected = k;
                        true
                    },
                    None => false,
                }
            },
            PromptsTab::Presets => {
                if self.selected < self.filtered_cache.len() && self.selected + 1 < self.filtered_cache.len() {
                    self.selected = self.selected + 1;
                    true
                } else {
                    false
                }
            },
        }
    }

    /// Move the selection to the previous prompt row (Catalog) or preset
    /// (Presets); `false`, with nothing changed, when there is none.
    pub fn advance_prev(&mut self) -> (moved: bool)
        requires
            modal_wf(*old(self)),
        ensures
            (*final(self), moved) == prev_spec(*old(self)),
    {
        match self.tab {
            PromptsTab::Catalog => {
                if self.selected == 0 {
                    return false;
                }
                if self.selected - 1 >= self.filtered_cache.len() {
                    assert(prev_row(*self, self.selected - 1) is None);
                    return false;
                }
                let mut k = self.selected - 1;
                loop
                    invariant
                        *self == *old(self),
                        modal_wf(*self),
                        self.tab == PromptsTab::Catalog,
                        self.selected > 0,
                        k < self.filtered_cache@.len(),
                        prev_row(*self, self.selected - 1) == prev_row(*self, k as int),
                    decreases k,
                {
                    if !self.entries[self.filtered_cache[k]].is_header {
                        self.selected = k;
                        return true;
                    }
                    if k == 0 {
                        assert(prev_row(*self, -1) is None);
                        return false;
                    }
                    k = k - 1;
                }
            },
            PromptsTab::Presets => {
                if self.selected == 0 {
                    false
                } else {
                    self.selected = self.selected - 1;
                    true
                }
            },
        }
    }
}

fn ends_with_newline(s: &str) -> (b: bool)
    ensures
        b == (s@.len() > 0 && s@.last() == '\n'),
{
    let n = s.unicode_len();
    n > 0 && s.get_char(n - 1) == '\n'
}

fn catalog_preview_text(id: PromptId, ep: &EffectivePrompt, active: &Option<String>) -> (r: String)
    requires
        ep.id == id,
    ensures
        r@ == catalog_preview(id, ep@, opt_view(*active)),
{
    let status = if ep.is_override {
        let head = String::from_str("**Status:** overridden (local)");
        match &ep.override_path {
            Some(p) => head.concat("  \n**Path:** `").concat(p.as_str()).concat("`"),
            None => {
                assert(head@ + Seq::<char>::empty() =~= head@);
                head
            },
        }
    } else {
        String::from_str("**Status:** default (built-in — updates with Grok Build)")
    };
    let active_line = match active {
        Some(a) => String::from_str("  \n**Active preset:** `").concat(a.as_str()).concat("`"),
        None => String::new(),
    };
    let template_note = if id.is_minijinja_template() {
        String::from_str("\n\n> Template uses MiniJinja `${{ }}` / `${% %}` — keep syntax intact.")
    } else {
        String::new()
    };
    let body_end = if ends_with_newline(ep.body.as_str()) {
        String::new()
    } else {
        String::from_str("\n")
    };
    proof {
        reveal_strlit("");
    }
    String::from_str("# ").concat(id.title()).concat("\n\n").concat(id.description()).concat(
        "\n\n",
    ).concat(status.as_str()).concat(active_line.as_str()).concat(template_note.as_str()).concat(
        "\n\n*Enter / e* edit in TUI · *E* external editor · *r* reset\n\n---\n\n```\n",
    ).concat(ep.body.as_str()).concat(body_end.as_str()).concat("```\n")
}

fn preset_preview_text(p: &PromptPresetInfo) -> (r: String)
    ensures
        r@ == preset_preview(p@),
{
    let active = if p.is_active {
        String::from_str("**Active** — this snapshot is currently applied.\n\n")
    } else {
        String::new()
    };
    proof {
        reveal_strlit("");
    }
    String::from_str("# Preset `").concat(p.name.as_str()).concat("`\n\n").concat("**Overrides:** ").concat(
        decimal(p.override_count).as_str(),
    ).concat(" prompt(s)\n\n").concat(active.as_str()).concat(
        "Working overrides live in `$GROK_HOME/prompts/` (outside any git repo).\nPresets live in `$GROK_HOME/prompt-presets/`.\n\nDefaults always come from the binary templates — never from disk.\n\n*Enter* apply · *n* save current as new · *u* update selected · *d* delete · *c* clear to pure defaults\n",
    )
}

impl PromptsModalState {
    /// Recompute the preview for the selection, scrolled to the top.
    pub fn load_preview(&mut self, store: &CatalogStore)
        ensures
            previewed(*old(self), *final(self), store@),
    {
        self.preview_scroll = 0;
        let ghost s0 = *old(self);
        match self.tab {
            PromptsTab::Catalog => {
                let text = match self.selected_entry() {
                    Some(e) => if !e.is_header {
                        match e.id {
                            Some(id) => match effective_prompt(store, id) {
                                Ok(ep) => Some(catalog_preview_text(id, &ep, &self.active_preset)),
                                Err(_) => None,
                            },
                            None => None,
                        }
                    } else {
                        None
                    },
                    None => None,
                };
                self.preview = text;
            },
            PromptsTab::Presets => {
                let mut shown: Option<usize> = None;
                if self.selected < self.filtered_cache.len() {
                    let i = self.filtered_cache[self.selected];
                    if i < self.presets.len() {
                        shown = Some(i);
                    }
                }
                if let Some(i) = shown {
                    let text = preset_preview_text(&self.presets[i]);
                    self.preview = Some(text);
                } else if self.presets.len() > 0 {
                    self.preview = Some(
                        String::from_str(
                            "# Presets\n\nNo preset matches the filter.\n\nPress **Esc** and clear the filter to see every preset.\n",
                        ),
                    );
                } else {
                    self.preview = Some(
                        String::from_str(
                            "# Presets\n\nNo presets yet.\n\nPress **n** to save your current overrides as a named preset.\n\nPersonal prompts stay under `$GROK_HOME` and are never part of the source tree or GitHub rebuilds.\n",
                        ),
                    );
                }
            },
        }
    }
}

// ── Moving around ──────────────────────────────────────────────────────────

/// Whether clicking shown position `i` selects it.
pub open spec fn select_at_ok(s: PromptsModalState, i: int) -> bool {
    &&& s.selected != i
    &&& match s.tab {
        PromptsTab::Catalog => selectable(s, i),
        PromptsTab::Presets => 0 <= i < s.filtered_cache@.len(),
    }
}

/// `t` is `s` with the selection clamped into the shown positions (moved off
/// a header) and the preview recomputed; with nothing shown, the selection
/// goes to the top and the preview is cleared.
pub open spec fn clamped(s: PromptsModalState, t: PromptsModalState, m: StoreView) -> bool {
    let n = s.filtered_cache@.len();
    if n == 0 {
        t == PromptsModalState { selected: 0, preview: None, ..s }
    } else {
        let s1 = if s.selected >= n { with_selected(s, n - 1) } else { s };
        let s2 = if s.tab == PromptsTab::Catalog && !selectable(s1, s1.selected as int) {
            past_headers(s1)
        } else {
            s1
        };
        previewed(s2, t, m)
    }
}

/// `t` is `s` with the rows, presets and active preset reloaded from `m` and
/// the shown positions recomputed; nothing else changes.
pub open spec fn reloaded(s: PromptsModalState, t: PromptsModalState, m: StoreView) -> bool {
    &&& t == PromptsModalState {
        entries: t.entries,
        presets: t.presets,
        active_preset: t.active_preset,
        filtered_cache: t.filtered_cache,
        ..s
    }
    &&& entries_view(t.entries@) == catalog_entries(m)
    &&& listed(m, infos_view(t.presets@))
    &&& opt_view(t.active_preset) == source_preset_name(session_source_spec(m))
    &&& t.filtered_cache@ == shown_positions(t)
}

/// The first shown position, from `from` on, whose row is prompt `id`.
pub open spec fn pos_with_id(s: PromptsModalState, id: PromptId, from: int) -> Option<int>
    decreases s.filtered_cache@.len() - from,
{
    if from < 0 || from >= s.filtered_cache@.len() {
        None
    } else if s.entries@[s.filtered_cache@[from] as int].id == Some(id) {
        Some(from)
    } else {
        pos_with_id(s, id, from + 1)
    }
}

/// The first shown position, from `from` on, of the preset called `name`.
pub open spec fn pos_named(s: PromptsModalState, name: Seq<char>, from: int) -> Option<int>
    decreases s.filtered_cache@.len() - from,
{
    if from < 0 || from >= s.filtered_cache@.len() {
        None
    } else if s.presets@[s.filtered_cache@[from] as int].name@ == name {
        Some(from)
    } else {
        pos_named(s, name, from + 1)
    }
}

impl PromptsModalState {
    /// Select the next prompt row (or preset), refreshing the preview.
    pub fn select_next(&mut self, store: &CatalogStore)
        requires
            modal_wf(*old(self)),
        ensures
            next_spec(*old(self)).1 ==> previewed(next_spec(*old(self)).0, *final(self), store@),
            !next_spec(*old(self)).1 ==> *final(self) == *old(self),
    {
        if self.advance_next() {
            self.load_preview(store);
        }
    }

    /// Select the previous prompt row (or preset), refreshing the preview.
    pub fn select_prev(&mut self, store: &CatalogStore)
        requires
            modal_wf(*old(self)),
        ensures
            prev_spec(*old(self)).1 ==> previewed(prev_spec(*old(self)).0, *final(self), store@),
            !prev_spec(*old(self)).1 ==> *final(self) == *old(self),
    {
        if self.advance_prev() {
            self.load_preview(store);
        }
    }

    /// Select shown position `filt_idx` (a click on the list); `false`, with
    /// nothing changed, for a header, a position past the end or the row
    /// already selected.
    pub fn select_at(&mut self, store: &CatalogStore, filt_idx: usize) -> (r: bool)
        requires
            modal_wf(*old(self)),
        ensures
            r == select_at_ok(*old(self), filt_idx as int),
            r ==> previewed(with_selected(*old(self), filt_idx as int), *final(self), store@),
            !r ==> *final(self) == *old(self),
    {
        match self.tab {
            PromptsTab::Catalog => {
                if filt_idx >= self.filtered_cache.len() {
                    return false;
                }
                if self.entries[self.filtered_cache[filt_idx]].is_header {
                    return false;
                }
                if self.selected == filt_idx {
                    return false;
                }
                self.selected = filt_idx;
                self.load_preview(store);
                true
            },
            PromptsTab::Presets => {
                if filt_idx >= self.filtered_cache.len() || self.selected == filt_idx {
                    return false;
                }
                self.selected = filt_idx;
                self.load_preview(store);
                true
            },
        }
    }

    /// Keep the selection on a shown prompt row (or preset) after the list
    /// changed, refreshing the preview.
    pub fn clamp_selected(&mut self, store: &CatalogStore)
        requires
            modal_wf(*old(self)),
        ensures
            clamped(*old(self), *final(self), store@),
    {
        match self.tab {
            PromptsTab::Catalog => {
                if self.filtered_cache.len() == 0 {
                    self.selected = 0;
                    self.preview = None;
                    return;
                }
                if self.selected >= self.filtered_cache.len() {
                    self.selected = self.filtered_cache.len() - 1;
                }
                if self.entries[self.filtered_cache[self.selected]].is_header {
                    self.advance_past_headers();
                }
                self.load_preview(store);
            },
            PromptsTab::Presets => {
                if self.filtered_cache.len() == 0 {
                    self.selected = 0;
                    self.preview = None;
                    return;
                }
                if self.selected >= self.filtered_cache.len() {
                    self.selected = self.filtered_cache.len() - 1;
                }
                self.load_preview(store);
            },
        }
    }

    /// Switch to `tab` (not while editing): browse mode, empty filter, back
    /// to the top on the first prompt row, preview refreshed.
    pub fn switch_tab(&mut self, store: &CatalogStore, tab: PromptsTab)
        requires
            modal_wf(*old(self)),
        ensures
            modal_wf(*final(self)),
            switched(*old(self), *final(self), store@, tab),
    {
        if self.tab == tab {
            return;
        }
        if let PromptsModalMode::Editing { .. } = self.mode {
            return;
        }
        self.tab = tab;
        self.mode = PromptsModalMode::Browse;
        self.query = String::new();
        self.scroll_offset = 0;
        self.selected = 0;
        self.invalidate_filter();
        if tab == PromptsTab::Catalog {
            self.advance_past_headers();
        }
        self.load_preview(store);
    }

    /// Go to the Presets tab in browse mode with the filter cleared, without
    /// reloading anything.
    pub(crate) fn land_on_presets(&mut self)
        ensures
            onto_presets(*old(self), *final(self)),
            modal_wf(*final(self)),
    {
        self.mode = PromptsModalMode::Browse;
        self.tab = PromptsTab::Presets;
        self.query = String::new();
        proof {
            reveal_strlit("");
        }
        self.invalidate_filter();
    }

    /// Start editing prompt `id` from the body the session resolves it to.
    pub fn begin_edit(&mut self, store: &CatalogStore, id: PromptId)
        ensures
            *final(self) == (PromptsModalState { mode: final(self).mode, status: None, ..*old(self) }),
            final(self).mode matches PromptsModalMode::Editing { id: i, dirty, original } && i == id && !dirty
                && original@ == effective_spec(store@, None, id).body,
    {
        let body = resolve_body(store, id);
        self.mode = PromptsModalMode::Editing { id, dirty: false, original: body };
        self.status = None;
    }

    /// Reload the rows, presets and active preset from the catalog.
    pub fn reload_data(&mut self, store: &CatalogStore)
        ensures
            reloaded(*old(self), *final(self), store@),
            modal_wf(*final(self)),
    {
        self.entries = build_catalog_entries(store);
        self.presets = match list_presets(store) {
            Ok(p) => p,
            Err(_) => Vec::new(),
        };
        self.active_preset = match active_preset_name(store) {
            Ok(n) => n,
            Err(_) => None,
        };
        self.invalidate_filter();
    }

    fn find_id(&self, id: PromptId) -> (r: Option<usize>)
        requires
            modal_wf(*self),
            self.tab == PromptsTab::Catalog,
        ensures
            match r {
                Some(k) => pos_with_id(*self, id, 0) == Some(k as int),
                None => pos_with_id(*self, id, 0) is None,
            },
    {
        let mut k: usize = 0;
        while k < self.filtered_cache.len()
            invariant
                modal_wf(*self),
                self.tab == PromptsTab::Catalog,
                pos_with_id(*self, id, 0) == pos_with_id(*self, id, k as int),
            decreases self.filtered_cache.len() - k,
        {
            if self.entries[self.filtered_cache[k]].id == Some(id) {
                return Some(k);
            }
            k = k + 1;
        }
        None
    }

    fn find_name(&self, name: &str) -> (r: Option<usize>)
        requires
            modal_wf(*self),
            self.tab == PromptsTab::Presets,
        ensures
            match r {
                Some(k) => pos_named(*self, name@, 0) == Some(k as int),
                None => pos_named(*self, name@, 0) is None,
            },
    {
        let mut k: usize = 0;
        while k < self.filtered_cache.len()
            invariant
                modal_wf(*self),
                self.tab == PromptsTab::Presets,
                pos_named(*self, name@, 0) == pos_named(*self, name@, k as int),
            decreases self.filtered_cache.len() - k,
        {
            if str_eq(self.presets[self.filtered_cache[k]].name.as_str(), name) {
                return Some(k);
            }
            k = k + 1;
        }
        None
    }
}

/// Where the selection lands after the rows of `s0` were reloaded into
/// `s1`: on the same prompt (Catalog) or preset (Presets) when it is still
/// shown, else on the first prompt row, the clamped position or the top.
/// `t` is the state before the final preview refresh.
pub open spec fn reselected(s0: PromptsModalState, s1: PromptsModalState, t: PromptsModalState, m: StoreView) -> bool {
    match s0.tab {
        PromptsTab::Catalog => match selected_entry_spec(s0) {
            Some(e) if e.id is Some => match pos_with_id(s1, e.id->0, 0) {
                Some(k) => t == with_selected(s1, k),
                None => t == past_headers(s1),
            },
            _ => clamped(s1, t, m),
        },
        PromptsTab::Presets => match selected_preset_spec(s0) {
            Some(n) => match pos_named(s1, n, 0) {
                Some(k) => t == with_selected(s1, k),
                None => t == with_selected(s1, 0),
            },
            None => t == with_selected(s1, 0),
        },
    }
}

/// `t` is `s0` after [`PromptsModalState::refresh`] against catalog `m`.
pub open spec fn refreshed(s0: PromptsModalState, t: PromptsModalState, m: StoreView) -> bool {
    let s1 = PromptsModalState {
        entries: t.entries,
        presets: t.presets,
        active_preset: t.active_preset,
        filtered_cache: t.filtered_cache,
        ..s0
    };
    &&& reloaded(s0, s1, m)
    &&& exists|u: PromptsModalState| #[trigger] reselected(s0, s1, u, m) && if s0.mode is Editing {
        t == u
    } else {
        previewed(u, t, m)
    }
}

/// `u` is `s` moved to the Presets tab in browse mode, with an empty filter
/// and every preset shown.
pub open spec fn onto_presets(s: PromptsModalState, u: PromptsModalState) -> bool {
    &&& u == PromptsModalState {
        mode: PromptsModalMode::Browse,
        tab: PromptsTab::Presets,
        query: u.query,
        filtered_cache: u.filtered_cache,
        ..s
    }
    &&& u.query@ == Seq::<char>::empty()
    &&& u.filtered_cache@ == shown_positions(u)
}

/// `t` is `s` after [`PromptsModalState::switch_tab`] to `tab`.
pub open spec fn switched(s: PromptsModalState, t: PromptsModalState, m: StoreView, tab: PromptsTab) -> bool {
    if s.tab == tab || s.mode is Editing {
        t == s
    } else {
        let s1 = PromptsModalState {
            tab,
            mode: PromptsModalMode::Browse,
            query: t.query,
            scroll_offset: 0,
            selected: 0,
            ..s
        };
        let s2 = PromptsModalState { filtered_cache: t.filtered_cache, ..s1 };
        &&& t.query@ == Seq::<char>::empty()
        &&& t.filtered_cache@ == shown_positions(s1)
        &&& previewed(past_headers(s2), t, m)
    }
}


proof fn lemma_next_row_rows_only(a: PromptsModalState, b: PromptsModalState, from: int)
    requires
        a.filtered_cache == b.filtered_cache,
        a.entries == b.entries,
    ensures
        next_row(a, from) == next_row(b, from),
    decreases a.filtered_cache@.len() - from,
{
    if 0 <= from < a.filtered_cache@.len() {
        lemma_next_row_rows_only(a, b, from + 1);
    }
}

impl PromptsModalState {
    /// Reload everything from the catalog, keeping the selection on the same
    /// prompt or preset where it is still shown; the preview is refreshed
    /// unless a prompt is being edited.
    pub fn refresh(&mut self, store: &CatalogStore)
        requires
            modal_wf(*old(self)),
        ensures
            modal_wf(*final(self)),
            refreshed(*old(self), *final(self), store@),
    {
        let ghost s0 = *self;
        let selected_id = match self.selected_entry() {
            Some(e) => e.id,
            None => None,
        };
        let selected_preset = self.selected_preset_name();
        self.reload_data(store);
        let ghost s1 = *self;
        match self.tab {
            PromptsTab::Catalog => {
                match selected_id {
                    Some(id) => {
                        match self.find_id(id) {
                            Some(k) => {
                                self.selected = k;
                            },
                            None => {
                                self.advance_past_headers();
                            },
                        }
                    },
                    None => {
                        self.clamp_selected(store);
                    },
                }
            },
            PromptsTab::Presets => {
                match selected_preset {
                    Some(name) => {
                        match self.find_name(name.as_str()) {
                            Some(i) => {
                                self.selected = i;
                            },
                            None => {
                                self.selected = 0;
                            },
                        }
                    },
                    None => {
                        self.selected = 0;
                    },
                }
            },
        }
        let ghost t = *self;
        assert(reselected(s0, s1, t, store@));
        let editing = match self.mode {
            PromptsModalMode::Editing { .. } => true,
            _ => false,
        };
        if !editing {
            self.load_preview(store);
        }
    }

    /// A browser on the Catalog tab, with the selection on the first prompt
    /// row and its preview shown.
    pub fn new(store: &CatalogStore) -> (s: PromptsModalState)
        ensures
            modal_wf(s),
            s.tab == PromptsTab::Catalog,
            s.mode is Browse,
            s.query@ == Seq::<char>::empty(),
            !s.fullscreen,
            s.status is None,
            s.cursor_pos is None,
            s.scroll_offset == 0,
            s.preview_scroll == 0,
            entries_view(s.entries@) == catalog_entries(store@),
            listed(store@, infos_view(s.presets@)),
            opt_view(s.active_preset) == source_preset_name(session_source_spec(store@)),
            s.filtered_cache@ == shown_positions(s),
            s.selected == match next_row(s, 0) {
                Some(k) => k as usize,
                None => 0usize,
            },
            opt_view(s.preview) == preview_spec(s, store@),
    {
        let mut state = PromptsModalState {
            tab: PromptsTab::Catalog,
            entries: Vec::new(),
            presets: Vec::new(),
            selected: 0,
            scroll_offset: 0,
            preview: None,
            preview_scroll: 0,
            mode: PromptsModalMode::Browse,
            query: String::new(),
            fullscreen: false,
            filtered_cache: Vec::new(),
            status: None,
            active_preset: None,
            cursor_pos: None,
            list_area: Rect::empty(),
            preview_area: Rect::empty(),
            list_scrollbar_area: None,
            preview_scrollbar_area: None,
            preview_total_lines: 0,
            edit_area: None,
        };
        proof {
            reveal_strlit("");
        }
        state.reload_data(store);
        let ghost s1 = state;
        state.advance_past_headers();
        state.load_preview(store);
        proof {
            lemma_next_row_rows_only(s1, state, 0);
        }
        state
    }
}

} // verus!
