//! Ordered, duplicate-free keyed sequences and the maps they stand for.
//!
//! Presets and session bindings are stored as vectors of `(key, value)`
//! pairs kept strictly ascending by key; their abstract value is a `Map`.
use vstd::prelude::*;

verus! {

/// Strict lexicographic order on character sequences (code point order, which
/// is also the byte order of their UTF-8 encodings).
pub open spec fn seq_lt(a: Seq<char>, b: Seq<char>) -> bool
    decreases a.len(),
{
    if a.len() == 0 {
        b.len() > 0
    } else if b.len() == 0 {
        false
    } else if (a[0] as u32) < (b[0] as u32) {
        true
    } else if a[0] == b[0] {
        seq_lt(a.drop_first(), b.drop_first())
    } else {
        false
    }
}

/// No sequence is below itself.
pub proof fn lemma_lt_irreflexive(a: Seq<char>)
    ensures
        !seq_lt(a, a),
    decreases a.len(),
{
    if a.len() > 0 {
        lemma_lt_irreflexive(a.drop_first());
    }
}

/// The order is transitive.
pub proof fn lemma_lt_transitive(a: Seq<char>, b: Seq<char>, c: Seq<char>)
    requires
        seq_lt(a, b),
        seq_lt(b, c),
    ensures
        seq_lt(a, c),
    decreases a.len(),
{
    if a.len() > 0 && b.len() > 0 && c.len() > 0 {
        if a[0] == b[0] && b[0] == c[0] {
            lemma_lt_transitive(a.drop_first(), b.drop_first(), c.drop_first());
        }
    }
}

/// Two different sequences are ordered one way or the other.
pub proof fn lemma_lt_total(a: Seq<char>, b: Seq<char>)
    ensures
        a == b || seq_lt(a, b) || seq_lt(b, a),
    decreases a.len(),
{
    if a.len() > 0 && b.len() > 0 && a[0] == b[0] {
        lemma_lt_total(a.drop_first(), b.drop_first());
        if a.drop_first() == b.drop_first() {
            assert(a =~= seq![a[0]] + a.drop_first());
            assert(b =~= seq![b[0]] + b.drop_first());
        }
    } else if a.len() == 0 && b.len() == 0 {
        assert(a =~= b);
    } else if a.len() > 0 && b.len() > 0 {
        lemma_char_u32_injective(a[0], b[0]);
    }
}

proof fn lemma_char_u32_injective(c1: char, c2: char)
    ensures
        (c1 as u32) == (c2 as u32) ==> c1 == c2,
{
}

/// Whether `a` sorts strictly before `b`.
pub fn str_lt(a: &str, b: &str) -> (r: bool)
    ensures
        r == seq_lt(a@, b@),
{
    let va = crate::text::chars_of(a);
    let vb = crate::text::chars_of(b);
    let mut i: usize = 0;
    assert(a@.skip(0) =~= a@);
    assert(b@.skip(0) =~= b@);
    while i < va.len() && i < vb.len() && va[i] == vb[i]
        invariant
            i <= va@.len(),
            i <= vb@.len(),
            va@ == a@,
            vb@ == b@,
            seq_lt(a@, b@) == seq_lt(a@.skip(i as int), b@.skip(i as int)),
        decreases va.len() - i,
    {
        assert(a@.skip(i as int).drop_first() =~= a@.skip(i + 1));
        assert(b@.skip(i as int).drop_first() =~= b@.skip(i + 1));
        i = i + 1;
    }
    if i == va.len() {
        i < vb.len()
    } else if i == vb.len() {
        false
    } else {
        (va[i] as u32) < (vb[i] as u32)
    }
}

/// Keys of a keyed sequence.
pub open spec fn keys<V>(s: Seq<(Seq<char>, V)>) -> Seq<Seq<char>> {
    s.map_values(|e: (Seq<char>, V)| e.0)
}

/// Keys strictly ascending (hence distinct).
pub open spec fn sorted_keys<V>(s: Seq<(Seq<char>, V)>) -> bool {
    forall|i: int, j: int| 0 <= i < j < s.len() ==> seq_lt(#[trigger] s[i].0, #[trigger] s[j].0)
}

/// Some entry of `s` has key `k`.
pub open spec fn has_key<V>(s: Seq<(Seq<char>, V)>, k: Seq<char>) -> bool {
    exists|i: int| 0 <= i < s.len() && #[trigger] s[i].0 == k
}

/// The map that a keyed sequence stands for.
pub open spec fn to_map<V>(s: Seq<(Seq<char>, V)>) -> Map<Seq<char>, V> {
    Map::new(
        |k: Seq<char>| has_key(s, k),
        |k: Seq<char>| s[choose|i: int| 0 <= i < s.len() && #[trigger] s[i].0 == k].1,
    )
}

/// Sorted keys are distinct.
pub proof fn lemma_sorted_distinct<V>(s: Seq<(Seq<char>, V)>, i: int, j: int)
    requires
        sorted_keys(s),
        0 <= i < s.len(),
        0 <= j < s.len(),
        s[i].0 == s[j].0,
    ensures
        i == j,
{
    if i < j {
        lemma_lt_irreflexive(s[i].0);
    } else if j < i {
        lemma_lt_irreflexive(s[i].0);
    }
}

/// The entry at `i` is what the map holds under its key.
pub proof fn lemma_map_at<V>(s: Seq<(Seq<char>, V)>, i: int)
    requires
        sorted_keys(s),
        0 <= i < s.len(),
    ensures
        to_map(s).dom().contains(s[i].0),
        to_map(s)[s[i].0] == s[i].1,
{
    assert(has_key(s, s[i].0));
    let j = choose|j: int| 0 <= j < s.len() && #[trigger] s[j].0 == s[i].0;
    lemma_sorted_distinct(s, i, j);
}

/// Replacing the value at `i` updates the map under that key.
pub proof fn lemma_map_update<V>(s: Seq<(Seq<char>, V)>, i: int, v: V)
    requires
        sorted_keys(s),
        0 <= i < s.len(),
    ensures
        sorted_keys(s.update(i, (s[i].0, v))),
        to_map(s.update(i, (s[i].0, v))) =~= to_map(s).insert(s[i].0, v),
{
    let t = s.update(i, (s[i].0, v));
    assert(sorted_keys(t)) by {
        assert forall|a: int, b: int| 0 <= a < b < t.len() implies seq_lt(
            #[trigger] t[a].0,
            #[trigger] t[b].0,
        ) by {
            assert(t[a].0 == s[a].0);
            assert(t[b].0 == s[b].0);
        }
    }
    assert forall|k: Seq<char>| has_key(t, k) == (has_key(s, k) || k == s[i].0) by {
        if has_key(s, k) {
            let j = choose|j: int| 0 <= j < s.len() && #[trigger] s[j].0 == k;
            assert(t[j].0 == k);
        }
        if has_key(t, k) {
            let j = choose|j: int| 0 <= j < t.len() && #[trigger] t[j].0 == k;
            assert(s[j].0 == k);
        }
        if k == s[i].0 {
            assert(t[i].0 == k);
        }
    }
    assert forall|k: Seq<char>| #[trigger] to_map(t).dom().contains(k) implies to_map(t)[k]
        == to_map(s).insert(s[i].0, v)[k] by {
        let j = choose|j: int| 0 <= j < t.len() && #[trigger] t[j].0 == k;
        lemma_map_at(t, j);
        if j != i {
            lemma_map_at(s, j);
            if k == s[i].0 {
                lemma_sorted_distinct(t, i, j);
            }
        }
    }
}

/// Inserting a new key at its sorted place adds it to the map.
pub proof fn lemma_map_insert<V>(s: Seq<(Seq<char>, V)>, p: int, k: Seq<char>, v: V)
    requires
        sorted_keys(s),
        0 <= p <= s.len(),
        forall|j: int| 0 <= j < p ==> seq_lt(#[trigger] s[j].0, k),
        forall|j: int| p <= j < s.len() ==> seq_lt(k, #[trigger] s[j].0),
    ensures
        sorted_keys(s.insert(p, (k, v))),
        !has_key(s, k),
        to_map(s.insert(p, (k, v))) =~= to_map(s).insert(k, v),
{
    let t = s.insert(p, (k, v));
    assert(sorted_keys(t)) by {
        assert forall|a: int, b: int| 0 <= a < b < t.len() implies seq_lt(
            #[trigger] t[a].0,
            #[trigger] t[b].0,
        ) by {
            if b < p {
            } else if b == p {
            } else if a < p {
                assert(t[b].0 == s[b - 1].0);
                lemma_lt_transitive(s[a].0, k, s[b - 1].0);
            } else if a == p {
            } else {
            }
        }
    }
    assert(!has_key(s, k)) by {
        if has_key(s, k) {
            let j = choose|j: int| 0 <= j < s.len() && #[trigger] s[j].0 == k;
            lemma_lt_irreflexive(k);
        }
    }
    assert forall|q: Seq<char>| has_key(t, q) == (has_key(s, q) || q == k) by {
        if has_key(s, q) {
            let j = choose|j: int| 0 <= j < s.len() && #[trigger] s[j].0 == q;
            if j < p {
                assert(t[j].0 == q);
            } else {
                assert(t[j + 1].0 == q);
            }
        }
        if has_key(t, q) {
            let j = choose|j: int| 0 <= j < t.len() && #[trigger] t[j].0 == q;
            if j < p {
                assert(s[j].0 == q);
            } else if j > p {
                assert(s[j - 1].0 == q);
            }
        }
        if q == k {
            assert(t[p].0 == q);
        }
    }
    assert forall|q: Seq<char>| #[trigger] to_map(t).dom().contains(q) implies to_map(t)[q]
        == to_map(s).insert(k, v)[q] by {
        let j = choose|j: int| 0 <= j < t.len() && #[trigger] t[j].0 == q;
        lemma_map_at(t, j);
        if j < p {
            lemma_map_at(s, j);
        } else if j > p {
            lemma_map_at(s, j - 1);
        }
    }
}

/// Removing the entry at `i` removes its key from the map.
pub proof fn lemma_map_remove<V>(s: Seq<(Seq<char>, V)>, i: int)
    requires
        sorted_keys(s),
        0 <= i < s.len(),
    ensures
        sorted_keys(s.remove(i)),
        to_map(s.remove(i)) =~= to_map(s).remove(s[i].0),
{
    let t = s.remove(i);
    assert(sorted_keys(t)) by {
        assert forall|a: int, b: int| 0 <= a < b < t.len() implies seq_lt(
            #[trigger] t[a].0,
            #[trigger] t[b].0,
        ) by {
            if a < i && b >= i {
                assert(t[b].0 == s[b + 1].0);
            } else if a >= i {
                assert(t[a].0 == s[a + 1].0);
                assert(t[b].0 == s[b + 1].0);
            }
        }
    }
    assert forall|q: Seq<char>| has_key(t, q) == (has_key(s, q) && q != s[i].0) by {
        if has_key(s, q) && q != s[i].0 {
            let j = choose|j: int| 0 <= j < s.len() && #[trigger] s[j].0 == q;
            if j < i {
                assert(t[j].0 == q);
            } else {
                assert(t[j - 1].0 == q);
            }
        }
        if has_key(t, q) {
            let j = choose|j: int| 0 <= j < t.len() && #[trigger] t[j].0 == q;
            if j < i {
                assert(s[j].0 == q);
                if q == s[i].0 {
                    lemma_sorted_distinct(s, i, j);
                }
            } else {
                assert(s[j + 1].0 == q);
                if q == s[i].0 {
                    lemma_sorted_distinct(s, i, j + 1);
                }
            }
        }
    }
    assert forall|q: Seq<char>| #[trigger] to_map(t).dom().contains(q) implies to_map(t)[q]
        == to_map(s).remove(s[i].0)[q] by {
        let j = choose|j: int| 0 <= j < t.len() && #[trigger] t[j].0 == q;
        lemma_map_at(t, j);
        if j < i {
            lemma_map_at(s, j);
        } else {
            lemma_map_at(s, j + 1);
        }
    }
}

/// The map of a sorted keyed sequence has one entry per element.
pub proof fn lemma_map_len<V>(s: Seq<(Seq<char>, V)>)
    requires
        sorted_keys(s),
    ensures
        to_map(s).dom() =~= keys(s).to_set(),
        to_map(s).len() == s.len(),
{
    let ks = keys(s);
    assert forall|k: Seq<char>| to_map(s).dom().contains(k) == ks.to_set().contains(k) by {
        if has_key(s, k) {
            let j = choose|j: int| 0 <= j < s.len() && #[trigger] s[j].0 == k;
            assert(ks[j] == k);
        }
        if ks.contains(k) {
            let j = choose|j: int| 0 <= j < ks.len() && ks[j] == k;
            assert(s[j].0 == k);
        }
    }
    assert(ks.no_duplicates()) by {
        assert forall|a: int, b: int| 0 <= a < ks.len() && 0 <= b < ks.len() && a != b implies ks[a]
            != ks[b] by {
            if ks[a] == ks[b] {
                lemma_sorted_distinct(s, a, b);
            }
        }
    }
    ks.unique_seq_to_set();
}

} // verus!
