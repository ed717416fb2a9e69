//! Preset name validation.
use vstd::prelude::*;

use crate::model::{CatalogErr, PromptCatalogError};
use crate::text::{chars_of, trim, trim_seq};

verus! {

/// Characters allowed in a preset name: `a-zA-Z0-9._-`.
pub open spec fn name_char(c: char) -> bool {
    ||| 'a' <= c <= 'z'
    ||| 'A' <= c <= 'Z'
    ||| '0' <= c <= '9'
    ||| c == '-'
    ||| c == '_'
    ||| c == '.'
}

/// A preset name: 1 to 64 allowed characters, not starting with a dot
/// (dot-prefixed entries are catalog control files, which rules out `.` and `..`).
pub open spec fn valid_name(t: Seq<char>) -> bool {
    &&& t.len() > 0
    &&& t[0] != '.'
    &&& t.len() <= 64
    &&& forall|i: int| 0 <= i < t.len() ==> name_char(#[trigger] t[i])
}

/// What validating `name` gives: the trimmed name, or the error naming it.
pub open spec fn validated(name: Seq<char>) -> Result<Seq<char>, CatalogErr> {
    if valid_name(trim_seq(name)) {
        Ok(trim_seq(name))
    } else {
        Err(CatalogErr::InvalidPresetName(trim_seq(name)))
    }
}

fn is_name_char(c: char) -> (b: bool)
    ensures
        b == name_char(c),
{
    ('a' <= c && c <= 'z') || ('A' <= c && c <= 'Z') || ('0' <= c && c <= '9') || c == '-' || c
        == '_' || c == '.'
}

/// Accept `a-zA-Z0-9._-` only, 1..=64 chars, no leading dot, after trimming.
pub fn validate_preset_name(name: &str) -> (r: Result<String, PromptCatalogError>)
    ensures
        match (r, validated(name@)) {
            (Ok(t), Ok(u)) => t@ == u,
            (Err(e), Err(f)) => e@ == f,
            _ => false,
        },
{
    let t = trim(name);
    let v = chars_of(t);
    let n = v.len();
    let mut ok = n > 0 && v[0] != '.' && n <= 64;
    let mut i: usize = 0;
    while ok && i < n
        invariant
            i <= n,
            n == t@.len(),
            v@ == t@,
            ok ==> (n > 0 && t@[0] != '.' && n <= 64),
            ok ==> forall|j: int| 0 <= j < i ==> name_char(#[trigger] t@[j]),
            !ok ==> !valid_name(t@),
        decreases n - i,
    {
        if !is_name_char(v[i]) {
            ok = false;
        }
        i = i + 1;
    }
    if ok {
        Ok(String::from_str(t))
    } else {
        Err(PromptCatalogError::InvalidPresetName(String::from_str(t)))
    }
}

/// A valid name has nothing to trim.
pub proof fn lemma_valid_name_trimmed(k: Seq<char>)
    requires
        valid_name(k),
    ensures
        trim_seq(k) == k,
{
    assert(!crate::text::is_ws(k[0]));
    assert(crate::text::trim_start_seq(k) == k);
    assert(!crate::text::is_ws(k.last())) by {
        assert(name_char(k[k.len() - 1]));
    }
    assert(crate::text::trim_end_seq(k) == k);
}

} // verus!
