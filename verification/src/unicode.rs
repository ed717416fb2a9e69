//! Unicode case mapping and display widths, which the catalog browser takes
//! from the standard library and the `unicode-width` crate.
use vstd::prelude::*;

verus! {

/// What `str::to_lowercase` gives for a string.
pub uninterp spec fn lowercase_of(s: Seq<char>) -> Seq<char>;

/// Display width in columns that `UnicodeWidthChar::width` gives for a
/// character (`None` for control characters).
pub uninterp spec fn char_width(c: char) -> Option<usize>;

/// Display width in columns that `UnicodeWidthStr::width` gives for a string.
pub uninterp spec fn str_width(s: Seq<char>) -> usize;

/// Calls `str::to_lowercase`: the Unicode lowercase mapping of `s`, a
/// function of `s` alone. Nothing more is stated of the result.
#[verifier::external_body]
pub(crate) fn to_lowercase(s: &str) -> (r: String)
    ensures
        r@ == lowercase_of(s@),
{
    s.to_lowercase()
}

/// Calls `unicode_width::UnicodeWidthChar::width` on `c`: its display width,
/// a function of `c` alone. Nothing more is stated of the result.
#[verifier::external_body]
pub(crate) fn width_of_char(c: char) -> (r: Option<usize>)
    ensures
        r == char_width(c),
{
    unicode_width::UnicodeWidthChar::width(c)
}

/// Calls `unicode_width::UnicodeWidthStr::width` on `s`: its display width,
/// a function of `s` alone. Nothing more is stated of the result.
#[verifier::external_body]
pub(crate) fn width_of_str(s: &str) -> (r: usize)
    ensures
        r == str_width(s@),
{
    unicode_width::UnicodeWidthStr::width(s)
}

} // verus!
