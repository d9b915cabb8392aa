//! Text handling: splitting content into grapheme clusters, measuring their
//! display width, and small helpers over sequences of `char`.

use unicode_segmentation::UnicodeSegmentation;
use unicode_width::UnicodeWidthStr;
use vstd::prelude::*;

verus! {

/// The extended grapheme clusters of `text`, in order, as
/// `unicode_segmentation` splits it.
pub uninterp spec fn grapheme_clusters(text: Seq<char>) -> Seq<Seq<char>>;

/// The number of columns that `unicode_width` assigns to `text`.
pub uninterp spec fn display_width(text: Seq<char>) -> nat;

/// The code points of each glyph of a list.
pub open spec fn glyphs_view(glyphs: Seq<Vec<char>>) -> Seq<Seq<char>> {
    Seq::new(glyphs.len(), |i: int| glyphs[i]@)
}

/// Calls `UnicodeSegmentation::graphemes(text, true)` and collects each
/// cluster as its code points. Trusted: the result is whatever that iterator
/// yields, which the contract only names.
#[verifier::external_body]
pub(crate) fn graphemes(text: &str) -> (r: Vec<Vec<char>>)
    ensures
        glyphs_view(r@) == grapheme_clusters(text@),
{
    UnicodeSegmentation::graphemes(text, true).map(|g| g.chars().collect()).collect()
}

/// Calls `UnicodeWidthStr::width` on the string made of `glyph`. Trusted: the
/// result is the width that the crate's tables give, which the contract only
/// names.
#[verifier::external_body]
pub(crate) fn width(glyph: &Vec<char>) -> (r: usize)
    ensures
        r == display_width(glyph@),
{
    let s: String = glyph.iter().collect();
    UnicodeWidthStr::width(s.as_str())
}

/// `String::push` appends one `char`.
pub assume_specification[ String::push ](s: &mut String, ch: char)
    ensures
        final(s)@ == old(s)@.push(ch),
;

/// Variation selector 16, which asks for emoji presentation.
pub const VS16: char = '\u{fe0f}';

/// Whether every code point of `glyph` is below 128.
pub open spec fn spec_is_ascii(glyph: Seq<char>) -> bool {
    forall|i: int| 0 <= i < glyph.len() ==> (#[trigger] glyph[i]) <= '\x7f'
}

/// Whether `glyph` holds variation selector 16.
pub open spec fn spec_has_selector(glyph: Seq<char>) -> bool {
    glyph.contains('\u{fe0f}')
}

pub fn is_ascii(glyph: &Vec<char>) -> (r: bool)
    ensures
        r == spec_is_ascii(glyph@),
{
    let mut i: usize = 0;
    while i < glyph.len()
        invariant
            i <= glyph.len(),
            forall|j: int| 0 <= j < i ==> (#[trigger] glyph@[j]) <= '\x7f',
        decreases glyph.len() - i,
    {
        if glyph[i] > '\x7f' {
            return false;
        }
        i += 1;
    }
    true
}

pub fn has_selector(glyph: &Vec<char>) -> (r: bool)
    ensures
        r == spec_has_selector(glyph@),
{
    let mut i: usize = 0;
    while i < glyph.len()
        invariant
            i <= glyph.len(),
            forall|j: int| 0 <= j < i ==> glyph@[j] != '\u{fe0f}',
        decreases glyph.len() - i,
    {
        if glyph[i] == VS16 {
            return true;
        }
        i += 1;
    }
    false
}

/// The string made of the code points of `chars`.
pub fn string_of(chars: &Vec<char>) -> (s: String)
    ensures
        s@ == chars@,
{
    let mut s = String::new();
    let mut i: usize = 0;
    while i < chars.len()
        invariant
            i <= chars.len(),
            s@ == chars@.take(i as int),
        decreases chars.len() - i,
    {
        s.push(chars[i]);
        proof {
            assert(chars@.take(i + 1) =~= chars@.take(i as int).push(chars@[i as int]));
        }
        i += 1;
    }
    proof {
        assert(chars@.take(chars.len() as int) =~= chars@);
    }
    s
}

/// A copy of `chars`.
pub fn copy_chars(chars: &Vec<char>) -> (r: Vec<char>)
    ensures
        r@ == chars@,
{
    let mut r: Vec<char> = Vec::new();
    let mut i: usize = 0;
    while i < chars.len()
        invariant
            i <= chars.len(),
            r@ == chars@.take(i as int),
        decreases chars.len() - i,
    {
        r.push(chars[i]);
        proof {
            assert(chars@.take(i + 1) =~= chars@.take(i as int).push(chars@[i as int]));
        }
        i += 1;
    }
    proof {
        assert(chars@.take(chars.len() as int) =~= chars@);
    }
    r
}

/// Whether two strings hold the same code points.
pub fn same_text(a: &str, b: &str) -> (r: bool)
    ensures
        r == (a@ == b@),
{
    let n = a.unicode_len();
    if n != b.unicode_len() {
        return false;
    }
    let mut i: usize = 0;
    while i < n
        invariant
            i <= n,
            n == a@.len(),
            n == b@.len(),
            forall|j: int| 0 <= j < i ==> a@[j] == b@[j],
        decreases n - i,
    {
        if a.get_char(i) != b.get_char(i) {
            return false;
        }
        i += 1;
    }
    proof {
        assert(a@ =~= b@);
    }
    true
}

} // verus!
