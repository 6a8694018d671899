//! Character-level facts about untrusted text: Unicode white space and
//! grapheme-cluster counts.

use unicode_segmentation::UnicodeSegmentation;
use vstd::prelude::*;

verus! {

/// The code points that Unicode classes as `White_Space`.
pub open spec fn is_white_space(c: char) -> bool {
    let n = c as u32;
    ||| 0x09 <= n <= 0x0D
    ||| n == 0x20
    ||| n == 0x85
    ||| n == 0xA0
    ||| n == 0x1680
    ||| 0x2000 <= n <= 0x200A
    ||| n == 0x2028
    ||| n == 0x2029
    ||| n == 0x202F
    ||| n == 0x205F
    ||| n == 0x3000
}

/// A text is blank when nothing is left of it once white space is trimmed
/// away, that is when every character of it is white space.
pub open spec fn is_blank(s: Seq<char>) -> bool {
    forall|i: int| 0 <= i < s.len() ==> is_white_space(#[trigger] s[i])
}

/// `s` without the white space it begins with.
pub open spec fn trimmed_start(s: Seq<char>) -> Seq<char>
    decreases s.len(),
{
    if s.len() > 0 && is_white_space(s.first()) {
        trimmed_start(s.drop_first())
    } else {
        s
    }
}

/// `s` without the white space it ends with.
pub open spec fn trimmed_end(s: Seq<char>) -> Seq<char>
    decreases s.len(),
{
    if s.len() > 0 && is_white_space(s.last()) {
        trimmed_end(s.drop_last())
    } else {
        s
    }
}

/// `s` without the white space around it. White space between other
/// characters stays.
pub open spec fn trimmed(s: Seq<char>) -> Seq<char> {
    trimmed_end(trimmed_start(s))
}

/// Number of extended grapheme clusters in `s`, as Unicode Standard Annex 29
/// segments it.
pub uninterp spec fn grapheme_count(s: Seq<char>) -> nat;

/// Calls `UnicodeSegmentation::graphemes(s, true)` and counts the clusters.
///
/// Trusted: the count is a function of the text alone and is named
/// [`grapheme_count`]. The iterator hands out non-empty, non-overlapping
/// slices of `s`, so there are never more clusters than characters.
#[verifier::external_body]
pub(crate) fn count_graphemes(s: &str) -> (n: usize)
    ensures
        n == grapheme_count(s@),
        n <= s@.len(),
{
    s.graphemes(true).count()
}

/// Calls `str::trim`.
///
/// Trusted: what comes back is the text without its leading and trailing
/// white space, white space being the characters that Unicode classes as
/// `White_Space`.
#[verifier::external_body]
pub(crate) fn trim(s: &str) -> (kept: &str)
    ensures
        kept@ == trimmed(s@),
{
    s.trim()
}

/// Calls `String::push`.
///
/// Trusted: the character is appended and nothing else changes.
#[verifier::external_body]
pub(crate) fn push_char(s: &mut String, c: char)
    ensures
        final(s)@ == old(s)@.push(c),
{
    s.push(c)
}

pub fn is_whitespace_char(c: char) -> (b: bool)
    ensures
        b == is_white_space(c),
{
    let n: u32 = c as u32;
    (0x09 <= n && n <= 0x0D) || n == 0x20 || n == 0x85 || n == 0xA0 || n == 0x1680 || (0x2000 <= n
        && n <= 0x200A) || n == 0x2028 || n == 0x2029 || n == 0x202F || n == 0x205F || n == 0x3000
}

pub fn is_blank_str(s: &str) -> (b: bool)
    ensures
        b == is_blank(s@),
{
    let mut blank = true;
    for c in it: s.chars()
        invariant
            it.seq() == s@,
            blank == (forall|i: int| 0 <= i < it.index() ==> is_white_space(#[trigger] s@[i])),
    {
        if !is_whitespace_char(c) {
            blank = false;
        }
    }
    blank
}

/// What is left when leading white space is dropped is the end of the
/// text, begins with a character that is not white space, and leaves only
/// white space behind.
pub proof fn lemma_trimmed_start(s: Seq<char>)
    ensures
        trimmed_start(s).len() <= s.len(),
        trimmed_start(s) == s.skip(s.len() - trimmed_start(s).len()),
        forall|i: int| 0 <= i < s.len() - trimmed_start(s).len() ==> is_white_space(#[trigger] s[i]),
        trimmed_start(s).len() > 0 ==> !is_white_space(trimmed_start(s).first()),
    decreases s.len(),
{
    if s.len() > 0 && is_white_space(s.first()) {
        let rest = s.drop_first();
        let kept = trimmed_start(rest);
        lemma_trimmed_start(rest);
        assert(rest.skip(rest.len() - kept.len()) =~= s.skip(s.len() - kept.len()));
        assert forall|i: int| 0 <= i < s.len() - kept.len() implies is_white_space(
            #[trigger] s[i],
        ) by {
            if i > 0 {
                assert(s[i] == rest[i - 1]);
            }
        }
    } else {
        assert(s.skip(0) =~= s);
    }
}

/// What is left when trailing white space is dropped is the beginning of
/// the text, ends with a character that is not white space, and leaves only
/// white space behind.
pub proof fn lemma_trimmed_end(s: Seq<char>)
    ensures
        trimmed_end(s).len() <= s.len(),
        trimmed_end(s) == s.take(trimmed_end(s).len() as int),
        forall|i: int| trimmed_end(s).len() <= i < s.len() ==> is_white_space(#[trigger] s[i]),
        trimmed_end(s).len() > 0 ==> !is_white_space(trimmed_end(s).last()),
    decreases s.len(),
{
    if s.len() > 0 && is_white_space(s.last()) {
        let rest = s.drop_last();
        let kept = trimmed_end(rest);
        lemma_trimmed_end(rest);
        assert(rest.take(kept.len() as int) =~= s.take(kept.len() as int));
        assert forall|i: int| kept.len() <= i < s.len() implies is_white_space(#[trigger] s[i]) by {
            if i < s.len() - 1 {
                assert(s[i] == rest[i]);
            }
        }
    } else {
        assert(s.take(s.len() as int) =~= s);
    }
}

/// Where the trimmed text begins in `s`.
pub open spec fn trimmed_offset(s: Seq<char>) -> int {
    s.len() - trimmed_start(s).len()
}

/// The trimmed text is a stretch of the text it was taken from, so each of
/// its characters is a character of that text. It is empty exactly when the
/// text is blank, and otherwise begins and ends with a character that is not
/// white space.
pub proof fn lemma_trimmed(s: Seq<char>)
    ensures
        0 <= trimmed_offset(s) <= trimmed_offset(s) + trimmed(s).len() <= s.len(),
        trimmed(s) == s.subrange(trimmed_offset(s), trimmed_offset(s) + trimmed(s).len()),
        forall|i: int|
            0 <= i < trimmed(s).len() ==> #[trigger] trimmed(s)[i] == s[trimmed_offset(s) + i],
        is_blank(s) <==> trimmed(s).len() == 0,
        trimmed(s).len() > 0 ==> !is_white_space(trimmed(s).first()) && !is_white_space(
            trimmed(s).last(),
        ),
{
    let middle = trimmed_start(s);
    let kept = trimmed(s);
    let offset = trimmed_offset(s);
    lemma_trimmed_start(s);
    lemma_trimmed_end(middle);
    assert(kept =~= s.subrange(offset, offset + kept.len()));
    if kept.len() > 0 {
        assert(kept.first() == middle.first());
        assert(s[offset] == kept[0]);
    } else {
        assert forall|i: int| 0 <= i < s.len() implies is_white_space(#[trigger] s[i]) by {
            if i >= offset {
                assert(s[i] == middle[i - offset]);
            }
        }
    }
    if is_blank(s) && kept.len() > 0 {
        assert(is_white_space(s[offset]));
    }
}

/// A text that neither begins nor ends with white space is its own trimmed
/// form: trimming twice is trimming once.
pub proof fn lemma_trimmed_is_idempotent(s: Seq<char>)
    ensures
        trimmed(trimmed(s)) == trimmed(s),
{
    lemma_trimmed(s);
}

} // verus!
