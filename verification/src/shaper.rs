//! Caret placement and hit-testing inside a shaped line of text.
//!
//! A shaped line is a run of glyphs, each covering the bytes `start..end` of the text. Glyph
//! positions are in float pixels and are looked up by the caller; these functions decide
//! which glyph a byte index or a click refers to.
use vstd::prelude::*;

verus! {

/// The bytes of the text that one glyph (or cluster) covers.
#[derive(Clone, Copy, Debug, PartialEq, Eq, Structural)]
pub struct GlyphSpan {
    pub start: usize,
    pub end: usize,
}

/// The caret before byte `byte` sits at the left edge of glyph `g`: the byte comes at or
/// before the glyph's start, or falls inside it (a position inside a multi-character cluster
/// snaps to the cluster's start).
pub open spec fn caret_at(g: GlyphSpan, byte: usize) -> bool {
    byte <= g.start || byte < g.end
}

/// The glyph whose left edge is the caret position before byte index `byte`: the first one
/// for which [`caret_at`] holds. `None` means the caret sits after the last glyph (at the end
/// of the line).
pub fn caret_glyph(glyphs: &Vec<GlyphSpan>, byte: usize) -> (g: Option<usize>)
    ensures
        g matches Some(i) ==> i < glyphs.len() && caret_at(glyphs@[i as int], byte) && forall|j: int|
            0 <= j < i ==> !caret_at(#[trigger] glyphs@[j], byte),
        g is None ==> forall|j: int| 0 <= j < glyphs.len() ==> !caret_at(#[trigger] glyphs@[j], byte),
{
    let mut i: usize = 0;
    while i < glyphs.len()
        invariant
            i <= glyphs.len(),
            forall|j: int| 0 <= j < i ==> !caret_at(#[trigger] glyphs@[j], byte),
        decreases glyphs.len() - i,
    {
        let g = glyphs[i];
        if byte <= g.start || byte < g.end {
            return Some(i);
        }
        i = i + 1;
    }
    None
}

/// The byte a click lands on, scanning glyphs from `i`: the start of the first glyph whose
/// middle lies right of the click (never past `text_len`), or `text_len` when there is none.
pub open spec fn hit_from(glyphs: Seq<GlyphSpan>, left_of_middle: Seq<bool>, text_len: usize, i: int) -> usize
    decreases glyphs.len() - i,
{
    if i < 0 || i >= glyphs.len() {
        text_len
    } else if left_of_middle[i] {
        if glyphs[i].start < text_len { glyphs[i].start } else { text_len }
    } else {
        hit_from(glyphs, left_of_middle, text_len, i + 1)
    }
}

/// The byte index of the caret position closest to a click, given for each glyph whether the
/// click lies left of the glyph's middle: the start of the first such glyph (never past the
/// text's `text_len` bytes), or the end of the text when the click is right of every glyph.
pub fn hit(glyphs: &Vec<GlyphSpan>, left_of_middle: &Vec<bool>, text_len: usize) -> (byte: usize)
    requires
        left_of_middle.len() == glyphs.len(),
    ensures
        byte == hit_from(glyphs@, left_of_middle@, text_len, 0),
{
    let mut i: usize = 0;
    while i < glyphs.len()
        invariant
            i <= glyphs.len(),
            left_of_middle.len() == glyphs.len(),
            hit_from(glyphs@, left_of_middle@, text_len, 0) == hit_from(glyphs@, left_of_middle@, text_len, i as int),
        decreases glyphs.len() - i,
    {
        if left_of_middle[i] {
            let s = glyphs[i].start;
            let b = if s < text_len { s } else { text_len };
            return b;
        }
        i = i + 1;
    }
    text_len
}

/// A click lands before the first glyph (from the left) whose middle lies right of the click,
/// at that glyph's start (cut to the text), and at the end of the text when the click lies right
/// of every glyph's middle.
pub proof fn click_lands_before_first_glyph_past_it(
    glyphs: Seq<GlyphSpan>,
    left_of_middle: Seq<bool>,
    text_len: usize,
)
    requires
        left_of_middle.len() == glyphs.len(),
    ensures
        forall|i: int|
            0 <= i < glyphs.len() && #[trigger] left_of_middle[i] && (forall|j: int| 0 <= j < i ==> !left_of_middle[j])
                ==> hit_from(glyphs, left_of_middle, text_len, 0) == if glyphs[i].start < text_len {
                glyphs[i].start
            } else {
                text_len
            },
        (forall|j: int| 0 <= j < glyphs.len() ==> !left_of_middle[j]) ==> hit_from(glyphs, left_of_middle, text_len, 0)
            == text_len,
{
    assert forall|i: int|
        0 <= i < glyphs.len() && #[trigger] left_of_middle[i] && (forall|j: int| 0 <= j < i ==> !left_of_middle[j])
            implies hit_from(glyphs, left_of_middle, text_len, 0) == if glyphs[i].start < text_len {
            glyphs[i].start
        } else {
            text_len
        } by {
        skip_unset(glyphs, left_of_middle, text_len, 0, i);
    }
    if forall|j: int| 0 <= j < glyphs.len() ==> !left_of_middle[j] {
        skip_unset(glyphs, left_of_middle, text_len, 0, glyphs.len() as int);
    }
}

proof fn skip_unset(glyphs: Seq<GlyphSpan>, left_of_middle: Seq<bool>, text_len: usize, from: int, to: int)
    requires
        0 <= from <= to <= glyphs.len(),
        left_of_middle.len() == glyphs.len(),
        forall|j: int| from <= j < to ==> !left_of_middle[j],
    ensures
        hit_from(glyphs, left_of_middle, text_len, from) == hit_from(glyphs, left_of_middle, text_len, to),
    decreases to - from,
{
    if from < to {
        skip_unset(glyphs, left_of_middle, text_len, from + 1, to);
    }
}

/// Wherever a click lands, the caret goes to a byte inside the text or at its end.
pub proof fn hit_stays_in_text(glyphs: Seq<GlyphSpan>, left_of_middle: Seq<bool>, text_len: usize, i: int)
    ensures
        hit_from(glyphs, left_of_middle, text_len, i) <= text_len,
    decreases glyphs.len() - i,
{
    if 0 <= i < glyphs.len() && !left_of_middle[i] {
        hit_stays_in_text(glyphs, left_of_middle, text_len, i + 1);
    }
}

} // verus!
