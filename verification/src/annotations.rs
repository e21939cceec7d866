//! Annotations that plugins attach to a document, and the space that they
//! take when the document is laid out.
//!
//! The host formats and draws text; the decisions around that are made here:
//! which annotations belong to a line, whether the inline ones drop below
//! it, how wide each may be, on which virtual row each goes, and where the
//! renderer finds the next anchor.

use vstd::prelude::*;
use crate::layout::Frame;
use crate::layout::Measured;
use crate::layout::reserve_rows;
use crate::layout::reserves;
use crate::layout::sat16;
use crate::layout::to_u16;
use crate::render::Canvas;
use crate::render::DrawItem;
use crate::render::LinePos;
use crate::render::render_line;
use crate::render::renders;
use crate::render::scene_of;

verus! {

/// A piece of text that a plugin attaches to a position in a document. It is
/// shown behind the end of the line (inline) or on a line of its own below
/// it (`is_line`).
pub struct PluginAnnotation {
    /// The character that the annotation is attached to.
    pub char_idx: usize,
    /// The text to show.
    pub text: String,
    /// The name of a theme style.
    pub style: Option<String>,
    /// A foreground colour, as hex.
    pub fg: Option<String>,
    /// A background colour, as hex.
    pub bg: Option<String>,
    /// The column offset at which the text starts.
    pub offset: u16,
    /// Whether the text goes on a virtual line of its own.
    pub is_line: bool,
    /// The virtual row that the text asks for.
    pub virt_line_idx: Option<u16>,
    /// The text to show instead where an inline annotation drops below its
    /// line.
    pub dropped_text: Option<String>,
}

/// A position on the screen or in a document.
#[derive(Debug, Clone, Copy, PartialEq, Eq, Structural)]
pub struct Position {
    pub row: usize,
    pub col: usize,
}

/// How the host is to wrap the text of an annotation.
#[derive(Debug, Clone, Copy, PartialEq, Eq, Structural)]
pub struct WrapFormat {
    /// The width of a tab stop.
    pub tab_width: u16,
    /// How far back from the right edge a word may be wrapped.
    pub max_wrap: u16,
    /// The width that the text may take.
    pub viewport_width: u16,
}

/// The look of a piece of text, as far as annotations decide it. `C` is the
/// host's type of colours.
pub struct Style<C> {
    pub fg: Option<C>,
    pub bg: Option<C>,
}

/// Whether the annotation is attached to a character of the line that spans
/// the characters from `line_start` up to `line_end`.
pub open spec fn on_line(a: PluginAnnotation, line_start: usize, line_end: usize) -> bool {
    line_start <= a.char_idx < line_end
}

/// Whether the annotation is shown behind the end of that line.
pub open spec fn inline_on_line(a: PluginAnnotation, line_start: usize, line_end: usize) -> bool {
    on_line(a, line_start, line_end) && !a.is_line
}

/// Whether the annotation is shown on a virtual line below that line.
pub open spec fn virtual_on_line(a: PluginAnnotation, line_start: usize, line_end: usize) -> bool {
    on_line(a, line_start, line_end) && a.is_line
}

/// Whether the elements of `s` go strictly upwards.
pub open spec fn strictly_increasing(s: Seq<usize>) -> bool {
    forall|i: int, j: int| 0 <= i < j < s.len() ==> s[i] < s[j]
}

/// Whether `c` is the place of a virtual-line annotation among `annotations`.
pub open spec fn is_anchor(annotations: Seq<PluginAnnotation>, c: usize) -> bool {
    exists|i: int| 0 <= i < annotations.len() && (#[trigger] annotations[i]).is_line
        && annotations[i].char_idx == c
}

/// How many of `anchors` lie before `char_idx`.
pub open spec fn anchors_before(anchors: Seq<usize>, char_idx: usize) -> nat
    decreases anchors.len(),
{
    if anchors.len() == 0 {
        0
    } else if anchors.last() < char_idx {
        anchors_before(anchors.drop_last(), char_idx) + 1
    } else {
        anchors_before(anchors.drop_last(), char_idx)
    }
}

/// The anchor at position `idx`, or `usize::MAX` where the anchors are used
/// up.
pub open spec fn anchor_at(anchors: Seq<usize>, idx: int) -> usize {
    if 0 <= idx < anchors.len() {
        anchors[idx]
    } else {
        usize::MAX
    }
}

/// In anchors that go strictly upwards, those before `char_idx` are exactly
/// the first ones.
pub proof fn lemma_anchors_before(anchors: Seq<usize>, char_idx: usize, k: int)
    requires
        strictly_increasing(anchors),
        0 <= k <= anchors.len(),
        forall|i: int| 0 <= i < k ==> anchors[i] < char_idx,
        forall|i: int| k <= i < anchors.len() ==> anchors[i] >= char_idx,
    ensures
        anchors_before(anchors, char_idx) == k,
    decreases anchors.len(),
{
    if anchors.len() > 0 {
        let rest = anchors.drop_last();
        if k == anchors.len() {
            lemma_anchors_before(rest, char_idx, k - 1);
        } else {
            lemma_anchors_before(rest, char_idx, k);
        }
    }
}

/// The wrap format for text that may take `available_width` columns: a word
/// may be wrapped within the last quarter of the width, and within the last
/// 20 columns at least.
pub fn wrap_format(available_width: u16, tab_width: u16) -> (f: WrapFormat)
    ensures
        f.tab_width == tab_width,
        f.viewport_width == available_width,
        f.max_wrap == if available_width / 4 >= 20 {
            (available_width / 4) as u16
        } else {
            20u16
        },
{
    let quarter = available_width / 4;
    let max_wrap = if quarter >= 20 {
        quarter
    } else {
        20
    };
    WrapFormat { tab_width, max_wrap, viewport_width: available_width }
}

/// The style of an annotation: the theme's style of that name, else the
/// plain style, with the annotation's own colours on top where they are
/// valid.
pub fn build_style<C>(themed: Option<Style<C>>, fg: Option<C>, bg: Option<C>) -> (s: Style<C>)
    ensures
        s.fg == match fg {
            Some(c) => Some(c),
            None => match themed {
                Some(t) => t.fg,
                None => None,
            },
        },
        s.bg == match bg {
            Some(c) => Some(c),
            None => match themed {
                Some(t) => t.bg,
                None => None,
            },
        },
{
    let base = match themed {
        Some(t) => t,
        None => Style { fg: None, bg: None },
    };
    let Style { fg: base_fg, bg: base_bg } = base;
    let fg = match fg {
        Some(c) => Some(c),
        None => base_fg,
    };
    let bg = match bg {
        Some(c) => Some(c),
        None => base_bg,
    };
    Style { fg, bg }
}

/// Puts `c` into `anchors`, which go strictly upwards, unless it is there.
fn insert_anchor(anchors: &mut Vec<usize>, c: usize)
    requires
        strictly_increasing(old(anchors)@),
    ensures
        strictly_increasing(final(anchors)@),
        forall|x: usize| final(anchors)@.contains(x) <==> (x == c || old(anchors)@.contains(x)),
{
    let ghost before = anchors@;
    let mut i: usize = 0;
    while i < anchors.len() && anchors[i] < c
        invariant
            i <= anchors@.len(),
            anchors@ == before,
            forall|j: int| 0 <= j < i ==> anchors@[j] < c,
        decreases anchors@.len() - i,
    {
        i += 1;
    }
    if i < anchors.len() && anchors[i] == c {
        assert(before.contains(c));
    } else {
        anchors.insert(i, c);
        proof {
            let after = anchors@;
            assert(after == before.insert(i as int, c));
            assert forall|a: int, b: int| 0 <= a < b < after.len() implies after[a] < after[b] by {
                if b < i {
                } else if b == i {
                } else if a < i {
                    assert(after[b] == before[b - 1]);
                    assert(before[i as int] > c);
                    assert(before[b - 1] >= before[i as int]);
                } else if a == i {
                    assert(after[b] == before[b - 1]);
                    assert(before[b - 1] >= before[i as int]);
                } else {
                    assert(after[a] == before[a - 1]);
                    assert(after[b] == before[b - 1]);
                }
            }
            assert forall|x: usize| after.contains(x) <==> (x == c || before.contains(x)) by {
                if after.contains(x) {
                    let j = choose|j: int| 0 <= j < after.len() && after[j] == x;
                    if j < i {
                        assert(before[j] == x);
                    } else if j > i {
                        assert(before[j - 1] == x);
                    }
                }
                if before.contains(x) {
                    let j = choose|j: int| 0 <= j < before.len() && before[j] == x;
                    if j < i {
                        assert(after[j] == x);
                    } else {
                        assert(after[j + 1] == x);
                    }
                }
                if x == c {
                    assert(after[i as int] == c);
                }
            }
        }
    }
}

/// Tells the renderer where the next virtual-line annotation is attached,
/// so that it stops there.
pub struct PluginDecoration<'a> {
    annotations: &'a Vec<PluginAnnotation>,
    anchor_idx: usize,
    anchors: Vec<usize>,
}

impl<'a> PluginDecoration<'a> {
    #[verifier::type_invariant]
    spec fn inv(&self) -> bool {
        &&& strictly_increasing(self.anchors@)
        &&& self.anchor_idx <= self.anchors@.len()
        &&& forall|c: usize| self.anchors@.contains(c) <==> is_anchor(self.annotations@, c)
    }

    /// The annotations of the view.
    pub closed spec fn annotations(&self) -> Seq<PluginAnnotation> {
        self.annotations@
    }

    /// The places of the virtual-line annotations, each once, going upwards.
    pub closed spec fn anchors(&self) -> Seq<usize> {
        self.anchors@
    }

    /// How many anchors the renderer has passed.
    pub closed spec fn anchor_idx(&self) -> int {
        self.anchor_idx as int
    }

    /// Collects the anchors of `annotations`: the places of the virtual-line
    /// annotations, sorted and without duplicates.
    pub fn new(annotations: &'a Vec<PluginAnnotation>) -> (r: Self)
        ensures
            r.annotations() == annotations@,
            r.anchor_idx() == 0,
            strictly_increasing(r.anchors()),
            forall|c: usize| r.anchors().contains(c) <==> is_anchor(annotations@, c),
    {
        let mut anchors: Vec<usize> = Vec::new();
        let mut i: usize = 0;
        while i < annotations.len()
            invariant
                i <= annotations@.len(),
                strictly_increasing(anchors@),
                forall|c: usize|
                    anchors@.contains(c) <==> is_anchor(annotations@.take(i as int), c),
            decreases annotations@.len() - i,
        {
            let ghost before = anchors@;
            let ghost prefix = annotations@.take(i as int);
            let ghost next = annotations@.take(i + 1);
            if annotations[i].is_line {
                insert_anchor(&mut anchors, annotations[i].char_idx);
            }
            proof {
                assert forall|c: usize| anchors@.contains(c) <==> is_anchor(next, c) by {
                    if is_anchor(next, c) {
                        let j = choose|j: int|
                            0 <= j < next.len() && (#[trigger] next[j]).is_line && next[j].char_idx
                                == c;
                        if j < i {
                            assert(prefix[j].is_line && prefix[j].char_idx == c);
                        }
                    }
                    if is_anchor(prefix, c) {
                        let j = choose|j: int|
                            0 <= j < prefix.len() && (#[trigger] prefix[j]).is_line
                                && prefix[j].char_idx == c;
                        assert(next[j].is_line && next[j].char_idx == c);
                    }
                    if annotations@[i as int].is_line && c == annotations@[i as int].char_idx {
                        assert(next[i as int].is_line && next[i as int].char_idx == c);
                    }
                }
            }
            i += 1;
        }
        assert(annotations@.take(i as int) =~= annotations@);
        PluginDecoration { annotations, anchor_idx: 0, anchors }
    }

    /// Draws the annotations of the line that spans the characters from
    /// `line_start` up to `line_end`, when the last visual line of that line
    /// is drawn. The host draws each text through `draw`. The result is the
    /// number of rows drawn below the line and the number of columns used
    /// behind it.
    pub fn render_virt_lines<D: Fn(DrawItem) -> usize>(
        &mut self,
        canvas: &Canvas,
        line_start: usize,
        line_end: usize,
        pos: LinePos,
        virt_off: Position,
        draw: &D,
    ) -> (r: Position)
        requires
            forall|item: DrawItem| call_requires(*draw, (item,)),
        ensures
            final(self).anchors() == old(self).anchors(),
            final(self).annotations() == old(self).annotations(),
            final(self).anchor_idx() == old(self).anchor_idx(),
            !pos.is_last_visual_line ==> r == (Position { row: 0, col: 0 }),
            pos.is_last_visual_line ==> renders(
                *draw,
                old(self).annotations(),
                scene_of(*canvas, line_start, line_end, pos, virt_off),
                r,
            ),
    {
        render_line(self.annotations, canvas, line_start, line_end, pos, virt_off, draw)
    }

    /// The renderer starts anew at `char_idx`: the anchors before it are
    /// passed, and the result is the first anchor at or behind `char_idx`,
    /// or `usize::MAX` where there is none.
    pub fn reset_pos(&mut self, char_idx: usize) -> (next: usize)
        ensures
            final(self).anchors() == old(self).anchors(),
            final(self).annotations() == old(self).annotations(),
            final(self).anchor_idx() == anchors_before(old(self).anchors(), char_idx),
            next == anchor_at(final(self).anchors(), final(self).anchor_idx()),
            next >= char_idx,
    {
        proof {
            use_type_invariant(&*self);
        }
        let mut lo: usize = 0;
        let mut hi: usize = self.anchors.len();
        while lo < hi
            invariant
                lo <= hi <= self.anchors@.len(),
                strictly_increasing(self.anchors@),
                forall|i: int| 0 <= i < lo ==> self.anchors@[i] < char_idx,
                forall|i: int| hi <= i < self.anchors@.len() ==> self.anchors@[i] >= char_idx,
            decreases hi - lo,
        {
            let mid = lo + (hi - lo) / 2;
            if self.anchors[mid] < char_idx {
                lo = mid + 1;
            } else {
                hi = mid;
            }
        }
        proof {
            lemma_anchors_before(self.anchors@, char_idx, lo as int);
        }
        self.anchor_idx = lo;
        if lo < self.anchors.len() {
            self.anchors[lo]
        } else {
            usize::MAX
        }
    }

    /// The renderer has reached the character `char_idx`: where that is the
    /// next anchor, the anchor is passed. The result is the anchor that
    /// comes next, or `usize::MAX` where there is none.
    pub fn decorate_grapheme(&mut self, char_idx: usize) -> (next: usize)
        ensures
            final(self).anchors() == old(self).anchors(),
            final(self).annotations() == old(self).annotations(),
            final(self).anchor_idx() == if anchor_at(old(self).anchors(), old(self).anchor_idx())
                == char_idx && old(self).anchor_idx() < old(self).anchors().len() {
                old(self).anchor_idx() + 1
            } else {
                old(self).anchor_idx()
            },
            next == anchor_at(final(self).anchors(), final(self).anchor_idx()),
    {
        proof {
            use_type_invariant(&*self);
        }
        if self.anchor_idx < self.anchors.len() && self.anchors[self.anchor_idx] == char_idx {
            self.anchor_idx = self.anchor_idx + 1;
        }
        if self.anchor_idx < self.anchors.len() {
            self.anchors[self.anchor_idx]
        } else {
            usize::MAX
        }
    }
}

/// Reserves the rows below a line that the annotations of the line need.
pub struct PluginLineAnnotations<'a> {
    annotations: &'a Vec<PluginAnnotation>,
    width: u16,
}

impl<'a> PluginLineAnnotations<'a> {
    /// The annotations of the view.
    pub closed spec fn annotations(&self) -> Seq<PluginAnnotation> {
        self.annotations@
    }

    /// The width of the viewport in columns.
    pub closed spec fn width(&self) -> u16 {
        self.width
    }

    /// Lays out `annotations` in a viewport of `width` columns.
    pub fn new(annotations: &'a Vec<PluginAnnotation>, width: u16) -> (r: Self)
        ensures
            r.annotations() == annotations@,
            r.width() == width,
    {
        PluginLineAnnotations { annotations, width }
    }

    /// The rows to reserve below the line that spans the characters from
    /// `line_start` up to `line_end` and ends in the column of
    /// `line_end_visual_pos`. The host measures each annotation of the line
    /// once, through `measure`, which is given the annotation's position and
    /// the format to wrap its text with.
    pub fn insert_virtual_lines<M: Fn(usize, WrapFormat) -> Measured>(
        &mut self,
        line_start: usize,
        line_end: usize,
        line_end_visual_pos: Position,
        tab_width: u16,
        measure: &M,
    ) -> (r: Position)
        requires
            forall|i: usize, format: WrapFormat| call_requires(*measure, (i, format)),
        ensures
            *final(self) == *old(self),
            r.col == 0,
            r.row <= u16::MAX,
            reserves(
                *measure,
                old(self).annotations(),
                Frame {
                    line_start,
                    line_end,
                    line_end_col: sat16(line_end_visual_pos.col as int),
                    width: old(self).width(),
                    tab_width,
                },
                r.row as u16,
            ),
    {
        let frame = Frame {
            line_start,
            line_end,
            line_end_col: to_u16(line_end_visual_pos.col),
            width: self.width,
            tab_width,
        };
        let rows = reserve_rows(self.annotations, &frame, measure);
        Position { row: rows as usize, col: 0 }
    }

    /// Plugin annotations are attached to line ends, so no character in the
    /// text is an anchor for them.
    pub fn reset_pos(&mut self, char_idx: usize) -> (next: usize)
        ensures
            next == usize::MAX,
            *final(self) == *old(self),
    {
        usize::MAX
    }

    /// Plugin annotations are attached to line ends, so no character in the
    /// text is an anchor for them.
    pub fn skip_concealed_anchors(&mut self, conceal_end_char_idx: usize) -> (next: usize)
        ensures
            next == usize::MAX,
            *final(self) == *old(self),
    {
        usize::MAX
    }

    /// Plugin annotations are attached to line ends, so no character in the
    /// text is an anchor for them.
    pub fn process_anchor(&mut self, char_idx: usize) -> (next: usize)
        ensures
            next == usize::MAX,
            *final(self) == *old(self),
    {
        usize::MAX
    }
}

} // verus!
