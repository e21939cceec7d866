//! How many rows the annotations of a line take below it.
//!
//! The host measures wrapped text; everything around the measuring is
//! decided here. Inline annotations follow each other behind the end of the
//! line and share the rows below it; where they do not fit behind the line
//! they all drop below it. Virtual-line annotations are grouped by the row
//! they ask for, and the rows are stacked below the inline ones.

use vstd::prelude::*;
use crate::annotations::PluginAnnotation;
use crate::annotations::WrapFormat;
use crate::annotations::inline_on_line;
use crate::annotations::virtual_on_line;
use crate::annotations::wrap_format;

verus! {

/// What the host measured of a wrapped text.
#[derive(Debug, Clone, Copy, PartialEq, Eq, Structural)]
pub struct Measured {
    /// The number of rows that the text takes.
    pub height: usize,
    /// The width of the last row.
    pub last_line_width: u16,
}

/// The line that is laid out and the viewport that it is laid out in.
#[derive(Debug, Clone, Copy, PartialEq, Eq, Structural)]
pub struct Frame {
    /// The first character of the line.
    pub line_start: usize,
    /// The first character behind the line.
    pub line_end: usize,
    /// The column behind the last character of the line.
    pub line_end_col: u16,
    /// The width of the viewport.
    pub width: u16,
    /// The width of a tab stop.
    pub tab_width: u16,
}

/// `n` as a 16-bit number; a number that does not fit becomes the nearest
/// that does.
pub open spec fn sat16(n: int) -> u16 {
    if n >= 0xffff {
        0xffffu16
    } else if n <= 0 {
        0u16
    } else {
        n as u16
    }
}

/// The wrap format for text that may take `available_width` columns.
pub open spec fn format_for(available_width: u16, tab_width: u16) -> WrapFormat {
    WrapFormat {
        tab_width,
        max_wrap: if available_width / 4 >= 20 {
            (available_width / 4) as u16
        } else {
            20u16
        },
        viewport_width: available_width,
    }
}

/// Whether annotation `i` is shown behind the end of the line.
pub open spec fn is_inline(annots: Seq<PluginAnnotation>, f: Frame, i: int) -> bool {
    inline_on_line(annots[i], f.line_start, f.line_end)
}

/// Whether annotation `i` is shown on a virtual line below the line.
pub open spec fn is_virtual(annots: Seq<PluginAnnotation>, f: Frame, i: int) -> bool {
    virtual_on_line(annots[i], f.line_start, f.line_end)
}

/// The first inline annotation of the line at or behind position `from`.
pub open spec fn first_inline(annots: Seq<PluginAnnotation>, f: Frame, from: int) -> Option<int>
    decreases annots.len() - from,
{
    if from < 0 || from >= annots.len() {
        None
    } else if is_inline(annots, f, from) {
        Some(from)
    } else {
        first_inline(annots, f, from + 1)
    }
}

/// The offset of the first inline annotation of the line, or 0.
pub open spec fn first_offset(annots: Seq<PluginAnnotation>, f: Frame) -> u16 {
    match first_inline(annots, f, 0) {
        Some(i) => annots[i].offset,
        None => 0,
    }
}

/// How many characters the inline annotations among the first `upto` have
/// together.
pub open spec fn inline_chars(annots: Seq<PluginAnnotation>, f: Frame, upto: int) -> nat
    decreases upto,
{
    if upto <= 0 {
        0
    } else {
        inline_chars(annots, f, upto - 1) + if is_inline(annots, f, upto - 1) {
            annots[upto - 1].text@.len()
        } else {
            0
        }
    }
}

/// The column in which the inline annotations start where they stay behind
/// the line.
pub open spec fn start_col(annots: Seq<PluginAnnotation>, f: Frame) -> u16 {
    sat16(f.line_end_col + first_offset(annots, f))
}

/// Whether the inline annotations drop below the line: they do where fewer
/// than 40 columns are left for the first, or where all of them, with a
/// quarter added for wide characters, reach beyond the viewport. All of them
/// drop together.
pub open spec fn drops(annots: Seq<PluginAnnotation>, f: Frame) -> bool {
    let total = inline_chars(annots, f, annots.len() as int);
    ||| (first_inline(annots, f, 0) is Some && sat16(f.width - start_col(annots, f)) < 40)
    ||| start_col(annots, f) + total + total / 4 > f.width
}

/// The row that is free for the virtual-line annotations that ask for none:
/// the one behind the highest row that one among the first `upto` asks for.
pub open spec fn row_base(annots: Seq<PluginAnnotation>, f: Frame, upto: int) -> int
    decreases upto,
{
    if upto <= 0 {
        0
    } else {
        let before = row_base(annots, f, upto - 1);
        match annots[upto - 1].virt_line_idx {
            Some(idx) => if is_virtual(annots, f, upto - 1) && idx + 1 > before {
                idx + 1
            } else {
                before
            },
            None => before,
        }
    }
}

/// How many virtual-line annotations among the first `upto` ask for no row.
pub open spec fn autos_before(annots: Seq<PluginAnnotation>, f: Frame, upto: int) -> nat
    decreases upto,
{
    if upto <= 0 {
        0
    } else {
        autos_before(annots, f, upto - 1) + if is_virtual(annots, f, upto - 1) && annots[upto
            - 1].virt_line_idx is None {
            1nat
        } else {
            0nat
        }
    }
}

/// The virtual row of annotation `i`: the row it asks for, else the next
/// free row behind all rows that are asked for, in the order of the
/// annotations. An annotation that is no virtual-line annotation of the line
/// has no row.
pub open spec fn row_of(annots: Seq<PluginAnnotation>, f: Frame, i: int) -> Option<u16> {
    if !is_virtual(annots, f, i) {
        None
    } else {
        match annots[i].virt_line_idx {
            Some(idx) => Some(idx),
            None => Some(
                sat16(row_base(annots, f, annots.len() as int) + autos_before(annots, f, i)),
            ),
        }
    }
}

/// The rows of the first `upto` annotations, in order.
pub open spec fn rows_of(annots: Seq<PluginAnnotation>, f: Frame, upto: int) -> Seq<Option<u16>> {
    Seq::new(upto as nat, |i: int| row_of(annots, f, i))
}

/// `n` as a 16-bit number, saturating.
pub fn to_u16(n: usize) -> (r: u16)
    ensures
        r == sat16(n as int),
{
    if n >= 0xffff {
        0xffff
    } else {
        n as u16
    }
}

/// The sum of two 16-bit numbers, saturating.
pub fn add16(a: u16, b: u16) -> (r: u16)
    ensures
        r == sat16(a + b),
{
    a.saturating_add(b)
}

/// The difference of two 16-bit numbers, saturating.
pub fn sub16(a: u16, b: u16) -> (r: u16)
    ensures
        r == sat16(a - b),
{
    a.saturating_sub(b)
}

/// Whether the annotation is shown behind the end of the line of `f`.
pub fn shown_inline(a: &PluginAnnotation, f: &Frame) -> (r: bool)
    ensures
        r == inline_on_line(*a, f.line_start, f.line_end),
{
    a.char_idx >= f.line_start && a.char_idx < f.line_end && !a.is_line
}

/// Whether the annotation is shown on a virtual line below the line of `f`.
pub fn shown_virtual(a: &PluginAnnotation, f: &Frame) -> (r: bool)
    ensures
        r == virtual_on_line(*a, f.line_start, f.line_end),
{
    a.char_idx >= f.line_start && a.char_idx < f.line_end && a.is_line
}

/// The offset of the first inline annotation of the line.
pub fn first_inline_offset(annots: &Vec<PluginAnnotation>, f: &Frame) -> (r: Option<u16>)
    ensures
        r is Some == first_inline(annots@, *f, 0) is Some,
        r matches Some(o) ==> o == first_offset(annots@, *f),
        r is None ==> first_offset(annots@, *f) == 0,
{
    let mut i: usize = 0;
    while i < annots.len()
        invariant
            i <= annots@.len(),
            first_inline(annots@, *f, 0) == first_inline(annots@, *f, i as int),
        decreases annots@.len() - i,
    {
        if shown_inline(&annots[i], f) {
            return Some(annots[i].offset);
        }
        i += 1;
    }
    None
}

/// The number of characters of all inline annotations of the line together,
/// counted up to 65536.
pub fn inline_chars_capped(annots: &Vec<PluginAnnotation>, f: &Frame) -> (r: usize)
    ensures
        inline_chars(annots@, *f, annots@.len() as int) <= 0x10000 ==> r == inline_chars(
            annots@,
            *f,
            annots@.len() as int,
        ),
        inline_chars(annots@, *f, annots@.len() as int) > 0x10000 ==> r == 0x10000,
{
    let mut total: usize = 0;
    let mut i: usize = 0;
    while i < annots.len()
        invariant
            i <= annots@.len(),
            total <= 0x10000,
            inline_chars(annots@, *f, i as int) <= 0x10000 ==> total == inline_chars(
                annots@,
                *f,
                i as int,
            ),
            inline_chars(annots@, *f, i as int) > 0x10000 ==> total == 0x10000,
        decreases annots@.len() - i,
    {
        if shown_inline(&annots[i], f) {
            let chars = annots[i].text.as_str().unicode_len();
            if chars >= 0x10000 - total {
                total = 0x10000;
            } else {
                total = total + chars;
            }
        }
        i += 1;
    }
    total
}

/// Whether the inline annotations of the line drop below it.
pub fn should_drop(annots: &Vec<PluginAnnotation>, f: &Frame) -> (r: bool)
    ensures
        r == drops(annots@, *f),
{
    let first = first_inline_offset(annots, f);
    let offset = match first {
        Some(o) => o,
        None => 0,
    };
    let start = add16(f.line_end_col, offset);
    if first.is_some() && sub16(f.width, start) < 40 {
        return true;
    }
    let total = inline_chars_capped(annots, f);
    let start: usize = start as usize;
    start + total + total / 4 > f.width as usize
}

/// The row that is free for the virtual-line annotations that ask for none.
pub fn free_row(annots: &Vec<PluginAnnotation>, f: &Frame) -> (r: u32)
    ensures
        r == row_base(annots@, *f, annots@.len() as int),
        r <= 0x10000,
{
    let mut base: u32 = 0;
    let mut i: usize = 0;
    while i < annots.len()
        invariant
            i <= annots@.len(),
            base == row_base(annots@, *f, i as int),
            base <= 0x10000,
        decreases annots@.len() - i,
    {
        if shown_virtual(&annots[i], f) {
            match annots[i].virt_line_idx {
                Some(idx) => {
                    let behind: u32 = idx as u32 + 1;
                    if behind > base {
                        base = behind;
                    }
                },
                None => {},
            }
        }
        i += 1;
    }
    base
}

/// The virtual row of every annotation, in order.
pub fn assign_rows(annots: &Vec<PluginAnnotation>, f: &Frame) -> (rows: Vec<Option<u16>>)
    ensures
        rows@ == rows_of(annots@, *f, annots@.len() as int),
{
    let base = free_row(annots, f);
    let mut rows: Vec<Option<u16>> = Vec::new();
    let mut autos: usize = 0;
    let mut i: usize = 0;
    while i < annots.len()
        invariant
            i <= annots@.len(),
            base == row_base(annots@, *f, annots@.len() as int),
            base <= 0x10000,
            autos == autos_before(annots@, *f, i as int),
            autos <= i,
            rows@ == rows_of(annots@, *f, i as int),
        decreases annots@.len() - i,
    {
        let row = if shown_virtual(&annots[i], f) {
            match annots[i].virt_line_idx {
                Some(idx) => Some(idx),
                None => {
                    let wanted = if autos >= 0x10000 {
                        0xffffu16
                    } else {
                        to_u16(base as usize + autos)
                    };
                    autos = autos + 1;
                    Some(wanted)
                },
            }
        } else {
            None
        };
        rows.push(row);
        assert(rows@ =~= rows_of(annots@, *f, i + 1));
        i += 1;
    }
    rows
}

/// Where the inline annotations have got to: the column behind the last one,
/// and the rows below the line that they need.
#[derive(Debug, Clone, Copy, PartialEq, Eq, Structural)]
pub struct InlineState {
    pub col: u16,
    pub extra: u16,
}

/// The measurement of an annotation that is not measured.
pub open spec fn unmeasured() -> Measured {
    Measured { height: 0, last_line_width: 0 }
}

/// How an inline annotation that starts in column `col` is wrapped; `None`
/// where no column is left for it.
pub open spec fn inline_format(f: Frame, col: u16) -> Option<WrapFormat> {
    let available = sat16(f.width - col);
    if available > 0 {
        Some(format_for(available, f.tab_width))
    } else {
        None
    }
}

/// How the virtual-line annotation `i` is wrapped; `None` where no column is
/// left for it behind its offset.
pub open spec fn virtual_format(annots: Seq<PluginAnnotation>, f: Frame, i: int) -> Option<
    WrapFormat,
> {
    let available = sat16(f.width - annots[i].offset);
    if available > 0 {
        Some(format_for(available, f.tab_width))
    } else {
        None
    }
}

/// The state behind annotation `i`, which measured as `m`. An inline
/// annotation that takes one row moves the column on by the width of that
/// row, a longer one by its number of characters. Dropped annotations need
/// all their rows below the line, the others all but the first.
pub open spec fn inline_next(
    annots: Seq<PluginAnnotation>,
    f: Frame,
    s: InlineState,
    i: int,
    m: Measured,
) -> InlineState {
    if !is_inline(annots, f, i) || inline_format(f, s.col) is None {
        s
    } else {
        let advance = if m.height == 1 {
            m.last_line_width as int
        } else {
            annots[i].text@.len() as int
        };
        let rows = if drops(annots, f) {
            sat16(m.height as int)
        } else {
            sat16(m.height - 1)
        };
        InlineState {
            col: sat16(s.col + advance),
            extra: if rows > s.extra {
                rows
            } else {
                s.extra
            },
        }
    }
}

/// The state behind the first `upto` annotations.
pub open spec fn inline_state(
    annots: Seq<PluginAnnotation>,
    f: Frame,
    heights: Seq<Measured>,
    upto: int,
) -> InlineState
    decreases upto,
{
    if upto <= 0 {
        InlineState {
            col: if drops(annots, f) {
                first_offset(annots, f)
            } else {
                start_col(annots, f)
            },
            extra: 0,
        }
    } else {
        inline_next(
            annots,
            f,
            inline_state(annots, f, heights, upto - 1),
            upto - 1,
            heights[upto - 1],
        )
    }
}

/// How annotation `i` is wrapped for measuring; `None` where it is not
/// measured.
pub open spec fn format_of(
    annots: Seq<PluginAnnotation>,
    f: Frame,
    heights: Seq<Measured>,
    i: int,
) -> Option<WrapFormat> {
    if is_inline(annots, f, i) {
        inline_format(f, inline_state(annots, f, heights, i).col)
    } else if is_virtual(annots, f, i) {
        virtual_format(annots, f, i)
    } else {
        None
    }
}

/// Whether `heights` is what `measure` gave for the annotations of the
/// line: each annotation that is measured has the measurement that `measure`
/// returned for it and its format, and the others have none.
pub open spec fn measured_with<M: Fn(usize, WrapFormat) -> Measured>(
    measure: M,
    annots: Seq<PluginAnnotation>,
    f: Frame,
    heights: Seq<Measured>,
    upto: int,
) -> bool {
    forall|i: int|
        0 <= i < upto ==> match #[trigger] format_of(annots, f, heights, i) {
            Some(format) => call_ensures(measure, (i as usize, format), heights[i]),
            None => heights[i] == unmeasured(),
        }
}

/// The state behind the first `upto` annotations depends on their
/// measurements only.
pub proof fn lemma_inline_frame(
    annots: Seq<PluginAnnotation>,
    f: Frame,
    a: Seq<Measured>,
    b: Seq<Measured>,
    upto: int,
)
    requires
        forall|k: int| 0 <= k < upto ==> a[k] == b[k],
    ensures
        inline_state(annots, f, a, upto) == inline_state(annots, f, b, upto),
    decreases upto,
{
    if upto > 0 {
        lemma_inline_frame(annots, f, a, b, upto - 1);
    }
}

/// The state behind an inline annotation that measured as `m`.
pub(crate) fn advance_inline(
    annots: &Vec<PluginAnnotation>,
    f: &Frame,
    dropped: bool,
    s: InlineState,
    i: usize,
    m: Measured,
) -> (r: InlineState)
    requires
        i < annots@.len(),
        dropped == drops(annots@, *f),
        is_inline(annots@, *f, i as int),
        inline_format(*f, s.col) is Some,
    ensures
        r == inline_next(annots@, *f, s, i as int, m),
{
    let advance = if m.height == 1 {
        m.last_line_width
    } else {
        to_u16(annots[i].text.as_str().unicode_len())
    };
    let rows = if dropped {
        to_u16(m.height)
    } else if m.height == 0 {
        0
    } else {
        to_u16(m.height - 1)
    };
    InlineState {
        col: add16(s.col, advance),
        extra: if rows > s.extra {
            rows
        } else {
            s.extra
        },
    }
}

/// The column in which the inline annotations of the line start.
pub(crate) fn inline_start(annots: &Vec<PluginAnnotation>, f: &Frame, dropped: bool) -> (r: InlineState)
    requires
        dropped == drops(annots@, *f),
    ensures
        r == inline_state(annots@, *f, Seq::<Measured>::empty(), 0),
{
    let offset = match first_inline_offset(annots, f) {
        Some(o) => o,
        None => 0,
    };
    let col = if dropped {
        offset
    } else {
        add16(f.line_end_col, offset)
    };
    InlineState { col, extra: 0 }
}

/// Has the host measure the annotations of the line, each with the format
/// that its place calls for: an inline annotation may take what is left of
/// the viewport behind the one before it, a virtual-line annotation what is
/// left behind its offset. An annotation for which no column is left is not
/// measured.
pub fn measure_line<M: Fn(usize, WrapFormat) -> Measured>(
    annots: &Vec<PluginAnnotation>,
    f: &Frame,
    measure: &M,
) -> (heights: Vec<Measured>)
    requires
        forall|i: usize, format: WrapFormat| call_requires(*measure, (i, format)),
    ensures
        heights@.len() == annots@.len(),
        measured_with(*measure, annots@, *f, heights@, annots@.len() as int),
{
    let dropped = should_drop(annots, f);
    let mut state = inline_start(annots, f, dropped);
    let mut heights: Vec<Measured> = Vec::new();
    let mut i: usize = 0;
    proof {
        lemma_inline_frame(annots@, *f, heights@, Seq::<Measured>::empty(), 0);
    }
    while i < annots.len()
        invariant
            i <= annots@.len(),
            heights@.len() == i,
            dropped == drops(annots@, *f),
            state == inline_state(annots@, *f, heights@, i as int),
            measured_with(*measure, annots@, *f, heights@, i as int),
            forall|k: usize, format: WrapFormat| call_requires(*measure, (k, format)),
        decreases annots@.len() - i,
    {
        let ghost before = heights@;
        let ghost state_before = state;
        let mut m = Measured { height: 0, last_line_width: 0 };
        if shown_inline(&annots[i], f) {
            let available = sub16(f.width, state.col);
            if available > 0 {
                m = measure(i, wrap_format(available, f.tab_width));
                state = advance_inline(annots, f, dropped, state, i, m);
            }
        } else if shown_virtual(&annots[i], f) {
            let available = sub16(f.width, annots[i].offset);
            if available > 0 {
                m = measure(i, wrap_format(available, f.tab_width));
            }
        }
        heights.push(m);
        proof {
            let after = heights@;
            assert forall|j: int| 0 <= j <= i implies inline_state(annots@, *f, after, j)
                == inline_state(annots@, *f, before, j) by {
                lemma_inline_frame(annots@, *f, after, before, j);
            }
            assert(inline_state(annots@, *f, after, i + 1) == inline_next(
                annots@,
                *f,
                inline_state(annots@, *f, after, i as int),
                i as int,
                after[i as int],
            ));
            assert forall|j: int| 0 <= j < i + 1 implies match #[trigger] format_of(
                annots@,
                *f,
                after,
                j,
            ) {
                Some(format) => call_ensures(*measure, (j as usize, format), after[j]),
                None => after[j] == unmeasured(),
            } by {
                if j < i {
                    assert(format_of(annots@, *f, after, j) == format_of(annots@, *f, before, j));
                    assert(after[j] == before[j]);
                }
            }
        }
        i += 1;
    }
    heights
}

/// The number of rows that the virtual-line annotation `i` takes; 0 where it
/// is not measured.
pub open spec fn virt_height(
    annots: Seq<PluginAnnotation>,
    f: Frame,
    heights: Seq<Measured>,
    i: int,
) -> u16 {
    if is_virtual(annots, f, i) && virtual_format(annots, f, i) is Some {
        sat16(heights[i].height as int)
    } else {
        0
    }
}

/// The height of the virtual row `row`: that of the highest among the first
/// `upto` annotations that share the row.
pub open spec fn row_height(
    annots: Seq<PluginAnnotation>,
    f: Frame,
    heights: Seq<Measured>,
    row: u16,
    upto: int,
) -> u16
    decreases upto,
{
    if upto <= 0 {
        0
    } else {
        let before = row_height(annots, f, heights, row, upto - 1);
        if row_of(annots, f, upto - 1) == Some(row) && virt_height(annots, f, heights, upto - 1)
            > before {
            virt_height(annots, f, heights, upto - 1)
        } else {
            before
        }
    }
}

/// The rows that the virtual rows below `below` take together, which is
/// where the virtual row `below` starts.
pub open spec fn rows_total(
    annots: Seq<PluginAnnotation>,
    f: Frame,
    heights: Seq<Measured>,
    below: int,
) -> int
    decreases below,
{
    if below <= 0 {
        0
    } else {
        rows_total(annots, f, heights, below - 1) + row_height(
            annots,
            f,
            heights,
            (below - 1) as u16,
            annots.len() as int,
        )
    }
}

/// The rows to reserve below the line: those of the inline annotations, and
/// below them one virtual row after the other, each as high as its highest
/// annotation.
pub open spec fn reserved_rows(
    annots: Seq<PluginAnnotation>,
    f: Frame,
    heights: Seq<Measured>,
) -> u16 {
    sat16(
        inline_state(annots, f, heights, annots.len() as int).extra + rows_total(
            annots,
            f,
            heights,
            0x10000,
        ),
    )
}

/// Rows take no negative space.
pub proof fn lemma_rows_nonnegative(
    annots: Seq<PluginAnnotation>,
    f: Frame,
    heights: Seq<Measured>,
    below: int,
)
    ensures
        rows_total(annots, f, heights, below) >= 0,
    decreases below,
{
    if below > 0 {
        lemma_rows_nonnegative(annots, f, heights, below - 1);
    }
}

/// A row that no annotation is on has no height.
pub proof fn lemma_empty_row(
    annots: Seq<PluginAnnotation>,
    f: Frame,
    heights: Seq<Measured>,
    row: u16,
    upto: int,
)
    requires
        upto <= annots.len(),
        forall|i: int| 0 <= i < upto ==> #[trigger] row_of(annots, f, i) != Some(row),
    ensures
        row_height(annots, f, heights, row, upto) == 0,
    decreases upto,
{
    if upto > 0 {
        lemma_empty_row(annots, f, heights, row, upto - 1);
    }
}

/// Rows that no annotation is on take no space.
pub proof fn lemma_empty_rows(
    annots: Seq<PluginAnnotation>,
    f: Frame,
    heights: Seq<Measured>,
    lo: int,
    hi: int,
)
    requires
        0 <= lo <= hi <= 0x10000,
        forall|i: int|
            0 <= i < annots.len() ==> match #[trigger] row_of(annots, f, i) {
                Some(w) => !(lo <= w < hi),
                None => true,
            },
    ensures
        rows_total(annots, f, heights, hi) == rows_total(annots, f, heights, lo),
    decreases hi - lo,
{
    if lo < hi {
        lemma_empty_rows(annots, f, heights, lo, hi - 1);
        assert forall|i: int| 0 <= i < annots.len() implies #[trigger] row_of(annots, f, i)
            != Some((hi - 1) as u16) by {
            match row_of(annots, f, i) {
                Some(w) => {
                    assert(!(lo <= w < hi));
                },
                None => {},
            }
        }
        lemma_empty_row(annots, f, heights, (hi - 1) as u16, annots.len() as int);
    }
}

/// The first row at or behind `below` that an annotation is on.
pub(crate) fn next_row(rows: &Vec<Option<u16>>, below: u32) -> (r: Option<u16>)
    requires
        below <= 0x10000,
    ensures
        r matches Some(v) ==> v >= below && rows@.contains(Some(v)) && forall|i: int|
            0 <= i < rows@.len() ==> match #[trigger] rows@[i] {
                Some(w) => !(below <= w < v),
                None => true,
            },
        r is None ==> forall|i: int|
            0 <= i < rows@.len() ==> match #[trigger] rows@[i] {
                Some(w) => w < below,
                None => true,
            },
{
    let mut best: Option<u16> = None;
    let mut i: usize = 0;
    while i < rows.len()
        invariant
            i <= rows@.len(),
            below <= 0x10000,
            best matches Some(v) ==> v >= below && rows@.contains(Some(v)) && forall|j: int|
                0 <= j < i ==> match #[trigger] rows@[j] {
                    Some(w) => !(below <= w < v),
                    None => true,
                },
            best is None ==> forall|j: int|
                0 <= j < i ==> match #[trigger] rows@[j] {
                    Some(w) => w < below,
                    None => true,
                },
        decreases rows@.len() - i,
    {
        match rows[i] {
            Some(w) => {
                if w as u32 >= below {
                    let better = match best {
                        Some(v) => w < v,
                        None => true,
                    };
                    if better {
                        best = Some(w);
                        assert(rows@[i as int] == Some(w));
                    }
                }
            },
            None => {},
        }
        i += 1;
    }
    best
}

/// The height of one virtual row.
fn height_of_row(
    annots: &Vec<PluginAnnotation>,
    f: &Frame,
    heights: &Vec<Measured>,
    rows: &Vec<Option<u16>>,
    row: u16,
) -> (r: u16)
    requires
        heights@.len() == annots@.len(),
        rows@ == rows_of(annots@, *f, annots@.len() as int),
    ensures
        r == row_height(annots@, *f, heights@, row, annots@.len() as int),
{
    let mut highest: u16 = 0;
    let mut i: usize = 0;
    while i < annots.len()
        invariant
            i <= annots@.len(),
            heights@.len() == annots@.len(),
            rows@ == rows_of(annots@, *f, annots@.len() as int),
            highest == row_height(annots@, *f, heights@, row, i as int),
        decreases annots@.len() - i,
    {
        assert(rows@[i as int] == row_of(annots@, *f, i as int));
        let on_row = match rows[i] {
            Some(w) => w == row,
            None => false,
        };
        if on_row && sub16(f.width, annots[i].offset) > 0 {
            let h = to_u16(heights[i].height);
            if h > highest {
                highest = h;
            }
        }
        i += 1;
    }
    highest
}

/// The rows that the inline annotations of the line need below it, given
/// what the host measured.
pub fn inline_rows(annots: &Vec<PluginAnnotation>, f: &Frame, heights: &Vec<Measured>) -> (r: u16)
    requires
        heights@.len() == annots@.len(),
    ensures
        r == inline_state(annots@, *f, heights@, annots@.len() as int).extra,
{
    let dropped = should_drop(annots, f);
    let mut state = inline_start(annots, f, dropped);
    let mut i: usize = 0;
    proof {
        lemma_inline_frame(annots@, *f, heights@, Seq::<Measured>::empty(), 0);
    }
    while i < annots.len()
        invariant
            i <= annots@.len(),
            heights@.len() == annots@.len(),
            dropped == drops(annots@, *f),
            state == inline_state(annots@, *f, heights@, i as int),
        decreases annots@.len() - i,
    {
        if shown_inline(&annots[i], f) && sub16(f.width, state.col) > 0 {
            state = advance_inline(annots, f, dropped, state, i, heights[i]);
        }
        i += 1;
    }
    state.extra
}

/// The rows to reserve below the line, given what the host measured.
pub fn rows_to_reserve(annots: &Vec<PluginAnnotation>, f: &Frame, heights: &Vec<Measured>) -> (r:
    u16)
    requires
        heights@.len() == annots@.len(),
    ensures
        r == reserved_rows(annots@, *f, heights@),
{
    let rows = assign_rows(annots, f);
    let mut total: u16 = inline_rows(annots, f, heights);
    let ghost extra = total;
    let mut below: u32 = 0;
    let mut open = true;
    while open
        invariant
            below <= 0x10000,
            heights@.len() == annots@.len(),
            rows@ == rows_of(annots@, *f, annots@.len() as int),
            total == sat16(extra + rows_total(annots@, *f, heights@, below as int)),
            !open ==> rows_total(annots@, *f, heights@, below as int) == rows_total(
                annots@,
                *f,
                heights@,
                0x10000,
            ),
            rows_total(annots@, *f, heights@, below as int) >= 0,
        decreases 0x10000 - below + (if open { 1int } else { 0int }),
    {
        match next_row(&rows, below) {
            None => {
                proof {
                    assert forall|i: int| 0 <= i < annots@.len() implies match #[trigger] row_of(
                        annots@,
                        *f,
                        i,
                    ) {
                        Some(w) => !(below <= w < 0x10000),
                        None => true,
                    } by {
                        assert(rows@[i] == row_of(annots@, *f, i));
                    }
                    lemma_empty_rows(annots@, *f, heights@, below as int, 0x10000);
                }
                open = false;
            },
            Some(row) => {
                proof {
                    assert forall|i: int| 0 <= i < annots@.len() implies match #[trigger] row_of(
                        annots@,
                        *f,
                        i,
                    ) {
                        Some(w) => !(below <= w < row),
                        None => true,
                    } by {
                        assert(rows@[i] == row_of(annots@, *f, i));
                    }
                    lemma_empty_rows(annots@, *f, heights@, below as int, row as int);
                }
                let height = height_of_row(annots, f, heights, &rows, row);
                total = add16(total, height);
                below = row as u32 + 1;
            },
        }
    }
    total
}

/// Whether some measurements that `measure` gave for the annotations of the
/// line make `rows` the rows to reserve.
pub open spec fn reserves<M: Fn(usize, WrapFormat) -> Measured>(
    measure: M,
    annots: Seq<PluginAnnotation>,
    f: Frame,
    rows: u16,
) -> bool {
    exists|heights: Seq<Measured>|
        heights.len() == annots.len() && measured_with(
            measure,
            annots,
            f,
            heights,
            annots.len() as int,
        ) && rows == #[trigger] reserved_rows(annots, f, heights)
}

/// The rows to reserve below the line for its annotations. The host
/// measures each annotation once, through `measure`.
pub fn reserve_rows<M: Fn(usize, WrapFormat) -> Measured>(
    annots: &Vec<PluginAnnotation>,
    f: &Frame,
    measure: &M,
) -> (rows: u16)
    requires
        forall|i: usize, format: WrapFormat| call_requires(*measure, (i, format)),
    ensures
        reserves(*measure, annots@, *f, rows),
{
    let heights = measure_line(annots, f, measure);
    rows_to_reserve(annots, f, &heights)
}

/// Where no annotation of the line is inline, the inline annotations need
/// no rows.
pub proof fn lemma_no_inline_rows(
    annots: Seq<PluginAnnotation>,
    f: Frame,
    heights: Seq<Measured>,
    upto: int,
)
    requires
        upto <= annots.len(),
        forall|i: int| 0 <= i < annots.len() ==> !#[trigger] is_inline(annots, f, i),
    ensures
        inline_state(annots, f, heights, upto).extra == 0,
        inline_state(annots, f, heights, upto) == inline_state(annots, f, heights, 0),
    decreases upto,
{
    if upto > 0 {
        lemma_no_inline_rows(annots, f, heights, upto - 1);
        assert(!is_inline(annots, f, upto - 1));
    }
}

/// Two virtual-line annotations that ask for the same row share it: where
/// they are the only annotations of the line, the rows to reserve are those
/// of the higher of the two, not the sum.
pub proof fn law_shared_row(
    annots: Seq<PluginAnnotation>,
    f: Frame,
    heights: Seq<Measured>,
    row: u16,
)
    requires
        annots.len() == 2,
        heights.len() == 2,
        is_virtual(annots, f, 0),
        is_virtual(annots, f, 1),
        annots[0].virt_line_idx == Some(row),
        annots[1].virt_line_idx == Some(row),
        virtual_format(annots, f, 0) is Some,
        virtual_format(annots, f, 1) is Some,
    ensures
        reserved_rows(annots, f, heights) == if sat16(heights[0].height as int) >= sat16(
            heights[1].height as int,
        ) {
            sat16(heights[0].height as int)
        } else {
            sat16(heights[1].height as int)
        },
{
    reveal_with_fuel(row_height, 3);
    lemma_no_inline_rows(annots, f, heights, 2);
    assert(row_of(annots, f, 0) == Some(row));
    assert(row_of(annots, f, 1) == Some(row));
    assert forall|i: int| 0 <= i < annots.len() implies match #[trigger] row_of(annots, f, i) {
        Some(w) => !(0 <= w < row),
        None => true,
    } by {}
    lemma_empty_rows(annots, f, heights, 0, row as int);
    assert forall|i: int| 0 <= i < annots.len() implies match #[trigger] row_of(annots, f, i) {
        Some(w) => !(row + 1 <= w < 0x10000),
        None => true,
    } by {}
    lemma_empty_rows(annots, f, heights, row + 1, 0x10000);
    assert(rows_total(annots, f, heights, 0) == 0);
    assert(rows_total(annots, f, heights, row + 1) == rows_total(annots, f, heights, row as int)
        + row_height(annots, f, heights, row, 2));
    assert(row_height(annots, f, heights, row, 0) == 0);
    assert(row_height(annots, f, heights, row, 1) == virt_height(annots, f, heights, 0));
}

} // verus!
