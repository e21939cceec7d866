//! Where the annotations of a line are drawn.
//!
//! The host formats each text and draws its characters; where each text
//! starts, how wide it may be and which rows it goes on is decided here.
//! Inline annotations are drawn behind the end of the line, or below it
//! where they drop; virtual-line annotations are drawn below those, one
//! virtual row after the other.

use vstd::prelude::*;
use vstd::utf8::encode_utf8;
use crate::annotations::PluginAnnotation;
use crate::annotations::Position;
use crate::annotations::WrapFormat;
use crate::annotations::wrap_format;
use crate::layout::Frame;
use crate::layout::Measured;
use crate::layout::add16;
use crate::layout::drops;
use crate::layout::format_for;
use crate::layout::is_inline;
use crate::layout::is_virtual;
use crate::layout::row_of;
use crate::layout::rows_total;
use crate::layout::sat16;
use crate::layout::should_drop;
use crate::layout::shown_inline;
use crate::layout::shown_virtual;
use crate::layout::sub16;
use crate::layout::to_u16;
use crate::layout::virtual_format;

verus! {

/// The visual line that is drawn.
#[derive(Debug, Clone, Copy, PartialEq, Eq, Structural)]
pub struct LinePos {
    /// The line of the document.
    pub doc_line: usize,
    /// The row of the screen.
    pub visual_line: u16,
    /// Whether this is the last visual line of the line of the document.
    pub is_last_visual_line: bool,
}

/// Everything that decides where the annotations of a line go.
#[derive(Debug, Clone, Copy, PartialEq, Eq, Structural)]
pub struct Scene {
    /// The line and the viewport.
    pub frame: Frame,
    /// The row of the screen that the line ends on.
    pub visual_line: u16,
    /// The first free row below the line, counted from the line.
    pub virt_row: u16,
    /// The column behind the end of the line.
    pub virt_col: usize,
    /// The first column of the document that the viewport shows.
    pub scroll_col: usize,
}

/// One text for the host to format and draw.
#[derive(Debug, Clone, Copy, PartialEq, Eq, Structural)]
pub struct DrawItem {
    /// The position of the annotation.
    pub index: usize,
    /// Whether the annotation has dropped below its line. A dropped
    /// annotation shows its dropped text where it has one.
    pub dropped: bool,
    /// How the text is wrapped.
    pub format: WrapFormat,
    /// The column of the screen in which every row of the text starts.
    pub col: u16,
    /// The row of the screen for the first row of the text.
    pub first_row: u16,
    /// The row of the screen for the second row of the text; further rows
    /// follow below.
    pub next_row: u16,
}

/// The column of the document in which the inline annotation `i` starts: a
/// dropped one starts at its offset, another at its offset behind the end of
/// the line.
pub open spec fn abs_col(annots: Seq<PluginAnnotation>, s: Scene, i: int) -> int {
    if drops(annots, s.frame) {
        annots[i].offset as int
    } else if s.virt_col + annots[i].offset > usize::MAX {
        usize::MAX as int
    } else {
        s.virt_col + annots[i].offset
    }
}

/// Whether the viewport shows the column `col` of the document.
pub open spec fn visible(s: Scene, col: int) -> bool {
    s.scroll_col <= col && col - s.scroll_col < s.frame.width
}

/// Whether the inline annotation `i` is drawn: a dropped one always is,
/// another where the viewport shows the column in which it starts.
pub open spec fn inline_drawn(annots: Seq<PluginAnnotation>, s: Scene, i: int) -> bool {
    is_inline(annots, s.frame, i) && (drops(annots, s.frame) || visible(s, abs_col(annots, s, i)))
}

/// How the inline annotation `i` is drawn.
pub open spec fn inline_item(annots: Seq<PluginAnnotation>, s: Scene, i: int) -> DrawItem {
    let dropped = drops(annots, s.frame);
    let left = sat16(s.frame.width - sat16(abs_col(annots, s, i)));
    let available = if left >= 1 {
        left
    } else {
        1u16
    };
    let below = sat16(s.visual_line + s.virt_row);
    DrawItem {
        index: i as usize,
        dropped,
        format: format_for(available, s.frame.tab_width),
        col: sat16(abs_col(annots, s, i) - s.scroll_col),
        first_row: if dropped {
            below
        } else {
            s.visual_line
        },
        next_row: if dropped {
            sat16(below + 1)
        } else {
            below
        },
    }
}

/// The number of rows of a text whose last row has the index `last_row`.
pub open spec fn drawn_rows(last_row: usize) -> u16 {
    sat16(last_row + 1)
}

/// The rows below the line that the inline annotations among the first
/// `upto` take: a dropped one takes all its rows there, another all but the
/// first.
pub open spec fn render_extra(
    annots: Seq<PluginAnnotation>,
    s: Scene,
    draws: Seq<usize>,
    upto: int,
) -> u16
    decreases upto,
{
    if upto <= 0 {
        0
    } else {
        let before = render_extra(annots, s, draws, upto - 1);
        if inline_drawn(annots, s, upto - 1) {
            let rows = if drops(annots, s.frame) {
                drawn_rows(draws[upto - 1])
            } else {
                sat16(draws[upto - 1] as int)
            };
            if rows > before {
                rows
            } else {
                before
            }
        } else {
            before
        }
    }
}

/// How far the inline annotations among the first `upto` reach behind the
/// end of the line, by their offsets and the lengths of their texts in
/// bytes, with two columns to spare. Dropped annotations take no room there.
pub open spec fn col_used(annots: Seq<PluginAnnotation>, s: Scene, upto: int) -> u16
    decreases upto,
{
    if upto <= 0 {
        0
    } else {
        let before = col_used(annots, s, upto - 1);
        if inline_drawn(annots, s, upto - 1) && !drops(annots, s.frame) {
            let reach = sat16(
                annots[upto - 1].offset + encode_utf8(annots[upto - 1].text@).len() + 2,
            );
            if reach > before {
                reach
            } else {
                before
            }
        } else {
            before
        }
    }
}

/// The heights of the texts whose last rows have the indices `draws`.
pub open spec fn heights_from(draws: Seq<usize>) -> Seq<Measured> {
    Seq::new(
        draws.len(),
        |i: int|
            Measured {
                height: if draws[i] == usize::MAX {
                    usize::MAX
                } else {
                    (draws[i] + 1) as usize
                },
                last_line_width: 0,
            },
    )
}

/// Whether the virtual-line annotation `i` is drawn: it is where a column is
/// left behind its offset.
pub open spec fn virtual_drawn(annots: Seq<PluginAnnotation>, s: Scene, i: int) -> bool {
    is_virtual(annots, s.frame, i) && virtual_format(annots, s.frame, i) is Some
}

/// The rows that lie between the line and the virtual row `row`: those of
/// the inline annotations and those of the virtual rows before it.
pub open spec fn rows_above(
    annots: Seq<PluginAnnotation>,
    s: Scene,
    draws: Seq<usize>,
    row: int,
) -> u16 {
    sat16(
        render_extra(annots, s, draws, annots.len() as int) + rows_total(
            annots,
            s.frame,
            heights_from(draws),
            row,
        ),
    )
}

/// How the virtual-line annotation `i` is drawn.
pub open spec fn virtual_item(
    annots: Seq<PluginAnnotation>,
    s: Scene,
    draws: Seq<usize>,
    i: int,
) -> DrawItem {
    let first = sat16(
        s.visual_line + s.virt_row + rows_above(annots, s, draws, row_of(annots, s.frame, i)->0 as int),
    );
    DrawItem {
        index: i as usize,
        dropped: false,
        format: virtual_format(annots, s.frame, i)->0,
        col: sat16(annots[i].offset - s.scroll_col),
        first_row: first,
        next_row: sat16(first + 1),
    }
}

/// What is drawn for annotation `i`; `None` where nothing is.
pub open spec fn item_of(
    annots: Seq<PluginAnnotation>,
    s: Scene,
    draws: Seq<usize>,
    i: int,
) -> Option<DrawItem> {
    if inline_drawn(annots, s, i) {
        Some(inline_item(annots, s, i))
    } else if virtual_drawn(annots, s, i) {
        Some(virtual_item(annots, s, draws, i))
    } else {
        None
    }
}

/// What drawing the line returns: the rows that were drawn below it, and
/// the columns that were used behind its end.
pub open spec fn render_result(annots: Seq<PluginAnnotation>, s: Scene, draws: Seq<usize>) -> Position {
    Position {
        row: rows_above(annots, s, draws, 0x10000) as usize,
        col: col_used(annots, s, annots.len() as int) as usize,
    }
}

/// The rows of the inline annotations depend on what was drawn of inline
/// annotations only.
pub proof fn lemma_extra_frame(
    annots: Seq<PluginAnnotation>,
    s: Scene,
    a: Seq<usize>,
    b: Seq<usize>,
    upto: int,
)
    requires
        forall|k: int| 0 <= k < upto && inline_drawn(annots, s, k) ==> a[k] == b[k],
    ensures
        render_extra(annots, s, a, upto) == render_extra(annots, s, b, upto),
    decreases upto,
{
    if upto > 0 {
        lemma_extra_frame(annots, s, a, b, upto - 1);
    }
}

/// The column of the document in which the inline annotation `i` starts.
fn start_column(annots: &Vec<PluginAnnotation>, s: &Scene, dropped: bool, i: usize) -> (r: usize)
    requires
        i < annots@.len(),
        dropped == drops(annots@, s.frame),
    ensures
        r == abs_col(annots@, *s, i as int),
{
    let offset: usize = annots[i].offset as usize;
    if dropped {
        offset
    } else {
        match s.virt_col.checked_add(offset) {
            Some(c) => c,
            None => usize::MAX,
        }
    }
}

/// Whether the viewport shows the column `col` of the document.
fn shows_column(s: &Scene, col: usize) -> (r: bool)
    ensures
        r == visible(*s, col as int),
{
    s.scroll_col <= col && col - s.scroll_col < s.frame.width as usize
}

/// What the host is to draw for the inline annotation `i`.
fn make_inline_item(annots: &Vec<PluginAnnotation>, s: &Scene, dropped: bool, i: usize) -> (r:
    DrawItem)
    requires
        i < annots@.len(),
        dropped == drops(annots@, s.frame),
    ensures
        r == inline_item(annots@, *s, i as int),
{
    let abs = start_column(annots, s, dropped, i);
    let left = sub16(s.frame.width, to_u16(abs));
    let available = if left >= 1 {
        left
    } else {
        1
    };
    let below = add16(s.visual_line, s.virt_row);
    let col = if abs >= s.scroll_col {
        to_u16(abs - s.scroll_col)
    } else {
        0
    };
    DrawItem {
        index: i,
        dropped,
        format: wrap_format(available, s.frame.tab_width),
        col,
        first_row: if dropped {
            below
        } else {
            s.visual_line
        },
        next_row: if dropped {
            add16(below, 1)
        } else {
            below
        },
    }
}

/// The height of a virtual row depends on what was drawn of the
/// annotations of that row only.
pub proof fn lemma_row_frame(
    annots: Seq<PluginAnnotation>,
    s: Scene,
    a: Seq<usize>,
    b: Seq<usize>,
    row: u16,
    upto: int,
)
    requires
        a.len() == annots.len(),
        b.len() == annots.len(),
        upto <= annots.len(),
        forall|k: int| 0 <= k < upto && #[trigger] row_of(annots, s.frame, k) == Some(row) ==> a[k] == b[k],
    ensures
        crate::layout::row_height(annots, s.frame, heights_from(a), row, upto)
            == crate::layout::row_height(annots, s.frame, heights_from(b), row, upto),
    decreases upto,
{
    if upto > 0 {
        lemma_row_frame(annots, s, a, b, row, upto - 1);
        if row_of(annots, s.frame, upto - 1) == Some(row) {
            assert(a[upto - 1] == b[upto - 1]);
        }
    }
}

/// Where a virtual row starts depends on what was drawn of the annotations
/// of the rows before it only.
pub proof fn lemma_rows_frame(
    annots: Seq<PluginAnnotation>,
    s: Scene,
    a: Seq<usize>,
    b: Seq<usize>,
    below: int,
)
    requires
        a.len() == annots.len(),
        b.len() == annots.len(),
        below <= 0x10000,
        forall|k: int|
            0 <= k < annots.len() ==> match #[trigger] row_of(annots, s.frame, k) {
                Some(w) => w < below ==> a[k] == b[k],
                None => true,
            },
    ensures
        rows_total(annots, s.frame, heights_from(a), below) == rows_total(
            annots,
            s.frame,
            heights_from(b),
            below,
        ),
    decreases below,
{
    if below > 0 {
        lemma_rows_frame(annots, s, a, b, below - 1);
        assert forall|k: int|
            0 <= k < annots.len() && #[trigger] row_of(annots, s.frame, k) == Some(
                (below - 1) as u16,
            ) implies a[k] == b[k] by {}
        lemma_row_frame(annots, s, a, b, (below - 1) as u16, annots.len() as int);
    }
}

/// Whether the inline annotations among the first `upto` were drawn by
/// `draw`, with `draws` as what it returned.
pub open spec fn inline_ok<D: Fn(DrawItem) -> usize>(
    draw: D,
    annots: Seq<PluginAnnotation>,
    s: Scene,
    draws: Seq<usize>,
    upto: int,
) -> bool {
    forall|j: int|
        0 <= j < upto && #[trigger] inline_drawn(annots, s, j) ==> call_ensures(
            draw,
            (inline_item(annots, s, j),),
            draws[j],
        )
}

/// Whether the virtual-line annotation `j` has had its turn when the rows
/// before `below` are done and the row `row` has got to position `upto`.
pub open spec fn turn_passed(
    annots: Seq<PluginAnnotation>,
    s: Scene,
    below: int,
    row: int,
    upto: int,
    j: int,
) -> bool {
    virtual_drawn(annots, s, j) && (row_of(annots, s.frame, j)->0 < below || (row_of(
        annots,
        s.frame,
        j,
    )->0 == row && j < upto))
}

/// Whether the virtual-line annotations that have had their turn were drawn
/// by `draw`, with `draws` as what it returned.
pub open spec fn virtual_ok<D: Fn(DrawItem) -> usize>(
    draw: D,
    annots: Seq<PluginAnnotation>,
    s: Scene,
    draws: Seq<usize>,
    below: int,
    row: int,
    upto: int,
) -> bool {
    forall|j: int|
        0 <= j < annots.len() && #[trigger] turn_passed(annots, s, below, row, upto, j)
            ==> call_ensures(draw, (virtual_item(annots, s, draws, j),), draws[j])
}

/// Whether nothing is recorded for the annotations that were not drawn.
pub open spec fn rest_is_zero(
    annots: Seq<PluginAnnotation>,
    s: Scene,
    draws: Seq<usize>,
    inline_upto: int,
    below: int,
    row: int,
    upto: int,
) -> bool {
    forall|j: int|
        0 <= j < annots.len() && !(inline_drawn(annots, s, j) && j < inline_upto) && !#[trigger] turn_passed(
            annots,
            s,
            below,
            row,
            upto,
            j,
        ) ==> draws[j] == 0
}

/// Whether `draws` is what `draw` returned for the annotations of the line:
/// each annotation that is drawn has what `draw` returned for its item, and
/// the others have 0.
pub open spec fn drawn_with<D: Fn(DrawItem) -> usize>(
    draw: D,
    annots: Seq<PluginAnnotation>,
    s: Scene,
    draws: Seq<usize>,
) -> bool {
    &&& draws.len() == annots.len()
    &&& forall|i: int|
        0 <= i < annots.len() ==> match #[trigger] item_of(annots, s, draws, i) {
            Some(item) => call_ensures(draw, (item,), draws[i]),
            None => draws[i] == 0,
        }
}

/// Whether drawing the line through `draw` gives `result`.
pub open spec fn renders<D: Fn(DrawItem) -> usize>(
    draw: D,
    annots: Seq<PluginAnnotation>,
    s: Scene,
    result: Position,
) -> bool {
    exists|draws: Seq<usize>|
        drawn_with(draw, annots, s, draws) && result == #[trigger] render_result(annots, s, draws)
}

/// As many zeros as there are annotations.
fn zeros(n: usize) -> (r: Vec<usize>)
    ensures
        r@.len() == n,
        forall|i: int| 0 <= i < n ==> r@[i] == 0,
{
    let mut r: Vec<usize> = Vec::new();
    while r.len() < n
        invariant
            r@.len() <= n,
            forall|i: int| 0 <= i < r@.len() ==> r@[i] == 0,
        decreases n - r@.len(),
    {
        r.push(0);
    }
    r
}

/// The number of rows of a text whose last row has the index `last_row`.
fn rows_drawn(last_row: usize) -> (r: u16)
    ensures
        r == drawn_rows(last_row),
        r == sat16(heights_from(seq![last_row])[0].height as int),
{
    if last_row >= 0xffff {
        0xffff
    } else {
        (last_row + 1) as u16
    }
}

/// Draws the inline annotations of the line, in order, and records what the
/// host returned for each. The result is the rows that they take below the
/// line and the columns that they use behind it.
fn draw_inline<D: Fn(DrawItem) -> usize>(
    annots: &Vec<PluginAnnotation>,
    s: &Scene,
    draw: &D,
    draws: &mut Vec<usize>,
) -> (r: (u16, u16))
    requires
        forall|item: DrawItem| call_requires(*draw, (item,)),
        old(draws)@.len() == annots@.len(),
        forall|i: int| 0 <= i < annots@.len() ==> old(draws)@[i] == 0,
    ensures
        final(draws)@.len() == annots@.len(),
        r.0 == render_extra(annots@, *s, final(draws)@, annots@.len() as int),
        r.1 == col_used(annots@, *s, annots@.len() as int),
        inline_ok(*draw, annots@, *s, final(draws)@, annots@.len() as int),
        rest_is_zero(annots@, *s, final(draws)@, annots@.len() as int, 0, -1, 0),
{
    let dropped = should_drop(annots, &s.frame);
    let mut extra: u16 = 0;
    let mut used: u16 = 0;
    let mut i: usize = 0;
    while i < annots.len()
        invariant
            i <= annots@.len(),
            draws@.len() == annots@.len(),
            dropped == drops(annots@, s.frame),
            extra == render_extra(annots@, *s, draws@, i as int),
            used == col_used(annots@, *s, i as int),
            inline_ok(*draw, annots@, *s, draws@, i as int),
            forall|j: int| i <= j < annots@.len() ==> draws@[j] == 0,
            rest_is_zero(annots@, *s, draws@, i as int, 0, -1, 0),
            forall|item: DrawItem| call_requires(*draw, (item,)),
        decreases annots@.len() - i,
    {
        let ghost before = draws@;
        if shown_inline(&annots[i], &s.frame) {
            let abs = start_column(annots, s, dropped, i);
            if dropped || shows_column(s, abs) {
                let item = make_inline_item(annots, s, dropped, i);
                let last = draw(item);
                draws[i] = last;
                let rows = if dropped {
                    rows_drawn(last)
                } else {
                    to_u16(last)
                };
                if rows > extra {
                    extra = rows;
                }
                if !dropped {
                    let bytes = to_u16(annots[i].text.as_str().as_bytes().len());
                    let reach = add16(add16(annots[i].offset, bytes), 2);
                    if reach > used {
                        used = reach;
                    }
                }
            }
        }
        proof {
            lemma_extra_frame(annots@, *s, draws@, before, i as int);
            assert forall|j: int|
                0 <= j < i + 1 && #[trigger] inline_drawn(annots@, *s, j) implies call_ensures(
                *draw,
                (inline_item(annots@, *s, j),),
                draws@[j],
            ) by {
                if j < i {
                    assert(draws@[j] == before[j]);
                }
            }
            assert forall|j: int|
                0 <= j < annots@.len() && !(inline_drawn(annots@, *s, j) && j < i + 1)
                    && !#[trigger] turn_passed(annots@, *s, 0, -1, 0, j) implies draws@[j] == 0 by {
                if j != i {
                    assert(draws@[j] == before[j]);
                }
            }
        }
        i += 1;
    }
    (extra, used)
}

/// What the host is to draw for the virtual-line annotation `i`, whose row
/// starts `above` rows below the first free row.
fn make_virtual_item(
    annots: &Vec<PluginAnnotation>,
    s: &Scene,
    draws: &Vec<usize>,
    i: usize,
    above: u16,
) -> (r: DrawItem)
    requires
        i < annots@.len(),
        virtual_drawn(annots@, *s, i as int),
        above == rows_above(annots@, *s, draws@, row_of(annots@, s.frame, i as int)->0 as int),
    ensures
        r == virtual_item(annots@, *s, draws@, i as int),
{
    let available = sub16(s.frame.width, annots[i].offset);
    let offset: usize = annots[i].offset as usize;
    let col = if offset >= s.scroll_col {
        to_u16(offset - s.scroll_col)
    } else {
        0
    };
    let first = add16(add16(s.visual_line, s.virt_row), above);
    DrawItem {
        index: i,
        dropped: false,
        format: wrap_format(available, s.frame.tab_width),
        col,
        first_row: first,
        next_row: add16(first, 1),
    }
}

/// Draws the annotations of one virtual row, in order, and records what the
/// host returned for each. The result is the height of the row.
fn draw_row<D: Fn(DrawItem) -> usize>(
    annots: &Vec<PluginAnnotation>,
    s: &Scene,
    draw: &D,
    draws: &mut Vec<usize>,
    rows: &Vec<Option<u16>>,
    row: u16,
    above: u16,
) -> (height: u16)
    requires
        forall|item: DrawItem| call_requires(*draw, (item,)),
        old(draws)@.len() == annots@.len(),
        rows@ == crate::layout::rows_of(annots@, s.frame, annots@.len() as int),
        above == rows_above(annots@, *s, old(draws)@, row as int),
        inline_ok(*draw, annots@, *s, old(draws)@, annots@.len() as int),
        virtual_ok(*draw, annots@, *s, old(draws)@, row as int, -1, 0),
        rest_is_zero(annots@, *s, old(draws)@, annots@.len() as int, row as int, -1, 0),
    ensures
        final(draws)@.len() == annots@.len(),
        inline_ok(*draw, annots@, *s, final(draws)@, annots@.len() as int),
        virtual_ok(*draw, annots@, *s, final(draws)@, row + 1, -1, 0),
        rest_is_zero(annots@, *s, final(draws)@, annots@.len() as int, row + 1, -1, 0),
        render_extra(annots@, *s, final(draws)@, annots@.len() as int) == render_extra(
            annots@,
            *s,
            old(draws)@,
            annots@.len() as int,
        ),
        rows_total(annots@, s.frame, heights_from(final(draws)@), row as int) == rows_total(
            annots@,
            s.frame,
            heights_from(old(draws)@),
            row as int,
        ),
        height == crate::layout::row_height(
            annots@,
            s.frame,
            heights_from(final(draws)@),
            row,
            annots@.len() as int,
        ),
{
    let ghost start = draws@;
    let ghost n = annots@.len() as int;
    let mut height: u16 = 0;
    let mut i: usize = 0;
    proof {
        assert forall|j: int|
            0 <= j < n && #[trigger] turn_passed(annots@, *s, row as int, row as int, 0, j) implies call_ensures(
            *draw,
            (virtual_item(annots@, *s, draws@, j),),
            draws@[j],
        ) by {
            assert(turn_passed(annots@, *s, row as int, -1, 0, j));
        }
        assert forall|j: int|
            0 <= j < n && !(inline_drawn(annots@, *s, j) && j < n) && !#[trigger] turn_passed(
                annots@,
                *s,
                row as int,
                row as int,
                0,
                j,
            ) implies draws@[j] == 0 by {
            assert(!turn_passed(annots@, *s, row as int, -1, 0, j));
        }
    }
    while i < annots.len()
        invariant
            i <= annots@.len(),
            n == annots@.len(),
            draws@.len() == annots@.len(),
            rows@ == crate::layout::rows_of(annots@, s.frame, annots@.len() as int),
            above == rows_above(annots@, *s, draws@, row as int),
            inline_ok(*draw, annots@, *s, draws@, n),
            virtual_ok(*draw, annots@, *s, draws@, row as int, row as int, i as int),
            rest_is_zero(annots@, *s, draws@, n, row as int, row as int, i as int),
            render_extra(annots@, *s, draws@, n) == render_extra(annots@, *s, start, n),
            rows_total(annots@, s.frame, heights_from(draws@), row as int) == rows_total(
                annots@,
                s.frame,
                heights_from(start),
                row as int,
            ),
            height == crate::layout::row_height(
                annots@,
                s.frame,
                heights_from(draws@),
                row,
                i as int,
            ),
            forall|item: DrawItem| call_requires(*draw, (item,)),
        decreases annots@.len() - i,
    {
        let ghost before = draws@;
        assert(rows@[i as int] == row_of(annots@, s.frame, i as int));
        let on_row = match rows[i] {
            Some(w) => w == row,
            None => false,
        };
        let ghost mut drawn_now = false;
        if on_row && sub16(s.frame.width, annots[i].offset) > 0 {
            let item = make_virtual_item(annots, s, draws, i, above);
            let last = draw(item);
            draws[i] = last;
            let rows_of_text = rows_drawn(last);
            if rows_of_text > height {
                height = rows_of_text;
            }
            proof {
                drawn_now = true;
            }
        }
        proof {
            let after = draws@;
            assert forall|k: int| 0 <= k < n && k != i implies after[k] == before[k] by {}
            lemma_extra_frame(annots@, *s, after, before, n);
            lemma_rows_frame(annots@, *s, after, before, row as int);
            lemma_row_frame(annots@, *s, after, before, row, i as int);
            assert forall|j: int|
                0 <= j < n && #[trigger] inline_drawn(annots@, *s, j) implies call_ensures(
                *draw,
                (inline_item(annots@, *s, j),),
                after[j],
            ) by {
                assert(after[j] == before[j]);
            }
            assert forall|j: int|
                0 <= j < n && #[trigger] turn_passed(
                    annots@,
                    *s,
                    row as int,
                    row as int,
                    i + 1,
                    j,
                ) implies call_ensures(*draw, (virtual_item(annots@, *s, after, j),), after[j]) by {
                lemma_rows_frame(annots@, *s, after, before, row_of(annots@, s.frame, j)->0 as int);
                assert(virtual_item(annots@, *s, after, j) == virtual_item(annots@, *s, before, j));
                if j != i {
                    assert(turn_passed(annots@, *s, row as int, row as int, i as int, j));
                } else if row_of(annots@, s.frame, j)->0 < row {
                    assert(turn_passed(annots@, *s, row as int, row as int, i as int, j));
                } else {
                    assert(row_of(annots@, s.frame, i as int) == Some(row));
                    assert(drawn_now);
                }
            }
            assert forall|j: int|
                0 <= j < n && !(inline_drawn(annots@, *s, j) && j < n) && !#[trigger] turn_passed(
                    annots@,
                    *s,
                    row as int,
                    row as int,
                    i + 1,
                    j,
                ) implies after[j] == 0 by {
                if j != i {
                    assert(!turn_passed(annots@, *s, row as int, row as int, i as int, j));
                } else {
                    assert(after[j] == before[j]);
                    assert(!turn_passed(annots@, *s, row as int, row as int, i as int, j));
                }
            }
        }
        i += 1;
    }
    proof {
        assert forall|j: int|
            0 <= j < n && #[trigger] turn_passed(annots@, *s, row + 1, -1, 0, j) implies call_ensures(
            *draw,
            (virtual_item(annots@, *s, draws@, j),),
            draws@[j],
        ) by {
            assert(turn_passed(annots@, *s, row as int, row as int, n, j));
        }
        assert forall|j: int|
            0 <= j < n && !(inline_drawn(annots@, *s, j) && j < n) && !#[trigger] turn_passed(
                annots@,
                *s,
                row + 1,
                -1,
                0,
                j,
            ) implies draws@[j] == 0 by {
            assert(!turn_passed(annots@, *s, row as int, row as int, n, j));
        }
    }
    height
}

/// Draws the annotations of the line: the inline ones in order, then the
/// virtual rows from the first to the last, each row's annotations in
/// order. The host draws each text through `draw`, which returns the index
/// of the last row that the text took. The result is the number of rows
/// drawn below the line and the number of columns used behind it.
pub fn draw_line<D: Fn(DrawItem) -> usize>(annots: &Vec<PluginAnnotation>, s: &Scene, draw: &D) -> (r:
    Position)
    requires
        forall|item: DrawItem| call_requires(*draw, (item,)),
    ensures
        renders(*draw, annots@, *s, r),
{
    let rows = crate::layout::assign_rows(annots, &s.frame);
    let mut draws = zeros(annots.len());
    let ghost n = annots@.len() as int;
    let (extra, used) = draw_inline(annots, s, draw, &mut draws);
    let mut acc: u16 = extra;
    let mut below: u32 = 0;
    let mut open = true;
    proof {
        assert forall|j: int|
            0 <= j < n && #[trigger] turn_passed(annots@, *s, 0, -1, 0, j) implies call_ensures(
            *draw,
            (virtual_item(annots@, *s, draws@, j),),
            draws@[j],
        ) by {}
    }
    while open
        invariant
            below <= 0x10000,
            n == annots@.len(),
            draws@.len() == annots@.len(),
            rows@ == crate::layout::rows_of(annots@, s.frame, annots@.len() as int),
            inline_ok(*draw, annots@, *s, draws@, n),
            virtual_ok(*draw, annots@, *s, draws@, below as int, -1, 0),
            rest_is_zero(annots@, *s, draws@, n, below as int, -1, 0),
            acc == rows_above(annots@, *s, draws@, below as int),
            used == col_used(annots@, *s, n),
            !open ==> below == 0x10000,
            forall|item: DrawItem| call_requires(*draw, (item,)),
        decreases 0x10000 - below + (if open { 1int } else { 0int }),
    {
        let found = crate::layout::next_row(&rows, below);
        let ghost next: int = match found {
            Some(v) => v as int,
            None => 0x10000,
        };
        proof {
            assert forall|i: int| 0 <= i < n implies match #[trigger] row_of(annots@, s.frame, i) {
                Some(w) => !(below <= w < next),
                None => true,
            } by {
                assert(rows@[i] == row_of(annots@, s.frame, i));
            }
            crate::layout::lemma_empty_rows(
                annots@,
                s.frame,
                heights_from(draws@),
                below as int,
                next,
            );
            assert forall|j: int|
                0 <= j < n && #[trigger] turn_passed(annots@, *s, next, -1, 0, j) implies call_ensures(
                *draw,
                (virtual_item(annots@, *s, draws@, j),),
                draws@[j],
            ) by {
                assert(turn_passed(annots@, *s, below as int, -1, 0, j));
            }
            assert forall|j: int|
                0 <= j < n && !(inline_drawn(annots@, *s, j) && j < n) && !#[trigger] turn_passed(
                    annots@,
                    *s,
                    next,
                    -1,
                    0,
                    j,
                ) implies draws@[j] == 0 by {
                assert(!turn_passed(annots@, *s, below as int, -1, 0, j));
            }
        }
        match found {
            None => {
                below = 0x10000;
                open = false;
            },
            Some(row) => {
                proof {
                    crate::layout::lemma_rows_nonnegative(
                        annots@,
                        s.frame,
                        heights_from(draws@),
                        row as int,
                    );
                }
                let height = draw_row(annots, s, draw, &mut draws, &rows, row, acc);
                acc = add16(acc, height);
                below = row as u32 + 1;
            },
        }
    }
    proof {
        assert forall|i: int| 0 <= i < n implies match #[trigger] item_of(annots@, *s, draws@, i) {
            Some(item) => call_ensures(*draw, (item,), draws@[i]),
            None => draws@[i] == 0,
        } by {
            if inline_drawn(annots@, *s, i) {
            } else if virtual_drawn(annots@, *s, i) {
                assert(turn_passed(annots@, *s, 0x10000, -1, 0, i));
            } else {
                assert(!turn_passed(annots@, *s, 0x10000, -1, 0, i));
            }
        }
        assert(drawn_with(*draw, annots@, *s, draws@));
    }
    let r = Position { row: acc as usize, col: used as usize };
    assert(r == render_result(annots@, *s, draws@));
    r
}

/// The part of the document that the renderer shows.
#[derive(Debug, Clone, Copy, PartialEq, Eq, Structural)]
pub struct Canvas {
    /// The width of the viewport.
    pub width: u16,
    /// The first column of the document that the viewport shows.
    pub scroll_col: usize,
    /// The width of a tab stop.
    pub tab_width: u16,
}

/// The scene for the line that spans the characters from `line_start` up to
/// `line_end`, ends on the visual line `pos` and has its first free row and
/// column at `virt_off`.
pub open spec fn scene_of(
    canvas: Canvas,
    line_start: usize,
    line_end: usize,
    pos: LinePos,
    virt_off: Position,
) -> Scene {
    Scene {
        frame: Frame {
            line_start,
            line_end,
            line_end_col: sat16(virt_off.col as int),
            width: canvas.width,
            tab_width: canvas.tab_width,
        },
        visual_line: pos.visual_line,
        virt_row: sat16(virt_off.row as int),
        virt_col: virt_off.col,
        scroll_col: canvas.scroll_col,
    }
}

/// Draws the annotations of a line of the document when its last visual
/// line is drawn, so that a line that wraps shows its annotations once. On
/// any other visual line nothing is drawn.
pub fn render_line<D: Fn(DrawItem) -> usize>(
    annots: &Vec<PluginAnnotation>,
    canvas: &Canvas,
    line_start: usize,
    line_end: usize,
    pos: LinePos,
    virt_off: Position,
    draw: &D,
) -> (r: Position)
    requires
        forall|item: DrawItem| call_requires(*draw, (item,)),
    ensures
        !pos.is_last_visual_line ==> r == (Position { row: 0, col: 0 }),
        pos.is_last_visual_line ==> renders(
            *draw,
            annots@,
            scene_of(*canvas, line_start, line_end, pos, virt_off),
            r,
        ),
{
    if !pos.is_last_visual_line {
        return Position { row: 0, col: 0 };
    }
    let scene = Scene {
        frame: Frame {
            line_start,
            line_end,
            line_end_col: to_u16(virt_off.col),
            width: canvas.width,
            tab_width: canvas.tab_width,
        },
        visual_line: pos.visual_line,
        virt_row: to_u16(virt_off.row),
        virt_col: virt_off.col,
        scroll_col: canvas.scroll_col,
    };
    draw_line(annots, &scene, draw)
}

/// Where no annotation of the line is inline, none takes rows as an inline
/// annotation when the line is drawn.
pub proof fn lemma_no_inline_drawn(
    annots: Seq<PluginAnnotation>,
    s: Scene,
    draws: Seq<usize>,
    upto: int,
)
    requires
        upto <= annots.len(),
        forall|i: int| 0 <= i < annots.len() ==> !#[trigger] is_inline(annots, s.frame, i),
    ensures
        render_extra(annots, s, draws, upto) == 0,
    decreases upto,
{
    if upto > 0 {
        lemma_no_inline_drawn(annots, s, draws, upto - 1);
        assert(!is_inline(annots, s.frame, upto - 1));
    }
}

/// The rows that are drawn are the rows that were reserved: for a line
/// whose annotations are all virtual-line annotations, drawing takes as many
/// rows below the line as laying out reserves for texts of the same
/// heights.
pub proof fn law_drawn_rows_are_reserved(annots: Seq<PluginAnnotation>, s: Scene, draws: Seq<usize>)
    requires
        draws.len() == annots.len(),
        forall|i: int| 0 <= i < annots.len() ==> !#[trigger] is_inline(annots, s.frame, i),
    ensures
        render_result(annots, s, draws).row == crate::layout::reserved_rows(
            annots,
            s.frame,
            heights_from(draws),
        ),
{
    lemma_no_inline_drawn(annots, s, draws, annots.len() as int);
    crate::layout::lemma_no_inline_rows(
        annots,
        s.frame,
        heights_from(draws),
        annots.len() as int,
    );
}

} // verus!
