//! The values that scripts see of a buffer, and the arithmetic on positions
//! that the buffer functions need.

use vstd::prelude::*;
use vstd::std_specs::convert::FromSpecImpl;
use crate::annotations::PluginAnnotation;
use crate::annotations::Position;
use crate::text::decimal;
use crate::text::decimal_text;
use crate::text::join2;
use crate::text::join3;
use crate::text::owned;
use crate::types::DocumentId;

verus! {

/// A buffer as scripts hold it: the id of its document.
#[derive(Clone)]
pub struct LuaBuffer {
    pub document_id: DocumentId,
}

impl LuaBuffer {
    pub fn new(document_id: DocumentId) -> (r: Self)
        ensures
            r.document_id == document_id,
    {
        LuaBuffer { document_id }
    }
}

/// A text position as scripts hold it.
#[derive(Clone, Copy)]
pub struct LuaPosition {
    pub row: usize,
    pub col: usize,
}

impl LuaPosition {
    /// How the position is shown: `Position(row:col)`.
    pub open spec fn shown(self) -> Seq<char> {
        "Position("@ + decimal(self.row as nat) + ":"@ + decimal(self.col as nat) + ")"@
    }

    /// Shows the position to scripts.
    pub fn to_text(&self) -> (r: String)
        ensures
            r@ == self.shown(),
    {
        let row = decimal_text(self.row);
        let col = decimal_text(self.col);
        let head = join3("Position(", row.as_str(), ":");
        join3(head.as_str(), col.as_str(), ")")
    }
}

impl From<Position> for LuaPosition {
    fn from(pos: Position) -> (r: Self) {
        LuaPosition { row: pos.row, col: pos.col }
    }
}

impl FromSpecImpl<Position> for LuaPosition {
    open spec fn obeys_from_spec() -> bool {
        true
    }

    open spec fn from_spec(pos: Position) -> Self {
        LuaPosition { row: pos.row, col: pos.col }
    }
}

impl From<LuaPosition> for Position {
    fn from(pos: LuaPosition) -> (r: Self) {
        Position { row: pos.row, col: pos.col }
    }
}

impl FromSpecImpl<LuaPosition> for Position {
    open spec fn obeys_from_spec() -> bool {
        true
    }

    open spec fn from_spec(pos: LuaPosition) -> Self {
        Position { row: pos.row, col: pos.col }
    }
}

/// A range of characters as scripts hold it.
#[derive(Clone, Copy)]
pub struct LuaRange {
    pub start: usize,
    pub end: usize,
}

impl LuaRange {
    /// How the range is shown: `Range(start-end)`.
    pub open spec fn shown(self) -> Seq<char> {
        "Range("@ + decimal(self.start as nat) + "-"@ + decimal(self.end as nat) + ")"@
    }

    /// Shows the range to scripts.
    pub fn to_text(&self) -> (r: String)
        ensures
            r@ == self.shown(),
    {
        let start = decimal_text(self.start);
        let end = decimal_text(self.end);
        let head = join3("Range(", start.as_str(), "-");
        join3(head.as_str(), end.as_str(), ")")
    }
}

/// How serious a diagnostic is.
#[derive(Debug, Clone, Copy, PartialEq, Eq, Structural)]
pub enum Severity {
    Hint,
    Info,
    Warning,
    Error,
}

impl Severity {
    /// The name of the severity.
    pub open spec fn name(self) -> Seq<char> {
        match self {
            Severity::Hint => "hint"@,
            Severity::Info => "info"@,
            Severity::Warning => "warning"@,
            Severity::Error => "error"@,
        }
    }

    /// The name under which scripts know the severity.
    pub fn as_str(&self) -> (r: &'static str)
        ensures
            r@ == self.name(),
    {
        match self {
            Severity::Hint => "hint",
            Severity::Info => "info",
            Severity::Warning => "warning",
            Severity::Error => "error",
        }
    }
}

/// What the host knows of a diagnostic, as far as scripts are shown it.
pub struct Diagnostic {
    pub range_start: usize,
    pub range_end: usize,
    pub line: usize,
    pub message: String,
    pub severity: Option<Severity>,
}

/// A diagnostic as scripts hold it.
#[derive(Clone)]
pub struct LuaDiagnostic {
    pub range: LuaRange,
    pub line: usize,
    pub message: String,
    pub severity: Option<String>,
}

impl LuaDiagnostic {
    /// Whether `self` shows `diag`.
    pub open spec fn shows(self, diag: Diagnostic) -> bool {
        &&& self.range.start == diag.range_start
        &&& self.range.end == diag.range_end
        &&& self.line == diag.line
        &&& self.message == diag.message
        &&& match diag.severity {
            Some(s) => self.severity matches Some(name) && name@ == s.name(),
            None => self.severity is None,
        }
    }

    /// The diagnostic as scripts are shown it.
    pub fn from_diagnostic(diag: Diagnostic) -> (r: Self)
        ensures
            r.shows(diag),
    {
        let severity = match diag.severity {
            Some(s) => Some(owned(s.as_str())),
            None => None,
        };
        LuaDiagnostic {
            range: LuaRange { start: diag.range_start, end: diag.range_end },
            line: diag.line,
            message: diag.message,
            severity,
        }
    }
}

/// An annotation as scripts describe it.
#[derive(Clone)]
pub struct LuaPluginAnnotation {
    pub char_idx: usize,
    pub text: String,
    pub style: Option<String>,
    pub fg: Option<String>,
    pub bg: Option<String>,
    pub offset: u16,
    pub is_line: bool,
}

impl LuaPluginAnnotation {
    /// The annotation that a script describes by a table: the place and the
    /// text are required, the offset is 0 and the annotation is inline where
    /// the script does not say otherwise.
    pub fn from_fields(
        char_idx: usize,
        text: String,
        style: Option<String>,
        fg: Option<String>,
        bg: Option<String>,
        offset: Option<u16>,
        is_line: Option<bool>,
    ) -> (r: Self)
        ensures
            r.char_idx == char_idx,
            r.text == text,
            r.style == style,
            r.fg == fg,
            r.bg == bg,
            r.offset == match offset {
                Some(o) => o,
                None => 0u16,
            },
            r.is_line == match is_line {
                Some(l) => l,
                None => false,
            },
    {
        let offset = match offset {
            Some(o) => o,
            None => 0,
        };
        let is_line = match is_line {
            Some(l) => l,
            None => false,
        };
        LuaPluginAnnotation { char_idx, text, style, fg, bg, offset, is_line }
    }

    /// The annotation as the host keeps it. A script chooses no virtual row
    /// and gives no text of its own for a dropped annotation.
    pub fn into_annotation(self) -> (r: PluginAnnotation)
        ensures
            r.char_idx == self.char_idx,
            r.text == self.text,
            r.style == self.style,
            r.fg == self.fg,
            r.bg == self.bg,
            r.offset == self.offset,
            r.is_line == self.is_line,
            r.virt_line_idx is None,
            r.dropped_text is None,
    {
        PluginAnnotation {
            char_idx: self.char_idx,
            text: self.text,
            style: self.style,
            fg: self.fg,
            bg: self.bg,
            offset: self.offset,
            is_line: self.is_line,
            virt_line_idx: None,
            dropped_text: None,
        }
    }
}

/// What `get_line` reports for the line number 0.
pub open spec fn one_based_message() -> Seq<char> {
    "Line numbers are 1-based (must be >= 1)"@
}

/// What `get_line` reports for a line number behind the last line.
pub open spec fn out_of_bounds_message(line_num: usize, line_count: usize) -> Seq<char> {
    "Line number "@ + decimal(line_num as nat) + " out of bounds (max "@ + decimal(
        line_count as nat,
    ) + ")"@
}

/// The index of the line that scripts number `line_num`, counting from 1, in
/// a buffer of `line_count` lines.
pub fn line_index(line_num: usize, line_count: usize) -> (r: Result<usize, String>)
    ensures
        1 <= line_num <= line_count ==> r == Ok::<usize, String>((line_num - 1) as usize),
        line_num == 0 ==> (r matches Err(m) && m@ == one_based_message()),
        line_num > line_count ==> (r matches Err(m) && m@ == out_of_bounds_message(
            line_num,
            line_count,
        )),
{
    if line_num == 0 {
        return Err(owned("Line numbers are 1-based (must be >= 1)"));
    }
    let line_idx = line_num - 1;
    if line_idx >= line_count {
        let shown_num = decimal_text(line_num);
        let shown_count = decimal_text(line_count);
        let head = join3("Line number ", shown_num.as_str(), " out of bounds (max ");
        return Err(join3(head.as_str(), shown_count.as_str(), ")"));
    }
    Ok(line_idx)
}

/// The row that a script means by the line number `line`, counting from 1:
/// a number before the first line means the first, a number behind the last
/// means the last.
pub fn clamped_row(line: usize, line_count: usize) -> (row: usize)
    ensures
        line_count == 0 ==> row == 0,
        line_count > 0 && line == 0 ==> row == 0,
        line_count > 0 && 1 <= line <= line_count ==> row == line - 1,
        line_count > 0 && line > line_count ==> row == line_count - 1,
{
    let wanted = if line == 0 {
        0
    } else {
        line - 1
    };
    let last = if line_count == 0 {
        0
    } else {
        line_count - 1
    };
    if wanted < last {
        wanted
    } else {
        last
    }
}

/// The character offset of column `col` in a line that starts at
/// `line_start` and has `line_len` characters: a column behind the end of
/// the line means the end.
pub fn char_offset(line_start: usize, col: usize, line_len: usize) -> (offset: usize)
    requires
        line_start + line_len <= usize::MAX,
    ensures
        offset == line_start + if col < line_len {
            col
        } else {
            line_len
        },
{
    if col < line_len {
        line_start + col
    } else {
        line_start + line_len
    }
}

/// A character of a line, as far as its width on the screen goes.
#[derive(Debug, Clone, Copy, PartialEq, Eq, Structural)]
pub enum Glyph {
    /// A tab, which reaches to the next tab stop.
    Tab,
    /// Another character, `width` columns wide.
    Wide { width: usize },
}

/// The column behind `glyph` where the glyph starts in column `column`.
pub open spec fn column_after(column: int, glyph: Glyph, tab_width: int) -> int {
    match glyph {
        Glyph::Tab => column + (tab_width - column % tab_width),
        Glyph::Wide { width } => column + width,
    }
}

/// The column behind the glyphs `glyphs`, which start in column 0.
pub open spec fn column_of(glyphs: Seq<Glyph>, tab_width: int) -> int
    decreases glyphs.len(),
{
    if glyphs.len() == 0 {
        0
    } else {
        column_after(column_of(glyphs.drop_last(), tab_width), glyphs.last(), tab_width)
    }
}

/// The column never goes back.
pub proof fn lemma_column_grows(glyphs: Seq<Glyph>, tab_width: int)
    requires
        tab_width > 0,
    ensures
        column_of(glyphs, tab_width) >= 0,
    decreases glyphs.len(),
{
    if glyphs.len() > 0 {
        lemma_column_grows(glyphs.drop_last(), tab_width);
        let c = column_of(glyphs.drop_last(), tab_width);
        assert(0 <= c % tab_width < tab_width) by (nonlinear_arith)
            requires
                c >= 0,
                tab_width > 0,
        ;
    }
}

/// The visual column behind the glyphs of a line: a tab reaches to the next
/// multiple of `tab_width`. It is `None` where the column does not fit the
/// machine's integers.
pub fn visual_column(glyphs: &Vec<Glyph>, tab_width: usize) -> (r: Option<usize>)
    requires
        tab_width > 0,
    ensures
        column_of(glyphs@, tab_width as int) <= usize::MAX ==> r == Some(
            column_of(glyphs@, tab_width as int) as usize,
        ),
        column_of(glyphs@, tab_width as int) > usize::MAX ==> r is None,
{
    let mut column: usize = 0;
    let mut i: usize = 0;
    assert(glyphs@.take(0) =~= Seq::<Glyph>::empty());
    while i < glyphs.len()
        invariant
            i <= glyphs@.len(),
            tab_width > 0,
            column == column_of(glyphs@.take(i as int), tab_width as int),
        decreases glyphs@.len() - i,
    {
        let step = match glyphs[i] {
            Glyph::Tab => tab_width - column % tab_width,
            Glyph::Wide { width } => width,
        };
        proof {
            assert(glyphs@.take(i + 1).drop_last() =~= glyphs@.take(i as int));
            assert(glyphs@.take(i + 1).last() == glyphs@[i as int]);
        }
        match column.checked_add(step) {
            Some(next) => {
                column = next;
            },
            None => {
                proof {
                    lemma_column_prefix(glyphs@, tab_width as int, i + 1);
                }
                return None;
            },
        }
        i += 1;
    }
    assert(glyphs@.take(i as int) =~= glyphs@);
    Some(column)
}

/// The column behind a line is at least the column behind any of its
/// beginnings.
pub proof fn lemma_column_prefix(glyphs: Seq<Glyph>, tab_width: int, k: int)
    requires
        tab_width > 0,
        0 <= k <= glyphs.len(),
    ensures
        column_of(glyphs.take(k), tab_width) <= column_of(glyphs, tab_width),
    decreases glyphs.len() - k,
{
    if k == glyphs.len() {
        assert(glyphs.take(k) =~= glyphs);
    } else {
        lemma_column_prefix(glyphs, tab_width, k + 1);
        assert(glyphs.take(k + 1).drop_last() =~= glyphs.take(k));
        lemma_column_grows(glyphs.take(k), tab_width);
        let c = column_of(glyphs.take(k), tab_width);
        assert(0 <= c % tab_width < tab_width) by (nonlinear_arith)
            requires
                c >= 0,
                tab_width > 0,
        ;
    }
}

} // verus!
