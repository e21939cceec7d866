//! The names under which scripts know the editor's modes and ways of opening
//! a file, and the arithmetic of the cursor functions.

use vstd::prelude::*;
use crate::lua::api::buffer::LuaPosition;
use crate::text::owned;
use crate::text::same_text;

verus! {

/// The editor's mode.
#[derive(Debug, Clone, Copy, PartialEq, Eq, Structural)]
pub enum Mode {
    Normal,
    Insert,
    Select,
}

impl Mode {
    /// The name of the mode.
    pub open spec fn name(self) -> Seq<char> {
        match self {
            Mode::Normal => "normal"@,
            Mode::Insert => "insert"@,
            Mode::Select => "select"@,
        }
    }

    /// The name under which scripts know the mode.
    pub fn as_str(&self) -> (r: &'static str)
        ensures
            r@ == self.name(),
    {
        match self {
            Mode::Normal => "normal",
            Mode::Insert => "insert",
            Mode::Select => "select",
        }
    }
}

/// How a file is opened.
#[derive(Debug, Clone, Copy, PartialEq, Eq, Structural)]
pub enum OpenAction {
    Load,
    HorizontalSplit,
    VerticalSplit,
    Replace,
}

/// The way of opening that a script names.
pub open spec fn action_named(name: Option<Seq<char>>) -> OpenAction {
    match name {
        Some(n) => if n == "split"@ {
            OpenAction::HorizontalSplit
        } else if n == "vsplit"@ {
            OpenAction::VerticalSplit
        } else if n == "replace"@ {
            OpenAction::Replace
        } else {
            OpenAction::Load
        },
        None => OpenAction::Load,
    }
}

/// The way of opening a file that a script asks for: `split`, `vsplit` or
/// `replace`; anything else, and nothing, loads the file.
pub fn open_action(name: Option<&str>) -> (r: OpenAction)
    ensures
        r == action_named(
            match name {
                Some(n) => Some(n@),
                None => None,
            },
        ),
{
    match name {
        Some(n) => if same_text(n, "split") {
            OpenAction::HorizontalSplit
        } else if same_text(n, "vsplit") {
            OpenAction::VerticalSplit
        } else if same_text(n, "replace") {
            OpenAction::Replace
        } else {
            OpenAction::Load
        },
        None => OpenAction::Load,
    }
}

/// How line numbers are shown.
#[derive(Debug, Clone, Copy, PartialEq, Eq, Structural)]
pub enum LineNumber {
    Absolute,
    Relative,
}

impl LineNumber {
    /// The name under which scripts know the setting.
    pub fn as_str(&self) -> (r: &'static str)
        ensures
            r@ == match *self {
                LineNumber::Absolute => "absolute"@,
                LineNumber::Relative => "relative"@,
            },
    {
        match self {
            LineNumber::Absolute => "absolute",
            LineNumber::Relative => "relative",
        }
    }
}

/// The position of the cursor at character `cursor` in the line `row`, which
/// starts at character `line_start`.
pub fn cursor_position(cursor: usize, row: usize, line_start: usize) -> (r: LuaPosition)
    requires
        line_start <= cursor,
    ensures
        r.row == row,
        r.col == cursor - line_start,
{
    LuaPosition { row, col: cursor - line_start }
}

/// The row that a script means by `row`, counting from 0: a row behind the
/// last line means the last line.
pub fn clamped_row(row: usize, line_count: usize) -> (r: usize)
    ensures
        line_count == 0 ==> r == 0,
        line_count > 0 && row < line_count ==> r == row,
        line_count > 0 && row >= line_count ==> r == line_count - 1,
{
    let last = if line_count == 0 {
        0
    } else {
        line_count - 1
    };
    if row < last {
        row
    } else {
        last
    }
}

/// The register that a script names: the first character of the name. The
/// empty name names no register.
pub fn register_name(name: &str) -> (r: Result<char, String>)
    ensures
        name@.len() > 0 ==> r == Ok::<char, String>(name@[0]),
        name@.len() == 0 ==> (r matches Err(m) && m@ == "Register name must be a single character"@),
{
    if name.unicode_len() > 0 {
        Ok(name.get_char(0))
    } else {
        Err(owned("Register name must be a single character"))
    }
}

/// How many times the cursor is moved where the script gives no count.
pub fn move_count(count: Option<usize>) -> (r: usize)
    ensures
        r == match count {
            Some(c) => c,
            None => 1usize,
        },
{
    match count {
        Some(c) => c,
        None => 1,
    }
}

} // verus!
