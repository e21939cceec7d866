use helix_plugin::annotations::Position;
use helix_plugin::lua::api::buffer::char_offset;
use helix_plugin::lua::api::buffer::clamped_row;
use helix_plugin::lua::api::buffer::line_index;
use helix_plugin::lua::api::buffer::visual_column;
use helix_plugin::lua::api::buffer::Diagnostic;
use helix_plugin::lua::api::buffer::Glyph;
use helix_plugin::lua::api::buffer::LuaBuffer;
use helix_plugin::lua::api::buffer::LuaDiagnostic;
use helix_plugin::lua::api::buffer::LuaPluginAnnotation;
use helix_plugin::lua::api::buffer::LuaPosition;
use helix_plugin::lua::api::buffer::LuaRange;
use helix_plugin::lua::api::buffer::Severity;
use helix_plugin::lua::api::editor::cursor_position;
use helix_plugin::lua::api::editor::move_count;
use helix_plugin::lua::api::editor::open_action;
use helix_plugin::lua::api::editor::register_name;
use helix_plugin::lua::api::editor::LineNumber;
use helix_plugin::lua::api::editor::Mode;
use helix_plugin::lua::api::editor::OpenAction;
use helix_plugin::types::DocumentId;

#[test]
fn test_lua_buffer_creation() {
    let buffer = LuaBuffer::new(DocumentId::default());
    assert_eq!(
        format!("{:?}", buffer.document_id),
        format!("{:?}", DocumentId::default())
    );
}

#[test]
fn test_lua_position() {
    let pos = LuaPosition { row: 10, col: 5 };
    assert_eq!(pos.row, 10);
    assert_eq!(pos.col, 5);

    let helix_pos: Position = pos.into();
    assert_eq!(helix_pos.row, 10);
    assert_eq!(helix_pos.col, 5);
}

#[test]
fn position_converts_both_ways() {
    let pos: LuaPosition = Position { row: 3, col: 9 }.into();
    assert_eq!(pos.row, 3);
    assert_eq!(pos.col, 9);
    assert_eq!(pos.to_text(), "Position(3:9)");
    assert_eq!(LuaRange { start: 0, end: 120 }.to_text(), "Range(0-120)");
}

#[test]
fn diagnostics_name_their_severity() {
    let shown = LuaDiagnostic::from_diagnostic(Diagnostic {
        range_start: 4,
        range_end: 9,
        line: 2,
        message: "unused variable".to_string(),
        severity: Some(Severity::Warning),
    });
    assert_eq!(shown.range.start, 4);
    assert_eq!(shown.range.end, 9);
    assert_eq!(shown.line, 2);
    assert_eq!(shown.message, "unused variable");
    assert_eq!(shown.severity, Some("warning".to_string()));
    assert_eq!(Severity::Hint.as_str(), "hint");
    assert_eq!(Severity::Info.as_str(), "info");
    assert_eq!(Severity::Error.as_str(), "error");

    let plain = LuaDiagnostic::from_diagnostic(Diagnostic {
        range_start: 0,
        range_end: 0,
        line: 0,
        message: String::new(),
        severity: None,
    });
    assert_eq!(plain.severity, None);
}

#[test]
fn annotation_fields_have_defaults() {
    let a = LuaPluginAnnotation::from_fields(7, "note".to_string(), None, None, None, None, None);
    assert_eq!(a.char_idx, 7);
    assert_eq!(a.text, "note");
    assert_eq!(a.offset, 0);
    assert!(!a.is_line);
    let b = LuaPluginAnnotation::from_fields(
        7,
        "note".to_string(),
        Some("comment".to_string()),
        Some("#ff0000".to_string()),
        Some("#000000".to_string()),
        Some(4),
        Some(true),
    );
    let kept = b.into_annotation();
    assert_eq!(kept.char_idx, 7);
    assert_eq!(kept.style, Some("comment".to_string()));
    assert_eq!(kept.fg, Some("#ff0000".to_string()));
    assert_eq!(kept.bg, Some("#000000".to_string()));
    assert_eq!(kept.offset, 4);
    assert!(kept.is_line);
    assert_eq!(kept.virt_line_idx, None);
    assert_eq!(kept.dropped_text, None);
}

#[test]
fn line_numbers_count_from_one() {
    assert_eq!(line_index(1, 3), Ok(0));
    assert_eq!(line_index(3, 3), Ok(2));
    assert_eq!(line_index(0, 3), Err("Line numbers are 1-based (must be >= 1)".to_string()));
    assert_eq!(line_index(4, 3), Err("Line number 4 out of bounds (max 3)".to_string()));
    assert_eq!(line_index(1, 0), Err("Line number 1 out of bounds (max 0)".to_string()));
}

#[test]
fn rows_and_columns_are_clamped() {
    assert_eq!(clamped_row(0, 5), 0);
    assert_eq!(clamped_row(1, 5), 0);
    assert_eq!(clamped_row(5, 5), 4);
    assert_eq!(clamped_row(9, 5), 4);
    assert_eq!(clamped_row(3, 0), 0);
    assert_eq!(char_offset(100, 3, 10), 103);
    assert_eq!(char_offset(100, 10, 10), 110);
    assert_eq!(char_offset(100, 50, 10), 110);
    assert_eq!(helix_plugin::lua::api::editor::clamped_row(0, 5), 0);
    assert_eq!(helix_plugin::lua::api::editor::clamped_row(4, 5), 4);
    assert_eq!(helix_plugin::lua::api::editor::clamped_row(5, 5), 4);
    assert_eq!(helix_plugin::lua::api::editor::clamped_row(5, 0), 0);
}

#[test]
fn tabs_reach_to_the_next_stop() {
    let wide = |width| Glyph::Wide { width };
    assert_eq!(visual_column(&vec![], 4), Some(0));
    assert_eq!(visual_column(&vec![wide(1), wide(1)], 4), Some(2));
    assert_eq!(visual_column(&vec![Glyph::Tab], 4), Some(4));
    assert_eq!(visual_column(&vec![wide(1), Glyph::Tab], 4), Some(4));
    assert_eq!(visual_column(&vec![wide(1), Glyph::Tab, wide(2), Glyph::Tab], 4), Some(8));
    assert_eq!(visual_column(&vec![wide(2), wide(2), Glyph::Tab, wide(1)], 4), Some(9));
    assert_eq!(visual_column(&vec![wide(usize::MAX), wide(1)], 4), None);
}

#[test]
fn editor_names_are_stable() {
    assert_eq!(Mode::Normal.as_str(), "normal");
    assert_eq!(Mode::Insert.as_str(), "insert");
    assert_eq!(Mode::Select.as_str(), "select");
    assert_eq!(LineNumber::Absolute.as_str(), "absolute");
    assert_eq!(LineNumber::Relative.as_str(), "relative");
    assert_eq!(open_action(Some("split")), OpenAction::HorizontalSplit);
    assert_eq!(open_action(Some("vsplit")), OpenAction::VerticalSplit);
    assert_eq!(open_action(Some("replace")), OpenAction::Replace);
    assert_eq!(open_action(Some("tab")), OpenAction::Load);
    assert_eq!(open_action(None), OpenAction::Load);
}

#[test]
fn cursor_arithmetic() {
    let pos = cursor_position(25, 2, 20);
    assert_eq!(pos.row, 2);
    assert_eq!(pos.col, 5);
    assert_eq!(register_name("a"), Ok('a'));
    assert_eq!(register_name("yank"), Ok('y'));
    assert_eq!(register_name(""), Err("Register name must be a single character".to_string()));
    assert_eq!(move_count(None), 1);
    assert_eq!(move_count(Some(3)), 3);
}
