use helix_plugin::annotations::PluginAnnotation;
use helix_plugin::annotations::PluginDecoration;
use helix_plugin::annotations::Position;
use helix_plugin::render::render_line;
use helix_plugin::render::Canvas;
use helix_plugin::render::DrawItem;
use helix_plugin::render::LinePos;
use std::cell::RefCell;

fn inline(text: &str, offset: u16) -> PluginAnnotation {
    PluginAnnotation {
        char_idx: 150,
        text: text.to_string(),
        style: None,
        fg: None,
        bg: None,
        offset,
        is_line: false,
        virt_line_idx: None,
        dropped_text: None,
    }
}

fn line(text: &str, offset: u16, row: Option<u16>) -> PluginAnnotation {
    PluginAnnotation {
        char_idx: 150,
        text: text.to_string(),
        style: None,
        fg: None,
        bg: None,
        offset,
        is_line: true,
        virt_line_idx: row,
        dropped_text: None,
    }
}

fn canvas(width: u16, scroll_col: usize) -> Canvas {
    Canvas { width, scroll_col, tab_width: 4 }
}

fn last_line(visual_line: u16) -> LinePos {
    LinePos { doc_line: 3, visual_line, is_last_visual_line: true }
}

/// Draws through a host that returns `last_rows[index]` for each item and
/// records the items.
fn render(
    annots: &Vec<PluginAnnotation>,
    canvas: Canvas,
    pos: LinePos,
    virt_off: Position,
    last_rows: &[usize],
) -> (Position, Vec<DrawItem>) {
    let drawn = RefCell::new(Vec::new());
    let result = render_line(annots, &canvas, 100, 200, pos, virt_off, &|item: DrawItem| {
        drawn.borrow_mut().push(item);
        last_rows[item.index]
    });
    (result, drawn.into_inner())
}

#[test]
fn nothing_is_drawn_before_the_last_visual_line() {
    let annots = vec![inline("note", 2), line("below", 0, None)];
    let pos = LinePos { doc_line: 3, visual_line: 5, is_last_visual_line: false };
    let (result, drawn) = render(&annots, canvas(80, 0), pos, Position { row: 1, col: 10 }, &[0, 0]);
    assert_eq!(result, Position { row: 0, col: 0 });
    assert!(drawn.is_empty());
}

#[test]
fn inline_annotation_is_drawn_behind_the_line() {
    let annots = vec![inline("note", 2)];
    let (result, drawn) =
        render(&annots, canvas(80, 0), last_line(5), Position { row: 1, col: 10 }, &[0]);
    assert_eq!(result, Position { row: 0, col: 8 });
    assert_eq!(drawn.len(), 1);
    let item = drawn[0];
    assert_eq!(item.index, 0);
    assert!(!item.dropped);
    assert_eq!(item.col, 12);
    assert_eq!(item.first_row, 5);
    assert_eq!(item.next_row, 6);
    assert_eq!(item.format.viewport_width, 68);
    assert_eq!(item.format.max_wrap, 20);
    assert_eq!(item.format.tab_width, 4);
}

#[test]
fn wrapped_inline_annotation_takes_rows_below() {
    let annots = vec![inline("note", 0), inline("x", 30)];
    let (result, drawn) =
        render(&annots, canvas(120, 0), last_line(5), Position { row: 0, col: 10 }, &[2, 0]);
    assert_eq!(result, Position { row: 2, col: 33 });
    assert_eq!(drawn.len(), 2);
    assert_eq!(drawn[0].col, 10);
    assert_eq!(drawn[1].col, 40);
    assert_eq!(drawn[1].format.viewport_width, 80);
}

#[test]
fn dropped_inline_annotation_is_drawn_below_the_line() {
    let annots = vec![inline("note", 3)];
    let (result, drawn) =
        render(&annots, canvas(80, 0), last_line(5), Position { row: 1, col: 50 }, &[0]);
    assert_eq!(result, Position { row: 1, col: 0 });
    let item = drawn[0];
    assert!(item.dropped);
    assert_eq!(item.col, 3);
    assert_eq!(item.first_row, 6);
    assert_eq!(item.next_row, 7);
    assert_eq!(item.format.viewport_width, 77);
}

#[test]
fn inline_annotation_out_of_sight_is_skipped() {
    let annots = vec![inline("note", 2), line("below", 25, None), line("left", 10, None)];
    let (result, drawn) =
        render(&annots, canvas(80, 20), last_line(5), Position { row: 0, col: 10 }, &[4, 0, 0]);
    assert_eq!(result, Position { row: 2, col: 0 });
    assert_eq!(drawn.len(), 2);
    assert_eq!(drawn[0].index, 1);
    assert_eq!(drawn[0].col, 5);
    assert_eq!(drawn[0].format.viewport_width, 55);
    assert_eq!(drawn[1].index, 2);
    assert_eq!(drawn[1].col, 0);
    assert_eq!(drawn[1].first_row, 6);
}

#[test]
fn virtual_rows_are_drawn_one_below_the_other() {
    let annots = vec![
        line("c", 0, None),
        line("b", 4, Some(0)),
        inline("wrapped", 0),
        line("a", 0, Some(0)),
    ];
    let (result, drawn) =
        render(&annots, canvas(200, 0), last_line(5), Position { row: 1, col: 10 }, &[1, 2, 1, 0]);
    assert_eq!(result, Position { row: 6, col: 9 });
    let order: Vec<usize> = drawn.iter().map(|item| item.index).collect();
    assert_eq!(order, vec![2, 1, 3, 0]);
    assert_eq!(drawn[0].first_row, 5);
    assert_eq!(drawn[0].next_row, 6);
    assert_eq!((drawn[1].first_row, drawn[1].next_row, drawn[1].col), (7, 8, 4));
    assert_eq!(drawn[1].format.viewport_width, 196);
    assert_eq!(drawn[1].format.max_wrap, 49);
    assert_eq!((drawn[2].first_row, drawn[2].col), (7, 0));
    assert_eq!((drawn[3].first_row, drawn[3].next_row), (10, 11));
}

#[test]
fn annotation_behind_the_viewport_is_not_drawn() {
    let annots = vec![line("hidden", 80, Some(0)), line("shown", 0, Some(1))];
    let (result, drawn) =
        render(&annots, canvas(80, 0), last_line(5), Position { row: 0, col: 10 }, &[7, 0]);
    assert_eq!(result, Position { row: 1, col: 0 });
    assert_eq!(drawn.len(), 1);
    assert_eq!(drawn[0].index, 1);
    assert_eq!(drawn[0].first_row, 5);
}

#[test]
fn decoration_draws_its_annotations() {
    let annots = vec![inline("note", 2), line("below", 0, None)];
    let mut decoration = PluginDecoration::new(&annots);
    let drawn = RefCell::new(Vec::new());
    let result = decoration.render_virt_lines(
        &canvas(80, 0),
        100,
        200,
        last_line(5),
        Position { row: 0, col: 10 },
        &|item: DrawItem| {
            drawn.borrow_mut().push(item.index);
            0
        },
    );
    assert_eq!(result, Position { row: 1, col: 8 });
    assert_eq!(drawn.into_inner(), vec![0, 1]);
    let none = decoration.render_virt_lines(
        &canvas(80, 0),
        0,
        50,
        last_line(5),
        Position { row: 0, col: 10 },
        &|_| 9,
    );
    assert_eq!(none, Position { row: 0, col: 0 });
}

#[test]
fn drawn_rows_are_the_reserved_rows() {
    let annots = vec![
        line("a", 0, Some(2)),
        line("b", 4, Some(2)),
        line("c", 0, None),
        line("d", 300, Some(0)),
    ];
    let last_rows = [1usize, 3, 0, 5];
    let (drawn, _) =
        render(&annots, canvas(120, 0), last_line(5), Position { row: 0, col: 10 }, &last_rows);
    let frame = helix_plugin::layout::Frame {
        line_start: 100,
        line_end: 200,
        line_end_col: 10,
        width: 120,
        tab_width: 4,
    };
    let reserved = helix_plugin::layout::reserve_rows(&annots, &frame, &|i, _| {
        helix_plugin::layout::Measured { height: last_rows[i] + 1, last_line_width: 0 }
    });
    assert_eq!(drawn.row, reserved as usize);
    assert_eq!(reserved, 5);
}
