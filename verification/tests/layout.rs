use helix_plugin::annotations::PluginAnnotation;
use helix_plugin::annotations::PluginLineAnnotations;
use helix_plugin::annotations::Position;
use helix_plugin::annotations::WrapFormat;
use helix_plugin::layout::assign_rows;
use helix_plugin::layout::measure_line;
use helix_plugin::layout::reserve_rows;
use helix_plugin::layout::rows_to_reserve;
use helix_plugin::layout::should_drop;
use helix_plugin::layout::Frame;
use helix_plugin::layout::Measured;
use std::cell::RefCell;

fn inline(char_idx: usize, text: &str, offset: u16) -> PluginAnnotation {
    PluginAnnotation {
        char_idx,
        text: text.to_string(),
        style: None,
        fg: None,
        bg: None,
        offset,
        is_line: false,
        virt_line_idx: None,
        dropped_text: None,
    }
}

fn line(char_idx: usize, text: &str, offset: u16, row: Option<u16>) -> PluginAnnotation {
    PluginAnnotation {
        char_idx,
        text: text.to_string(),
        style: None,
        fg: None,
        bg: None,
        offset,
        is_line: true,
        virt_line_idx: row,
        dropped_text: None,
    }
}

fn frame(line_end_col: u16, width: u16) -> Frame {
    Frame { line_start: 100, line_end: 200, line_end_col, width, tab_width: 4 }
}

/// Wraps at the viewport width, character by character.
fn wrap(text: &str, format: WrapFormat) -> Measured {
    let chars = text.chars().count();
    let width = format.viewport_width as usize;
    if chars == 0 {
        return Measured { height: 1, last_line_width: 0 };
    }
    let height = (chars + width - 1) / width;
    let last = chars - (height - 1) * width;
    Measured { height, last_line_width: last as u16 }
}

#[test]
fn annotations_of_other_lines_take_no_rows() {
    let annots = vec![inline(10, "before", 2), line(250, "after", 0, None)];
    let rows = reserve_rows(&annots, &frame(10, 80), &|i, format| wrap(&annots[i].text, format));
    assert_eq!(rows, 0);
    assert_eq!(reserve_rows(&vec![], &frame(10, 80), &|_, _| Measured { height: 9, last_line_width: 9 }), 0);
}

#[test]
fn short_inline_annotation_stays_behind_the_line() {
    let annots = vec![inline(150, "note", 2)];
    let f = frame(10, 80);
    assert!(!should_drop(&annots, &f));
    let asked = RefCell::new(Vec::new());
    let rows = reserve_rows(&annots, &f, &|i, format| {
        asked.borrow_mut().push((i, format.viewport_width, format.max_wrap, format.tab_width));
        wrap(&annots[i].text, format)
    });
    assert_eq!(rows, 0);
    assert_eq!(asked.into_inner(), vec![(0, 68, 20, 4)]);
}

#[test]
fn inline_annotations_follow_each_other() {
    let annots = vec![inline(150, "first", 2), inline(160, "second one", 0)];
    let f = frame(10, 120);
    let asked = RefCell::new(Vec::new());
    let rows = reserve_rows(&annots, &f, &|i, format| {
        asked.borrow_mut().push((i, format.viewport_width, format.max_wrap));
        wrap(&annots[i].text, format)
    });
    assert_eq!(rows, 0);
    assert_eq!(asked.into_inner(), vec![(0, 108, 27), (1, 103, 25)]);
}

#[test]
fn inline_annotations_drop_where_little_room_is_left() {
    let annots = vec![inline(150, "note", 0)];
    let f = frame(50, 80);
    assert!(should_drop(&annots, &f));
    let asked = RefCell::new(Vec::new());
    let rows = reserve_rows(&annots, &f, &|i, format| {
        asked.borrow_mut().push((i, format.viewport_width));
        wrap(&annots[i].text, format)
    });
    assert_eq!(rows, 1);
    assert_eq!(asked.into_inner(), vec![(0, 80)]);

    assert!(!should_drop(&annots, &frame(40, 80)));
    assert!(should_drop(&annots, &frame(41, 80)));
}

#[test]
fn inline_annotations_drop_where_they_do_not_fit() {
    let long = "x".repeat(40);
    let annots = vec![inline(150, &long, 0), inline(151, "tail", 0)];
    assert!(!should_drop(&annots, &frame(10, 65)));
    assert!(should_drop(&annots, &frame(10, 64)));
    let wide = "x".repeat(100);
    let annots = vec![inline(150, &wide, 0)];
    let rows = reserve_rows(&annots, &frame(10, 60), &|i, format| wrap(&annots[i].text, format));
    assert_eq!(rows, 2);
}

#[test]
fn wrapped_inline_annotation_needs_rows_below() {
    let annots = vec![inline(150, "abc", 0)];
    let rows = reserve_rows(&annots, &frame(10, 80), &|_, _| Measured { height: 3, last_line_width: 5 });
    assert_eq!(rows, 2);
    let dropped = reserve_rows(&annots, &frame(60, 80), &|_, _| Measured { height: 3, last_line_width: 5 });
    assert_eq!(dropped, 3);
}

#[test]
fn virtual_rows_are_assigned_in_order() {
    let annots = vec![
        line(150, "auto a", 0, None),
        line(150, "third", 0, Some(3)),
        inline(150, "inline", 0),
        line(150, "auto b", 0, None),
        line(150, "first", 0, Some(1)),
        line(300, "elsewhere", 0, Some(9)),
    ];
    assert_eq!(
        assign_rows(&annots, &frame(10, 80)),
        vec![Some(4), Some(3), None, Some(5), Some(1), None]
    );
    let plain = vec![line(150, "a", 0, None), line(150, "b", 0, None)];
    assert_eq!(assign_rows(&plain, &frame(10, 80)), vec![Some(0), Some(1)]);
}

#[test]
fn virtual_rows_stack_below_each_other() {
    let annots = vec![
        line(150, "row zero", 0, Some(0)),
        line(150, "also row zero, and taller", 0, Some(0)),
        line(150, "row two", 0, Some(2)),
        line(150, "auto", 4, None),
    ];
    let heights = vec![
        Measured { height: 1, last_line_width: 8 },
        Measured { height: 3, last_line_width: 2 },
        Measured { height: 2, last_line_width: 2 },
        Measured { height: 1, last_line_width: 4 },
    ];
    assert_eq!(rows_to_reserve(&annots, &frame(10, 80), &heights), 6);
    let rows = reserve_rows(&annots, &frame(10, 80), &|i, _| heights[i]);
    assert_eq!(rows, 6);
}

#[test]
fn inline_and_virtual_rows_add_up() {
    let annots = vec![inline(150, "abc", 0), line(150, "below", 0, None)];
    let rows = reserve_rows(&annots, &frame(10, 80), &|i, _| {
        if i == 0 {
            Measured { height: 2, last_line_width: 1 }
        } else {
            Measured { height: 4, last_line_width: 1 }
        }
    });
    assert_eq!(rows, 5);
}

#[test]
fn annotation_without_room_is_not_measured() {
    let annots = vec![line(150, "hidden", 80, None), line(150, "shown", 79, None)];
    let asked = RefCell::new(Vec::new());
    let heights = measure_line(&annots, &frame(10, 80), &|i, format| {
        asked.borrow_mut().push((i, format.viewport_width));
        Measured { height: 2, last_line_width: 1 }
    });
    assert_eq!(asked.into_inner(), vec![(1, 1)]);
    assert_eq!(heights[0], Measured { height: 0, last_line_width: 0 });
    assert_eq!(heights[1], Measured { height: 2, last_line_width: 1 });
    assert_eq!(rows_to_reserve(&annots, &frame(10, 80), &heights), 2);
}

#[test]
fn rows_saturate() {
    let annots = vec![line(150, "a", 0, Some(0)), line(150, "b", 0, Some(1))];
    let rows = reserve_rows(&annots, &frame(10, 80), &|_, _| Measured { height: 40000, last_line_width: 1 });
    assert_eq!(rows, u16::MAX);
    let tall = reserve_rows(&annots, &frame(10, 80), &|_, _| Measured { height: usize::MAX, last_line_width: 1 });
    assert_eq!(tall, u16::MAX);
}

#[test]
fn line_annotations_reserve_their_rows() {
    let annots = vec![inline(150, "abc", 0), line(150, "below", 0, None)];
    let mut lines = PluginLineAnnotations::new(&annots, 80);
    let reserved = lines.insert_virtual_lines(
        100,
        200,
        Position { row: 7, col: 10 },
        4,
        &|i, format| wrap(&annots[i].text, format),
    );
    assert_eq!(reserved, Position { row: 1, col: 0 });
    let none = lines.insert_virtual_lines(0, 50, Position { row: 0, col: 10 }, 4, &|_, _| Measured {
        height: 5,
        last_line_width: 0,
    });
    assert_eq!(none, Position { row: 0, col: 0 });
}
