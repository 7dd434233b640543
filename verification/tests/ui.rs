use todo_rs::ui::{DrawCommand, Ui, HIGHLIGHT_PAIR, REGULAR_PAIR};

#[test]
fn the_colour_pairs_are_zero_and_one() {
    assert_eq!(REGULAR_PAIR, 0);
    assert_eq!(HIGHLIGHT_PAIR, 1);
}

#[test]
fn a_new_layer_starts_at_the_top_left() {
    let ui = Ui::new();
    assert_eq!(ui.row(), 0);
    assert_eq!(ui.col(), 0);
    assert_eq!(ui.list_current(), None);
}

#[test]
fn begin_puts_the_cursor_at_the_origin() {
    let mut ui = Ui::new();
    ui.begin(3, 5);
    assert_eq!(ui.row(), 3);
    assert_eq!(ui.col(), 5);
    assert_eq!(ui.list_current(), None);
}

#[test]
fn label_draws_at_the_cursor_and_moves_one_row_down() {
    let mut ui = Ui::new();
    ui.begin(2, 4);
    let first = ui.label("hello", REGULAR_PAIR);
    assert_eq!(first, DrawCommand { row: 2, col: 4, text: "hello".to_string(), pair: 0 });
    assert_eq!(ui.row(), 3);
    assert_eq!(ui.col(), 4);
    let second = ui.label("world", 7);
    assert_eq!(second, DrawCommand { row: 3, col: 4, text: "world".to_string(), pair: 7 });
    assert_eq!(ui.row(), 4);
}

#[test]
fn list_element_highlights_the_selected_index_only() {
    let mut ui = Ui::new();
    ui.begin(0, 0);
    ui.begin_list(1);
    assert_eq!(ui.list_current(), Some(1));
    let a = ui.list_element("a", 0);
    let b = ui.list_element("b", 1);
    let c = ui.list_element("c", 2);
    ui.end_list();
    assert_eq!(a, DrawCommand { row: 0, col: 0, text: "a".to_string(), pair: REGULAR_PAIR });
    assert_eq!(b, DrawCommand { row: 1, col: 0, text: "b".to_string(), pair: HIGHLIGHT_PAIR });
    assert_eq!(c, DrawCommand { row: 2, col: 0, text: "c".to_string(), pair: REGULAR_PAIR });
    assert_eq!(ui.row(), 3);
}

#[test]
fn end_list_lets_another_list_open() {
    let mut ui = Ui::new();
    ui.begin(0, 0);
    ui.begin_list(0);
    ui.end_list();
    assert_eq!(ui.list_current(), None);
    ui.begin_list(4);
    assert_eq!(ui.list_current(), Some(4));
    ui.end_list();
    assert_eq!(ui.list_current(), None);
}

#[test]
fn end_list_without_an_open_list_does_nothing() {
    let mut ui = Ui::new();
    ui.begin(1, 1);
    ui.end_list();
    assert_eq!(ui.list_current(), None);
    assert_eq!(ui.row(), 1);
    assert_eq!(ui.col(), 1);
}

#[test]
fn begin_keeps_an_open_list() {
    let mut ui = Ui::new();
    ui.begin_list(2);
    ui.begin(5, 6);
    assert_eq!(ui.list_current(), Some(2));
    assert_eq!(ui.row(), 5);
}

#[test]
fn end_changes_nothing() {
    let mut ui = Ui::new();
    ui.begin(2, 3);
    ui.label("x", REGULAR_PAIR);
    ui.end();
    assert_eq!(ui.row(), 3);
    assert_eq!(ui.col(), 3);
    assert_eq!(ui.list_current(), None);
}
