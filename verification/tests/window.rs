use gitko::render::line::Line;
use gitko::render::window::{RenderError, ScreenSize, Window};
use gitko::render::Point;

fn terminal() -> ScreenSize {
    ScreenSize { lines: 24, cols: 80 }
}

fn window(height: i32, texts: &[&str]) -> Window {
    let mut window =
        Window::new(ScreenSize { lines: height, cols: 80 }, Point { x: 0, y: 0 }, terminal())
            .unwrap();
    window.set_lines(texts.iter().map(|text| Line::plain(text)).collect());
    window
}

#[test]
fn new_window_is_empty() {
    let window = Window::new(ScreenSize { lines: 3, cols: 10 }, Point { x: 2, y: 1 }, terminal())
        .unwrap();
    assert_eq!(window.len(), 0);
    assert_eq!(window.cursor(), 0);
    assert_eq!(window.top(), 0);
    assert_eq!(window.height(), 3);
    assert_eq!(window.width(), 10);
    assert_eq!(window.position(), Point { x: 2, y: 1 });
    assert!(window.is_cursor_visible());
    assert_eq!(window.get_cursor_line(), "");
}

#[test]
fn zero_size_reaches_to_the_end_of_the_terminal() {
    let size = ScreenSize::max();
    assert_eq!(size, ScreenSize { lines: 0, cols: 0 });
    assert_eq!(size.fit(Point { x: 0, y: 0 }, terminal()), Ok(terminal()));
    assert_eq!(
        size.fit(Point { x: 5, y: 4 }, terminal()),
        Ok(ScreenSize { lines: 20, cols: 75 })
    );
    assert_eq!(
        ScreenSize { lines: 1, cols: 0 }.fit(Point { x: 0, y: 23 }, terminal()),
        Ok(ScreenSize { lines: 1, cols: 80 })
    );
    assert_eq!(
        ScreenSize { lines: 2, cols: 0 }.fit(Point { x: 0, y: 23 }, terminal()),
        Ok(ScreenSize { lines: 2, cols: 80 })
    );
}

#[test]
fn negative_geometry_is_refused() {
    let size = ScreenSize { lines: 2, cols: 2 };
    assert_eq!(
        ScreenSize { lines: -1, cols: 2 }.fit(Point { x: 0, y: 0 }, terminal()),
        Err(RenderError::Negative)
    );
    assert_eq!(
        ScreenSize { lines: 2, cols: -1 }.fit(Point { x: 0, y: 0 }, terminal()),
        Err(RenderError::Negative)
    );
    assert_eq!(size.fit(Point { x: -1, y: 0 }, terminal()), Err(RenderError::Negative));
    assert_eq!(size.fit(Point { x: 0, y: -2 }, terminal()), Err(RenderError::Negative));
    assert!(matches!(
        Window::new(size, Point { x: 0, y: -2 }, terminal()),
        Err(RenderError::Negative)
    ));
}

#[test]
fn empty_window_is_refused() {
    assert_eq!(
        ScreenSize::max().fit(Point { x: 0, y: 24 }, terminal()),
        Err(RenderError::Empty)
    );
    assert_eq!(
        ScreenSize::max().fit(Point { x: 81, y: 0 }, terminal()),
        Err(RenderError::Empty)
    );
    assert_eq!(
        ScreenSize::max().fit(Point { x: 0, y: 0 }, ScreenSize { lines: 0, cols: 0 }),
        Err(RenderError::Empty)
    );
}

#[test]
fn window_past_the_last_cell_is_refused() {
    assert_eq!(
        ScreenSize { lines: 2, cols: 2 }.fit(Point { x: 0, y: i32::MAX }, terminal()),
        Err(RenderError::OutOfRange)
    );
    assert_eq!(
        ScreenSize { lines: 2, cols: i32::MAX }.fit(Point { x: 1, y: 0 }, terminal()),
        Err(RenderError::OutOfRange)
    );
    assert_eq!(
        ScreenSize { lines: 1, cols: 1 }.fit(Point { x: 0, y: i32::MAX - 1 }, terminal()),
        Ok(ScreenSize { lines: 1, cols: 1 })
    );
}

#[test]
fn set_lines_leaves_the_cursor_on_a_row() {
    let mut window = window(2, &["a", "b", "c", "d"]);
    assert_eq!(window.cursor(), 0);
    window.move_next("d");
    assert_eq!(window.cursor(), 3);
    assert_eq!(window.top(), 2);
    window.set_lines(vec![Line::plain("x"), Line::plain("y")]);
    assert_eq!(window.len(), 2);
    assert_eq!(window.cursor(), 1);
    assert_eq!(window.top(), 0);
    assert_eq!(window.get_cursor_line(), "y");
    window.set_lines(vec![]);
    assert_eq!(window.cursor(), 0);
    assert_eq!(window.top(), 0);
    assert_eq!(window.get_cursor_line(), "");
}

#[test]
fn set_lines_keeps_a_cursor_that_still_fits() {
    let mut window = window(2, &["a", "b", "c"]);
    window.move_next("b");
    window.set_lines(vec![Line::plain("p"), Line::plain("q"), Line::plain("r"), Line::plain("s")]);
    assert_eq!(window.cursor(), 1);
    assert_eq!(window.get_cursor_line(), "q");
}

#[test]
fn scrolling_down_stops_where_the_viewport_is_still_filled() {
    let mut window = window(2, &["a", "b", "c"]);
    window.move_screen_down(1);
    assert_eq!(window.top(), 1);
    window.move_screen_down(5);
    assert_eq!(window.top(), 1);
    assert_eq!(window.cursor(), 0);
}

#[test]
fn scrolling_up_stops_at_the_first_row() {
    let mut window = window(2, &["a", "b", "c", "d", "e"]);
    window.move_screen_down(3);
    assert_eq!(window.top(), 3);
    window.move_screen_up(1);
    assert_eq!(window.top(), 2);
    window.move_screen_up(7);
    assert_eq!(window.top(), 0);
    window.move_screen_up(usize::MAX);
    assert_eq!(window.top(), 0);
}

#[test]
fn scrolling_never_leaves_the_range() {
    for len in 0..6usize {
        let texts: Vec<String> = (0..len).map(|i| format!("row {}", i)).collect();
        let refs: Vec<&str> = texts.iter().map(|t| t.as_str()).collect();
        let mut window = window(3, &refs);
        let most = if len > 3 { len - 3 } else { 0 };
        for step in [1usize, 4, 0, 2, usize::MAX, 1, 3] {
            window.move_screen_down(step);
            assert!(window.top() <= most);
            window.move_screen_up(step / 2);
            assert!(window.top() <= most);
            window.move_screen_down(step);
            assert!(window.top() <= most);
        }
    }
}

#[test]
fn content_shorter_than_the_viewport_does_not_scroll() {
    let mut window = window(5, &["a", "b"]);
    window.move_screen_down(1);
    assert_eq!(window.top(), 0);
}

#[test]
fn search_goes_to_the_next_match_and_wraps() {
    let mut window = window(5, &[" M file1", "?? file2", " M file3"]);
    window.move_next("M");
    assert_eq!(window.cursor(), 2);
    assert_eq!(window.get_cursor_line(), " M file3");
    window.move_next("M");
    assert_eq!(window.cursor(), 0);
    window.move_next("M");
    assert_eq!(window.cursor(), 2);
}

#[test]
fn search_backwards_goes_to_the_previous_match_and_wraps() {
    let mut window = window(5, &[" M file1", "?? file2", " M file3", "?? file4"]);
    window.move_prev("??");
    assert_eq!(window.cursor(), 3);
    window.move_prev("??");
    assert_eq!(window.cursor(), 1);
    window.move_prev("??");
    assert_eq!(window.cursor(), 3);
    window.move_prev(" M");
    assert_eq!(window.cursor(), 2);
    window.move_prev(" M");
    assert_eq!(window.cursor(), 0);
}

#[test]
fn single_match_is_stable() {
    let texts = ["one", "two", "three", "four", "five"];
    for start in ["one", "three", "five"] {
        let mut window = window(2, &texts);
        window.move_next(start);
        window.move_next("ou");
        assert_eq!(window.cursor(), 3);
        for _ in 0..texts.len() {
            window.move_next("ou");
            assert_eq!(window.cursor(), 3);
        }
        window.move_prev("ou");
        assert_eq!(window.cursor(), 3);
    }
}

#[test]
fn search_with_an_empty_term_changes_nothing() {
    let mut window = window(2, &["a", "b", "c", "d"]);
    window.move_next("c");
    window.move_screen_up(1);
    let (cursor, top) = (window.cursor(), window.top());
    window.move_next("");
    assert_eq!((window.cursor(), window.top()), (cursor, top));
    window.move_prev("");
    assert_eq!((window.cursor(), window.top()), (cursor, top));
}

#[test]
fn search_without_a_match_changes_nothing() {
    let mut window = window(2, &["a", "b", "c", "d"]);
    window.move_next("c");
    let (cursor, top) = (window.cursor(), window.top());
    window.move_next("zz");
    assert_eq!((window.cursor(), window.top()), (cursor, top));
    window.move_prev("zz");
    assert_eq!((window.cursor(), window.top()), (cursor, top));
    let mut empty = window_without_rows();
    empty.move_next("a");
    assert_eq!((empty.cursor(), empty.top()), (0, 0));
}

fn window_without_rows() -> Window {
    window(2, &[])
}

#[test]
fn search_scrolls_as_little_as_is_needed() {
    let mut window = window(2, &["a", "b", "c", "d", "e"]);
    window.move_next("b");
    assert_eq!((window.cursor(), window.top()), (1, 0));
    window.move_next("d");
    assert_eq!((window.cursor(), window.top()), (3, 2));
    window.move_next("c");
    assert_eq!((window.cursor(), window.top()), (2, 2));
    window.move_next("a");
    assert_eq!((window.cursor(), window.top()), (0, 0));
    window.move_prev("e");
    assert_eq!((window.cursor(), window.top()), (4, 3));
}

#[test]
fn search_looks_at_the_whole_text_of_a_row() {
    let mut window =
        Window::new(ScreenSize { lines: 2, cols: 80 }, Point { x: 0, y: 0 }, terminal()).unwrap();
    window.set_lines(vec![
        Line::plain("first"),
        Line::new(vec![
            gitko::render::line::Part::plain("Head:"),
            gitko::render::line::Part::plain("main"),
        ]),
    ]);
    window.move_next("d:ma");
    assert_eq!(window.cursor(), 1);
    assert_eq!(window.get_cursor_line(), "Head:main");
}

#[test]
fn show_cursor_changes_the_flag_only() {
    let mut window = window(2, &["a", "b", "c"]);
    window.move_next("c");
    window.show_cursor(false);
    assert!(!window.is_cursor_visible());
    assert_eq!((window.cursor(), window.top(), window.len()), (2, 1, 3));
    window.show_cursor(true);
    assert!(window.is_cursor_visible());
    assert_eq!(window.line(1).text(), "b");
}
