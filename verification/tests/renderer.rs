use gitko::ascii_table::{KEY_ETB, KEY_J_LOWER, KEY_K_LOWER, KEY_LF, KEY_N_LOWER};
use gitko::gitko::commit_diff_window::CommitDiffWindow;
use gitko::gitko::output_window::{OutputAction, OutputWindow};
use gitko::gitko::text_window::TextWindow;
use gitko::render::component::{Component, Reaction};
use gitko::render::frame::{frame, Frame, Row, Span};
use gitko::render::key_handlers::KeyHandlers;
use gitko::render::line::{Line, Part, Style};
use gitko::render::renderer::{Dispatch, Phase, Renderer};
use gitko::render::window::{RenderError, ScreenSize, Window};
use gitko::render::Point;

fn terminal() -> ScreenSize {
    ScreenSize { lines: 24, cols: 80 }
}

fn output(lines: &[&str]) -> OutputWindow {
    OutputWindow { output: lines.iter().map(|l| l.to_string()).collect() }
}

fn diff(lines: &[&str]) -> CommitDiffWindow {
    let mut screen = CommitDiffWindow::new("1a2b3c4");
    screen.load(lines.iter().map(|l| l.to_string()).collect());
    screen
}

#[test]
fn key_table_keeps_the_last_registration() {
    let mut table: KeyHandlers<u8> = KeyHandlers::new();
    assert_eq!(table.len(), 0);
    assert_eq!(table.get(10), None);
    table.insert(10, 1);
    table.insert(23, 1);
    assert_eq!(table.get(10), Some(1));
    assert_eq!(table.get(23), Some(1));
    table.insert(10, 2);
    assert_eq!(table.get(10), Some(2));
    assert_eq!(table.get(23), Some(1));
    assert_eq!(table.get(11), None);
    assert_eq!(table.len(), 2);
}

#[test]
fn session_cannot_be_had_without_a_window() {
    let made = Renderer::new(output(&[]), ScreenSize { lines: 1, cols: 0 }, Point { x: 0, y: -1 }, terminal());
    assert!(matches!(made, Err(RenderError::Negative)));
    let made = Renderer::new(output(&[]), ScreenSize::max(), Point { x: 0, y: 24 }, terminal());
    assert!(matches!(made, Err(RenderError::Empty)));
}

#[test]
fn session_starts_draws_and_awaits_input() {
    let mut session =
        Renderer::new(output(&["one", "two"]), ScreenSize::max(), Point { x: 0, y: 0 }, terminal())
            .unwrap();
    assert_eq!(session.phase(), Phase::Starting);
    assert_eq!(session.window().len(), 0);
    session.start();
    assert_eq!(session.phase(), Phase::Drawing);
    assert_eq!(session.window().len(), 3);
    assert_eq!(session.window().height(), 24);
    assert!(!session.window().is_cursor_visible());
    let painted = session.draw();
    assert_eq!(session.phase(), Phase::AwaitingInput);
    assert_eq!(painted.rows.len(), 24);
    assert!(!painted.cursor_visible);
}

#[test]
fn key_without_a_handler_is_ignored() {
    let mut session =
        Renderer::new(diff(&["a", "b", "c"]), ScreenSize { lines: 2, cols: 0 }, Point { x: 0, y: 0 }, terminal())
            .unwrap();
    session.start();
    session.draw();
    let answer = session.dispatch(KEY_LF);
    assert_eq!(answer, Dispatch::Ignored);
    assert_eq!(session.phase(), Phase::AwaitingInput);
    assert_eq!(session.window().top(), 0);
}

#[test]
fn handler_runs_once_and_asks_for_a_redraw() {
    let mut session = Renderer::new(
        diff(&["a", "b", "c", "d", "e"]),
        ScreenSize { lines: 2, cols: 0 },
        Point { x: 0, y: 0 },
        terminal(),
    )
    .unwrap();
    session.start();
    session.draw();
    let answer = session.dispatch(KEY_J_LOWER);
    assert_eq!(answer, Dispatch::Handled(Reaction { proceed: true, request: None, refresh: false }));
    assert_eq!(session.phase(), Phase::Drawing);
    assert_eq!(session.window().top(), 1);
    session.draw();
    session.dispatch(KEY_J_LOWER);
    assert_eq!(session.window().top(), 2);
    session.draw();
    session.dispatch(KEY_K_LOWER);
    assert_eq!(session.window().top(), 1);
}

#[test]
fn handler_that_answers_false_ends_the_session() {
    let mut session =
        Renderer::new(output(&["done"]), ScreenSize::max(), Point { x: 0, y: 0 }, terminal())
            .unwrap();
    session.start();
    assert!(!session.window().is_cursor_visible());
    session.draw();
    let answer = session.dispatch(KEY_LF);
    assert_eq!(answer, Dispatch::Handled(Reaction { proceed: false, request: None, refresh: false }));
    assert_eq!(session.phase(), Phase::Exited);
    assert!(session.window().is_cursor_visible());
    assert_eq!(session.window().len(), 2);
    let screen = session.into_component();
    assert_eq!(screen.output, vec!["done".to_string()]);
}

#[test]
fn two_keys_may_call_one_handler() {
    let screen = output(&[]);
    let mut table: KeyHandlers<OutputAction> = KeyHandlers::new();
    screen.register_handlers(&mut table);
    assert_eq!(table.get(KEY_LF), Some(OutputAction::Close));
    assert_eq!(table.get(KEY_ETB), Some(OutputAction::Close));
    assert_eq!(table.len(), 2);
    let mut session =
        Renderer::new(output(&[]), ScreenSize::max(), Point { x: 0, y: 0 }, terminal()).unwrap();
    session.start();
    session.draw();
    session.dispatch(KEY_ETB);
    assert_eq!(session.phase(), Phase::Exited);
}

#[test]
fn reload_gives_the_screen_new_content() {
    let mut session = Renderer::new(
        diff(&["a", "b", "c", "d"]),
        ScreenSize { lines: 2, cols: 0 },
        Point { x: 0, y: 0 },
        terminal(),
    )
    .unwrap();
    session.start();
    session.draw();
    session.dispatch(KEY_J_LOWER);
    session.draw();
    session.dispatch(KEY_J_LOWER);
    assert_eq!(session.window().top(), 2);
    session.reload(vec!["+x".to_string(), "-y".to_string(), "z".to_string()]);
    assert_eq!(session.phase(), Phase::Drawing);
    assert_eq!(session.window().len(), 3);
    assert_eq!(session.window().top(), 1);
    assert_eq!(session.component().commit_hash(), "1a2b3c4");
}

#[test]
fn search_keeps_the_term_and_goes_to_the_next_match() {
    let mut session = Renderer::new(
        diff(&["a", "needle 1", "c", "needle 2"]),
        ScreenSize { lines: 2, cols: 0 },
        Point { x: 0, y: 0 },
        terminal(),
    )
    .unwrap();
    session.start();
    session.draw();
    session.search("needle".to_string());
    assert_eq!(session.phase(), Phase::Drawing);
    assert_eq!(session.window().cursor(), 1);
    session.draw();
    session.dispatch(KEY_N_LOWER);
    assert_eq!(session.window().cursor(), 3);
    session.draw();
    session.dispatch(KEY_N_LOWER);
    assert_eq!(session.window().cursor(), 1);
}

#[test]
fn frame_shows_the_viewport_and_clears_what_is_left() {
    let mut window =
        Window::new(ScreenSize { lines: 3, cols: 6 }, Point { x: 4, y: 10 }, terminal()).unwrap();
    window.set_lines(vec![
        Line::plain("zero"),
        Line::new(vec![Part::new("Head:", Some(vec![Style::Bold])), Part::plain("main")]),
        Line::plain("two"),
    ]);
    window.move_screen_down(1);
    assert_eq!(window.top(), 0);
    let painted = frame(&window);
    assert_eq!(painted.rows.len(), 3);
    assert_eq!(painted.rows[0], Row { y: 10, x: 4, spans: vec![Span { x: 4, part: Part::plain("zero") }] });
    assert_eq!(
        painted.rows[1],
        Row {
            y: 11,
            x: 4,
            spans: vec![
                Span { x: 4, part: Part::new("Head:", Some(vec![Style::Bold])) },
                Span { x: 9, part: Part::plain("m") },
            ],
        }
    );
    assert_eq!(painted.rows[2], Row { y: 12, x: 4, spans: vec![Span { x: 4, part: Part::plain("two") }] });
    assert!(painted.cursor_visible);
}

#[test]
fn frame_starts_at_the_first_row_shown() {
    let mut window =
        Window::new(ScreenSize { lines: 2, cols: 10 }, Point { x: 0, y: 0 }, terminal()).unwrap();
    window.set_lines(vec![Line::plain("a"), Line::plain("b"), Line::plain("c")]);
    window.move_screen_down(1);
    window.show_cursor(false);
    let painted = frame(&window);
    assert_eq!(
        painted,
        Frame {
            rows: vec![
                Row { y: 0, x: 0, spans: vec![Span { x: 0, part: Part::plain("b") }] },
                Row { y: 1, x: 0, spans: vec![Span { x: 0, part: Part::plain("c") }] },
            ],
            cursor_visible: false,
        }
    );
    window.set_lines(vec![Line::plain("a")]);
    let painted = frame(&window);
    assert_eq!(painted.rows[0].spans.len(), 1);
    assert_eq!(painted.rows[1], Row { y: 1, x: 0, spans: vec![] });
}

#[test]
fn text_window_shows_its_lines_and_binds_no_key() {
    let mut session = Renderer::new(
        TextWindow { lines: vec!["Enter new lbranch name:"] },
        ScreenSize { lines: 1, cols: 0 },
        Point { x: 0, y: 22 },
        terminal(),
    )
    .unwrap();
    session.start();
    assert_eq!(session.window().len(), 1);
    assert_eq!(session.window().get_cursor_line(), "Enter new lbranch name:");
    assert!(!session.window().is_cursor_visible());
    let painted = session.draw();
    assert_eq!(painted.rows.len(), 1);
    assert_eq!(painted.rows[0].y, 22);
    assert_eq!(session.dispatch(KEY_LF), Dispatch::Ignored);
    assert_eq!(session.phase(), Phase::AwaitingInput);
}
