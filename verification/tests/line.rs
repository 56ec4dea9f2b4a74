use gitko::render::line::{Color, Line, Part, Style};

#[test]
fn plain_line_is_one_unstyled_part() {
    let line = Line::plain("hello");
    assert_eq!(line.len(), 1);
    assert_eq!(line.text(), "hello");
    let part = line.part(0);
    assert_eq!(part.text(), "hello");
    assert_eq!(part.foreground(), None);
    assert_eq!(part.background(), None);
    assert!(!part.is_bold());
    assert!(!part.is_underlined());
}

#[test]
fn empty_line_has_no_part_and_no_text() {
    let line = Line::empty();
    assert_eq!(line.len(), 0);
    assert_eq!(line.text(), "");
}

#[test]
fn from_string_is_plain() {
    assert_eq!(Line::from_string("abc".to_string()), Line::plain("abc"));
}

#[test]
fn styles_are_kept_as_flags() {
    let both = Part::new("t", Some(vec![Style::Bold, Style::Underlined]));
    assert!(both.is_bold() && both.is_underlined());
    let bold = Part::new("t", Some(vec![Style::Bold, Style::Bold]));
    assert!(bold.is_bold() && !bold.is_underlined());
    let underlined = Part::new("t", Some(vec![Style::Underlined]));
    assert!(!underlined.is_bold() && underlined.is_underlined());
    let none = Part::new("t", None);
    assert!(!none.is_bold() && !none.is_underlined());
    let empty = Part::new("t", Some(vec![]));
    assert_eq!(empty, Part::plain("t"));
    assert_eq!(Line::from_str("t", Some(vec![Style::Bold])).part(0), &bold);
}

#[test]
fn painted_part_keeps_its_colours() {
    let part = Part::painted("main", Color::Rgb(0, 255, 255), Color::Rgb(0, 0, 0));
    assert_eq!(part.foreground(), Some(Color::Rgb(0, 255, 255)));
    assert_eq!(part.background(), Some(Color::Rgb(0, 0, 0)));
    assert_eq!(part.text(), "main");
    assert_eq!(part.width(), 4);
}

#[test]
fn text_of_a_line_joins_its_parts_in_order() {
    let line = Line::new(vec![
        Part::new("Head:", Some(vec![Style::Bold, Style::Underlined])),
        Part::painted("main", Color::Rgb(0, 255, 255), Color::Rgb(0, 0, 0)),
        Part::plain(" "),
        Part::plain("fix the window"),
    ]);
    assert_eq!(line.len(), 4);
    assert_eq!(line.text(), "Head:main fix the window");
    assert_eq!(line.part(1).text(), "main");
    assert_eq!(line.part(3).text(), "fix the window");
}

#[test]
fn text_keeps_empty_and_repeated_parts() {
    let line = Line::new(vec![Part::plain("ab"), Part::plain(""), Part::plain("ab")]);
    assert_eq!(line.text(), "abab");
}

#[test]
fn clone_keeps_a_line() {
    let line = Line::new(vec![Part::plain("a"), Part::new("b", Some(vec![Style::Bold]))]);
    assert_eq!(line.clone(), line);
}

#[test]
fn clipped_line_keeps_what_begins_before_the_width() {
    let line = Line::new(vec![
        Part::new("Head:", Some(vec![Style::Bold])),
        Part::plain("main"),
        Part::plain(" tail"),
    ]);
    let cut = line.clipped(7);
    assert_eq!(cut.len(), 3);
    assert_eq!(cut.text(), "Head:ma");
    assert_eq!(cut.part(0).text(), "Head:");
    assert!(cut.part(0).is_bold());
    assert_eq!(cut.part(1).text(), "ma");
    assert_eq!(cut.part(2).text(), "");
    assert_eq!(line.clipped(100), line);
    assert_eq!(line.clipped(0).text(), "");
    assert_eq!(line.clipped(5).text(), "Head:");
}
