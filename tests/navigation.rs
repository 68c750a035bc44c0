use nota::buffer::Buffer;
use nota::editor::{Editor, Outcome, Status};
use nota::key::Key;
use nota::line_edit::{Reply, StopPolicy};
use nota::navigation::{NavAction, Navigator, Viewport};
use nota::style::{status_style, Style};

fn chars(s: &str) -> Vec<char> {
    s.chars().collect()
}

fn strings(v: &[Vec<char>]) -> Vec<String> {
    v.iter().map(|l| l.iter().collect()).collect()
}

#[test]
fn scroll_up_at_first_line_is_no_op() {
    let mut v = Viewport::new(3, 10);
    assert!(!v.scroll_up());
    assert!(!v.scroll_up());
    assert_eq!(v.start(), 1);
}

#[test]
fn scroll_down_stops_at_largest_start() {
    let mut v = Viewport::new(3, 5);
    assert!(v.scroll_down());
    assert!(v.scroll_down());
    assert_eq!(v.start(), 3);
    assert!(!v.scroll_down());
    assert!(!v.scroll_down());
    assert_eq!(v.start(), 3);
    assert!(v.scroll_up());
    assert_eq!(v.start(), 2);
}

#[test]
fn short_file_never_scrolls() {
    let mut v = Viewport::new(10, 3);
    assert!(!v.scroll_down());
    assert_eq!(v.start(), 1);
}

#[test]
fn navigator_cursor_moves_within_screen() {
    let mut n = Navigator::new(3, 2, 5);
    assert_eq!(n.handle(Key::Left), NavAction::Moved);
    assert_eq!(n.x(), 0);
    n.handle(Key::Right);
    n.handle(Key::Right);
    n.handle(Key::Right);
    assert_eq!(n.x(), 2);
    assert_eq!(n.handle(Key::Down), NavAction::Moved);
    assert_eq!(n.y(), 1);
    assert_eq!(n.handle(Key::Down), NavAction::Scrolled);
    assert_eq!(n.y(), 1);
    assert_eq!(n.viewport().start(), 2);
    assert_eq!(n.line(), 3);
    assert_eq!(n.row(), 3);
    assert_eq!(n.handle(Key::Stop), NavAction::Quit);
    assert_eq!(n.handle(Key::Char('q')), NavAction::Ignored);
}

#[test]
fn three_line_file_renders_and_counts_lines() {
    let buffer = Buffer::load(&chars("one\ntwo\nthree\n"), 80);
    let mut e = Editor::new(buffer, 80, 6, StopPolicy::QuitWhenEmpty);
    assert_eq!(strings(&e.visible_rows()), vec!["one", "two", "three", "", "", ""]);
    assert_eq!(e.navigator().x(), 0);
    assert_eq!(e.navigator().y(), 0);
    assert_eq!(e.status(), Status::Line(1));
    e.press(Key::Down);
    e.press(Key::Down);
    e.press(Key::Up);
    assert_eq!(e.status(), Status::Line(2));
}

#[test]
fn insert_then_escape_writes_line_back() {
    let buffer = Buffer::load(&chars("alpha\nbeta"), 80);
    let mut e = Editor::new(buffer, 80, 20, StopPolicy::QuitWhenEmpty);
    e.press(Key::Down);
    e.press(Key::Right);
    e.press(Key::Right);
    assert_eq!(e.press(Key::Char('i')), Outcome::Normal(NavAction::StartEdit));
    assert_eq!(e.status(), Status::Insert);
    assert_eq!(e.press(Key::Char('h')), Outcome::Editing(Reply::Redraw));
    e.press(Key::Char('i'));
    assert_eq!(e.press(Key::Escape), Outcome::Committed);
    assert_eq!(e.buffer().line(2), chars("behita"));
    assert_eq!(e.buffer().line(1), chars("alpha"));
    assert_eq!(e.status(), Status::Normal);
    assert!(e.session().is_none());
}

#[test]
fn insert_then_enter_keeps_newline_marker() {
    let buffer = Buffer::load(&chars("ab"), 80);
    let mut e = Editor::new(buffer, 80, 20, StopPolicy::QuitWhenEmpty);
    e.press(Key::Char('i'));
    e.press(Key::Char('x'));
    assert_eq!(e.press(Key::Enter), Outcome::Committed);
    assert_eq!(e.buffer().line(1), chars("xab\n"));
}

#[test]
fn long_edit_is_not_written_back() {
    let buffer = Buffer::load(&chars("abc"), 80);
    let mut e = Editor::new(buffer, 80, 3, StopPolicy::QuitWhenEmpty);
    e.press(Key::Char('i'));
    e.press(Key::Char('x'));
    e.press(Key::Escape);
    assert_eq!(e.buffer().line(1), chars("abc"));
}

#[test]
fn session_ends_when_text_overflows_width() {
    let buffer = Buffer::load(&chars("abc"), 3);
    let mut e = Editor::new(buffer, 3, 20, StopPolicy::QuitWhenEmpty);
    e.press(Key::Char('i'));
    assert_eq!(e.press(Key::Char('x')), Outcome::Committed);
    assert_eq!(e.buffer().line(1), chars("xabc"));
    assert!(e.session().is_none());
}

#[test]
fn stop_in_empty_session_quits() {
    let buffer = Buffer::load(&chars("\nb"), 10);
    let mut e = Editor::new(buffer, 10, 5, StopPolicy::QuitWhenEmpty);
    e.press(Key::Char('i'));
    assert_eq!(e.press(Key::Stop), Outcome::Editing(Reply::Quit));
}

#[test]
fn style_codes() {
    assert_eq!(Style::Status.prefix(), "\x1b[107m\x1b[30m");
    assert_eq!(Style::Neutral.suffix(), "\x1b[0m");
    assert_eq!(Style::Plain.prefix(), "");
    assert_eq!(status_style(Status::Line(4)), Style::Status);
    assert_eq!(status_style(Status::Insert), Style::Neutral);
}

#[test]
fn up_and_down_in_session_ring() {
    let buffer = Buffer::load(&chars("ab\ncd"), 80);
    let mut e = Editor::new(buffer, 80, 20, StopPolicy::QuitWhenEmpty);
    e.press(Key::Char('i'));
    assert_eq!(e.press(Key::Down), Outcome::Editing(Reply::Bell));
    assert_eq!(e.press(Key::Up), Outcome::Editing(Reply::Bell));
    assert_eq!(e.navigator().y(), 0);
    assert_eq!(e.session().map(|s| s.content().clone()), Some(chars("ab")));
}
