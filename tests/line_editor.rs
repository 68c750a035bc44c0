use nota::key::Key;
use nota::line_edit::{run_end_in, run_start_in, LineEditor, Reply, StopPolicy};

fn chars(s: &str) -> Vec<char> {
    s.chars().collect()
}

fn text(e: &LineEditor) -> String {
    e.content().iter().collect()
}

fn editor(s: &str, col: usize) -> LineEditor {
    LineEditor::new(chars(s), col, StopPolicy::QuitWhenEmpty)
}

#[test]
fn start_column_clamped_to_text_end() {
    let e = editor("ab", 7);
    assert_eq!(e.cursor(), 2);
    let e = editor("abc", 1);
    assert_eq!(e.cursor(), 1);
}

#[test]
fn left_right_stay_in_bounds_and_ring() {
    let mut e = editor("ab", 0);
    assert_eq!(e.apply(Key::Left), Reply::Bell);
    assert_eq!(e.cursor(), 0);
    assert_eq!(e.apply(Key::Right), Reply::Redraw);
    assert_eq!(e.apply(Key::Right), Reply::Redraw);
    assert_eq!(e.cursor(), 2);
    assert_eq!(e.apply(Key::Right), Reply::Bell);
    assert_eq!(e.cursor(), 2);
    for _ in 0..5 {
        e.apply(Key::Left);
        assert!(e.cursor() <= e.content().len());
    }
    assert_eq!(e.cursor(), 0);
}

#[test]
fn home_and_end() {
    let mut e = editor("hello", 2);
    e.apply(Key::End);
    assert_eq!(e.cursor(), 5);
    e.apply(Key::Home);
    assert_eq!(e.cursor(), 0);
}

#[test]
fn insert_then_backspace_round_trip() {
    let mut e = editor("hello", 2);
    e.apply(Key::Char('x'));
    assert_eq!(text(&e), "hexllo");
    assert_eq!(e.cursor(), 3);
    assert_eq!(e.apply(Key::Backspace), Reply::Redraw);
    assert_eq!(text(&e), "hello");
    assert_eq!(e.cursor(), 2);
}

#[test]
fn backspace_at_start_rings() {
    let mut e = editor("ab", 0);
    assert_eq!(e.apply(Key::Backspace), Reply::Bell);
    assert_eq!(text(&e), "ab");
}

#[test]
fn del_removes_at_cursor() {
    let mut e = editor("abc", 1);
    assert_eq!(e.apply(Key::Del), Reply::Redraw);
    assert_eq!(text(&e), "ac");
    assert_eq!(e.cursor(), 1);
    e.apply(Key::End);
    assert_eq!(e.apply(Key::Del), Reply::Bell);
    assert_eq!(text(&e), "ac");
}

#[test]
fn ctrl_left_stops_after_whitespace() {
    let mut e = editor("foo bar baz", 9);
    e.apply(Key::CtrlLeft);
    assert_eq!(e.cursor(), 8);
    e.apply(Key::CtrlLeft);
    assert_eq!(e.cursor(), 4);
    e.apply(Key::CtrlLeft);
    assert_eq!(e.cursor(), 0);
    e.apply(Key::CtrlLeft);
    assert_eq!(e.cursor(), 0);
}

#[test]
fn ctrl_right_stops_on_whitespace() {
    let mut e = editor("foo bar", 0);
    e.apply(Key::CtrlRight);
    assert_eq!(e.cursor(), 3);
    e.apply(Key::CtrlRight);
    assert_eq!(e.cursor(), 7);
    e.apply(Key::CtrlRight);
    assert_eq!(e.cursor(), 7);
}

#[test]
fn ctrl_backspace_removes_word_and_bounding_space() {
    let mut e = editor("foo bar", 7);
    e.apply(Key::CtrlBackspace);
    assert_eq!(text(&e), "foo");
    assert_eq!(e.cursor(), 3);
    e.apply(Key::CtrlBackspace);
    assert_eq!(text(&e), "");
    assert_eq!(e.cursor(), 0);
}

#[test]
fn ctrl_backspace_after_space_removes_only_space() {
    let mut e = editor("a  b", 3);
    e.apply(Key::CtrlBackspace);
    assert_eq!(text(&e), "a b");
    assert_eq!(e.cursor(), 2);
}

#[test]
fn ctrl_del_removes_word_at_cursor() {
    let mut e = editor("foo bar", 4);
    e.apply(Key::CtrlDel);
    assert_eq!(text(&e), "foo ");
    assert_eq!(e.cursor(), 4);
    let mut e = editor("foo bar", 3);
    e.apply(Key::CtrlDel);
    assert_eq!(text(&e), "foo bar");
}

#[test]
fn enter_appends_one_newline() {
    let mut e = editor("abc", 1);
    assert_eq!(e.apply(Key::Enter), Reply::Commit);
    assert_eq!(e.into_text(), chars("abc\n"));
}

#[test]
fn escape_commits_unchanged() {
    let mut e = editor("abc", 1);
    assert_eq!(e.apply(Key::Escape), Reply::Commit);
    assert_eq!(e.into_text(), chars("abc"));
}

#[test]
fn stop_quits_only_when_empty() {
    let mut e = editor("", 0);
    assert_eq!(e.apply(Key::Stop), Reply::Quit);
    let mut e = editor("a", 0);
    assert_eq!(e.apply(Key::Stop), Reply::Redraw);
    let mut e = LineEditor::new(Vec::new(), 0, StopPolicy::Ignore);
    assert_eq!(e.apply(Key::Stop), Reply::Redraw);
}

#[test]
fn unknown_key_rings() {
    let mut e = editor("a", 0);
    assert_eq!(e.apply(Key::Unknown), Reply::Bell);
    assert_eq!(text(&e), "a");
}

#[test]
fn overflow_detected_past_width() {
    let e = editor("abcd", 0);
    assert!(e.overflows(3));
    assert!(!e.overflows(4));
}

#[test]
fn unicode_whitespace_separates_words() {
    let mut e = LineEditor::new(vec!['a', '\u{3000}', 'b'], 3, StopPolicy::Ignore);
    e.apply(Key::CtrlLeft);
    assert_eq!(e.cursor(), 2);
}

#[test]
fn run_scans_follow_the_whitespace_mask() {
    let ws = vec![false, true, false, false, true, false];
    assert_eq!(run_start_in(&ws, 4), 2);
    assert_eq!(run_start_in(&ws, 2), 2);
    assert_eq!(run_start_in(&ws, 1), 0);
    assert_eq!(run_end_in(&ws, 2), 4);
    assert_eq!(run_end_in(&ws, 5), 6);
    assert_eq!(run_end_in(&ws, 1), 1);
}

#[test]
fn up_and_down_ring_without_change() {
    let mut e = editor("abc", 1);
    assert_eq!(e.apply(Key::Up), Reply::Bell);
    assert_eq!(text(&e), "abc");
    assert_eq!(e.cursor(), 1);
    assert_eq!(e.apply(Key::Down), Reply::Bell);
    assert_eq!(text(&e), "abc");
    assert_eq!(e.cursor(), 1);
}
