use nota::buffer::{split_lines, Buffer};
use nota::wrap::wrap;

fn chars(s: &str) -> Vec<char> {
    s.chars().collect()
}

fn strings(v: &[Vec<char>]) -> Vec<String> {
    v.iter().map(|l| l.iter().collect()).collect()
}

#[test]
fn wrap_splits_into_width_chunks() {
    let r = wrap(&chars("abcdefg"), 3);
    assert_eq!(strings(&r), vec!["abc", "def", "g"]);
}

#[test]
fn wrap_exact_multiple() {
    let r = wrap(&chars("abcdef"), 3);
    assert_eq!(strings(&r), vec!["abc", "def"]);
}

#[test]
fn wrap_empty_line_gives_one_empty_chunk() {
    let r = wrap(&Vec::new(), 5);
    assert_eq!(r.len(), 1);
    assert!(r[0].is_empty());
}

#[test]
fn wrap_keeps_multibyte_characters_whole() {
    let line = chars("héllo wörld");
    let r = wrap(&line, 4);
    assert_eq!(strings(&r), vec!["héll", "o wö", "rld"]);
    let back: Vec<char> = r.concat();
    assert_eq!(back, line);
    assert_eq!(r.len(), (line.len() + 3) / 4);
}

#[test]
fn split_lines_handles_endings() {
    assert_eq!(strings(&split_lines(&chars("a\nb\r\nc"))), vec!["a", "b", "c"]);
    assert_eq!(strings(&split_lines(&chars("a\n"))), vec!["a"]);
    assert_eq!(strings(&split_lines(&chars("\n\nx"))), vec!["", "", "x"]);
    assert!(split_lines(&Vec::new()).is_empty());
}

#[test]
fn load_numbers_wrapped_lines_from_one() {
    let b = Buffer::load(&chars("abcde\nxy\n"), 2);
    assert_eq!(b.total(), 4);
    assert_eq!(b.line(1), chars("ab"));
    assert_eq!(b.line(3), chars("e"));
    assert_eq!(b.line(4), chars("xy"));
    assert!(b.line(0).is_empty());
    assert!(b.line(5).is_empty());
}

#[test]
fn replace_only_existing_keys() {
    let mut b = Buffer::load(&chars("a\nb"), 10);
    assert!(b.replace(2, chars("z")));
    assert_eq!(b.line(2), chars("z"));
    assert!(!b.replace(3, chars("q")));
    assert_eq!(b.total(), 2);
}

#[test]
fn window_fills_blank_rows() {
    let b = Buffer::load(&chars("a\nb\nc"), 10);
    let w = b.window(2, 4);
    assert_eq!(strings(&w), vec!["b", "c", "", ""]);
}

#[test]
fn window_from_key_zero_starts_blank() {
    let b = Buffer::load(&chars("a\nb"), 10);
    assert_eq!(strings(&b.window(0, 3)), vec!["", "a", "b"]);
}
