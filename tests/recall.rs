use readln::{HistoryNav, Key};
use readln::text::{chars_of, string_of};

fn type_line(nav: &mut HistoryNav, history: &Vec<String>, s: &str) {
    for c in s.chars() {
        nav.step(history, Key::Char(c));
    }
}

fn submit_line(history: &mut Vec<String>, s: &str) -> String {
    let mut nav = HistoryNav::new(history);
    type_line(&mut nav, history, s);
    nav.submit(history)
}

fn active(nav: &HistoryNav) -> String {
    nav.active().iter().collect()
}

#[test]
fn up_twice_recalls_the_oldest() {
    let mut history = Vec::new();
    assert_eq!(submit_line(&mut history, "alpha"), "alpha");
    assert_eq!(submit_line(&mut history, "beta"), "beta");
    let mut nav = HistoryNav::new(&history);
    nav.step(&history, Key::ArrowUp);
    assert_eq!(active(&nav), "beta");
    nav.step(&history, Key::ArrowUp);
    assert_eq!(active(&nav), "alpha");
    assert_eq!(nav.cursor(), 5);
    nav.step(&history, Key::Char('X'));
    assert_eq!(active(&nav), "alphaX");
    assert_eq!(history, vec!["alpha".to_string(), "beta".to_string()]);
}

#[test]
fn resubmitting_an_edited_entry_appends() {
    let mut history = vec!["alpha".to_string(), "beta".to_string()];
    let mut nav = HistoryNav::new(&history);
    nav.step(&history, Key::ArrowUp);
    nav.step(&history, Key::ArrowUp);
    nav.step(&history, Key::Char('X'));
    assert_eq!(nav.submit(&mut history), "alphaX");
    assert_eq!(history, vec!["alpha".to_string(), "beta".to_string(), "alphaX".to_string()]);
}

#[test]
fn down_on_the_fresh_line_is_a_no_op() {
    let history = vec!["x".to_string()];
    let mut nav = HistoryNav::new(&history);
    type_line(&mut nav, &history, "ab");
    nav.step(&history, Key::ArrowLeft);
    nav.step(&history, Key::ArrowDown);
    assert!(nav.is_fresh());
    assert_eq!(active(&nav), "ab");
    assert_eq!(nav.cursor(), 1);
}

#[test]
fn empty_submit_keeps_history() {
    let mut history = vec!["x".to_string()];
    let nav = HistoryNav::new(&history);
    assert_eq!(nav.submit(&mut history), "");
    assert_eq!(history, vec!["x".to_string()]);
}

#[test]
fn down_past_newest_restores_the_line() {
    let history = vec!["one".to_string(), "two".to_string()];
    let mut nav = HistoryNav::new(&history);
    type_line(&mut nav, &history, "draft");
    nav.step(&history, Key::ArrowUp);
    assert!(!nav.is_fresh());
    assert_eq!(active(&nav), "two");
    nav.step(&history, Key::ArrowDown);
    assert!(nav.is_fresh());
    assert_eq!(active(&nav), "draft");
    assert_eq!(nav.cursor(), 5);
}

#[test]
fn up_stops_at_the_oldest() {
    let history = vec!["one".to_string(), "two".to_string()];
    let mut nav = HistoryNav::new(&history);
    for _ in 0..5 {
        nav.step(&history, Key::ArrowUp);
    }
    assert_eq!(active(&nav), "one");
}

#[test]
fn up_on_empty_history_keeps_the_line() {
    let history: Vec<String> = Vec::new();
    let mut nav = HistoryNav::new(&history);
    type_line(&mut nav, &history, "abc");
    nav.step(&history, Key::ArrowLeft);
    nav.step(&history, Key::ArrowUp);
    assert!(nav.is_fresh());
    assert_eq!(active(&nav), "abc");
    assert_eq!(nav.cursor(), 3);
}

#[test]
fn edits_of_a_recalled_entry_are_kept_while_browsing() {
    let history = vec!["one".to_string(), "two".to_string()];
    let mut nav = HistoryNav::new(&history);
    nav.step(&history, Key::ArrowUp);
    nav.step(&history, Key::Backspace);
    assert_eq!(active(&nav), "tw");
    nav.step(&history, Key::ArrowUp);
    assert_eq!(active(&nav), "one");
    nav.step(&history, Key::ArrowDown);
    assert_eq!(active(&nav), "tw");
    assert_eq!(history, vec!["one".to_string(), "two".to_string()]);
}

#[test]
fn submit_returns_the_new_entry() {
    let mut history = Vec::new();
    let r = submit_line(&mut history, "héllo wörld");
    assert_eq!(r, "héllo wörld");
    assert_eq!(history, vec!["héllo wörld".to_string()]);
}

#[test]
fn text_conversions_keep_characters() {
    let s = "añb c".to_string();
    let v = chars_of(&s);
    assert_eq!(v, vec!['a', 'ñ', 'b', ' ', 'c']);
    assert_eq!(string_of(&v), s);
    assert_eq!(string_of(&Vec::new()), "");
}
