use typing_trainer::session::StepResult;
use typing_trainer::session::TypingTest;
use typing_trainer::types::GameState;
use typing_trainer::types::Key;
use typing_trainer::types::Style;
use typing_trainer::types::TypingTestReturn;

/// A session whose every line is exactly ["cat"]: a one-word bank with a
/// width the word already spans generates deterministically.
fn cat_session() -> TypingTest {
    TypingTest::new(&vec!["cat".to_string()], 3, 1)
}

#[test]
fn new_session_starts_clean() {
    let t = cat_session();
    assert_eq!(t.cursor(), (0, 0));
    assert_eq!(t.cursor_index(), 0);
    assert_eq!(t.chars_typed(), 0);
    assert_eq!(t.errors_typed(), 0);
    assert!(t.line_errors().is_empty());
    assert!(t.is_active());
    assert_eq!(t.lines().len(), 3);
    assert!(t.lines()[0].is_empty());
    assert_eq!(t.lines()[1], vec!["cat".to_string()]);
}

#[test]
fn match_then_mismatch_counts_and_marks() {
    let mut t = cat_session();

    let r = t.process_char('c');
    assert_eq!(t.chars_typed(), 1);
    assert_eq!(t.errors_typed(), 0);
    assert_eq!(t.cursor(), (0, 1));
    assert!(t.line_errors().is_empty());
    assert_eq!(r.draw.ch, 'c');
    assert_eq!(r.draw.offset, 0);
    assert_eq!(r.draw.style, Style::Correct);
    assert!(r.finished_marks.is_none());

    let r = t.process_char('x');
    assert_eq!(t.chars_typed(), 2);
    assert_eq!(t.errors_typed(), 1);
    assert_eq!(t.cursor(), (0, 2));
    assert_eq!(t.line_errors(), &vec![1]);
    assert_eq!(r.draw.ch, 'a');
    assert_eq!(r.draw.offset, 1);
    assert_eq!(r.draw.style, Style::Incorrect);
    assert!(r.finished_marks.is_none());
}

#[test]
fn backspace_reconciles_most_recent_mark() {
    let mut t = cat_session();
    t.process_char('c');
    t.process_char('x');

    let cmd = t.process_backspace().expect("not at line start");
    assert_eq!(t.chars_typed(), 1);
    assert_eq!(t.errors_typed(), 0);
    assert_eq!(t.cursor(), (0, 1));
    assert!(t.line_errors().is_empty());
    assert_eq!(cmd.offset, 1);
    assert_eq!(cmd.ch, 'a');
    assert_eq!(cmd.style, Style::Neutral);
}

#[test]
fn backspace_at_line_start_is_noop() {
    let mut t = cat_session();
    assert!(t.process_backspace().is_none());
    assert_eq!(t.chars_typed(), 0);
    assert_eq!(t.errors_typed(), 0);
    assert_eq!(t.cursor(), (0, 0));
}

#[test]
fn backspace_without_mark_keeps_errors() {
    let mut t = cat_session();
    t.process_char('x');
    t.process_char('a');
    assert_eq!(t.errors_typed(), 1);
    assert_eq!(t.line_errors(), &vec![0]);

    // vacating offset 1: the most recent mark sits at 0, so nothing reconciles
    let cmd = t.process_backspace().expect("not at line start");
    assert_eq!(cmd.offset, 1);
    assert_eq!(t.chars_typed(), 1);
    assert_eq!(t.errors_typed(), 1);
    assert_eq!(t.line_errors(), &vec![0]);
}

#[test]
fn completing_the_line_rotates_the_window() {
    let mut t = cat_session();
    for ch in ['c', 'a', 't'] {
        let r = t.process_char(ch);
        assert!(r.finished_marks.is_none());
    }
    assert_eq!(t.cursor(), (0, 3));

    // the space past the last word completes the line
    let r = t.process_char(' ');
    let marks = r.finished_marks.expect("line advance fires");
    assert!(marks.is_empty());
    assert_eq!(r.draw.ch, ' ');
    assert_eq!(r.draw.style, Style::Correct);
    assert_eq!(t.cursor(), (0, 0));
    assert_eq!(t.cursor_index(), 0);
    assert!(t.line_errors().is_empty());
    // the rotation itself leaves the counters alone
    assert_eq!(t.chars_typed(), 4);
    assert_eq!(t.errors_typed(), 0);
    // the finished line moved to the front slot, the window kept its depth
    assert_eq!(t.lines().len(), 3);
    assert_eq!(t.lines()[0], vec!["cat".to_string()]);
    assert_eq!(t.lines()[1], vec!["cat".to_string()]);
}

#[test]
fn mismatched_space_shows_underscore_and_hands_marks_out() {
    let mut t = cat_session();
    t.process_char('c');
    t.process_char('a');
    t.process_char('t');

    let r = t.process_char('x');
    assert_eq!(r.draw.ch, '_');
    assert_eq!(r.draw.style, Style::Incorrect);
    assert_eq!(t.errors_typed(), 1);
    let marks = r.finished_marks.expect("line advance fires");
    assert_eq!(marks, vec![3]);
    // the new line starts unmarked, the error stays counted
    assert!(t.line_errors().is_empty());
    assert_eq!(t.chars_typed(), 4);
    assert_eq!(t.errors_typed(), 1);
}

#[test]
fn typed_then_erased_returns_to_start() {
    let mut t = cat_session();
    t.process_char('x');
    t.process_char('y');
    t.process_backspace();
    t.process_backspace();
    assert_eq!(t.cursor(), (0, 0));
    assert_eq!(t.cursor_index(), 0);
    assert_eq!(t.chars_typed(), 0);
    assert_eq!(t.errors_typed(), 0);
    assert!(t.line_errors().is_empty());
}

#[test]
fn escape_finishes_towards_menu() {
    let mut t = cat_session();
    match t.handle_key(Key::Esc) {
        StepResult::Finished(TypingTestReturn::Back) => {}
        _ => panic!("escape must end the session towards the menu"),
    }
    assert!(!t.is_active());
}

#[test]
fn tab_finishes_towards_restart() {
    let mut t = cat_session();
    match t.handle_key(Key::Tab) {
        StepResult::Finished(TypingTestReturn::Restart) => {}
        _ => panic!("tab must end the session towards a restart"),
    }
    assert!(!t.is_active());
}

#[test]
fn unknown_keys_are_ignored() {
    let mut t = cat_session();
    match t.handle_key(Key::Other) {
        StepResult::Ignored => {}
        _ => panic!("other keys mean nothing to the session"),
    }
    match t.handle_key(Key::Enter) {
        StepResult::Ignored => {}
        _ => panic!("enter means nothing to the session"),
    }
    assert_eq!(t.chars_typed(), 0);
    assert!(t.is_active());
}

#[test]
fn handle_key_types_characters() {
    let mut t = cat_session();
    match t.handle_key(Key::Char('c')) {
        StepResult::Typed(r) => {
            assert_eq!(r.draw.ch, 'c');
            assert_eq!(r.draw.style, Style::Correct);
        }
        _ => panic!("a character key types"),
    }
    match t.handle_key(Key::Backspace) {
        StepResult::Erased(Some(cmd)) => {
            assert_eq!(cmd.offset, 0);
            assert_eq!(cmd.style, Style::Neutral);
        }
        _ => panic!("backspace erases"),
    }
}

#[test]
fn session_flow_always_returns_to_the_menu() {
    let bank = vec!["cat".to_string(), "dog".to_string()];
    let g = typing_trainer::session::run(&bank, &vec![Key::Esc]);
    assert_eq!(g, GameState::MainMenu);

    let keys = vec![Key::Char('c'), Key::Char('x'), Key::Backspace, Key::Tab, Key::Esc];
    let g = typing_trainer::session::run(&bank, &keys);
    assert_eq!(g, GameState::MainMenu);

    // events running out also hands control back to the menu
    let g = typing_trainer::session::run(&bank, &vec![Key::Char('c')]);
    assert_eq!(g, GameState::MainMenu);
}
