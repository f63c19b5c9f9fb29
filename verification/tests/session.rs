use typing_trainer::engine::{Outcome, Policy, SessionError, SessionState};

fn chars_of(s: &str) -> Vec<char> {
    s.chars().collect()
}

#[test]
fn empty_text_is_rejected() {
    let r = SessionState::initialize(Vec::new(), Policy::Relaxed);
    assert!(matches!(r, Err(SessionError::EmptyText)));
}

#[test]
fn fresh_session_starts_at_zero() {
    let s = SessionState::initialize(chars_of("cat"), Policy::Relaxed).unwrap();
    assert_eq!(s.expected_char(), Some('c'));
    assert!(!s.is_complete());
}

#[test]
fn scenario_relaxed_full_run() {
    // text "cat", relaxed policy, keystrokes c-a-t: all correct, complete.
    let mut s = SessionState::initialize(chars_of("cat"), Policy::Relaxed).unwrap();
    let mut outcomes = Vec::new();
    for k in ['c', 'a', 't'] {
        outcomes.push(s.submit_keystroke(k).unwrap());
    }
    assert_eq!(
        outcomes,
        vec![Outcome::Correct, Outcome::Correct, Outcome::Correct]
    );
    assert!(s.is_complete());
    assert_eq!(s.expected_char(), None);
}

#[test]
fn scenario_strict_case_mismatch() {
    // text "Cat", strict policy: a lowercase 'c' is incorrect and the
    // cursor stays at the start.
    let mut s = SessionState::initialize(chars_of("Cat"), Policy::Strict).unwrap();
    let first = s.submit_keystroke('c').unwrap();
    assert_eq!(first, Outcome::Incorrect);
    assert_eq!(s.expected_char(), Some('C'));
    assert!(!s.is_complete());
}

#[test]
fn relaxed_accepts_either_case() {
    let s = SessionState::initialize(chars_of("Cat"), Policy::Relaxed).unwrap();
    assert_eq!(s.classify('C'), Outcome::Correct);
    assert_eq!(s.classify('c'), Outcome::Correct);
    assert_eq!(s.classify('x'), Outcome::Incorrect);

    let t = SessionState::initialize(chars_of("cat"), Policy::Relaxed).unwrap();
    assert_eq!(t.classify('C'), Outcome::Correct);
    assert_eq!(t.classify('c'), Outcome::Correct);
}

#[test]
fn strict_accepts_exact_case_only() {
    let s = SessionState::initialize(chars_of("Cat"), Policy::Strict).unwrap();
    assert_eq!(s.classify('C'), Outcome::Correct);
    assert_eq!(s.classify('c'), Outcome::Incorrect);
    assert_eq!(s.classify('a'), Outcome::Incorrect);
}

#[test]
fn relaxed_non_letter_needs_exact_match() {
    let s = SessionState::initialize(chars_of("7!"), Policy::Relaxed).unwrap();
    assert_eq!(s.classify('7'), Outcome::Correct);
    assert_eq!(s.classify('6'), Outcome::Incorrect);
    assert_eq!(s.classify('!'), Outcome::Incorrect);
}

#[test]
fn classify_is_pure() {
    // The same state and input judged twice give the same outcome, and the
    // state is unchanged in between.
    let s = SessionState::initialize(chars_of("ab"), Policy::Relaxed).unwrap();
    let first = s.classify('a');
    let second = s.classify('a');
    assert_eq!(first, second);
    assert_eq!(s.expected_char(), Some('a'));
    assert!(!s.is_complete());
}

#[test]
fn incorrect_keystroke_keeps_cursor() {
    let mut s = SessionState::initialize(chars_of("ab"), Policy::Relaxed).unwrap();
    assert_eq!(s.submit_keystroke('x').unwrap(), Outcome::Incorrect);
    assert_eq!(s.expected_char(), Some('a'));
    assert_eq!(s.submit_keystroke('a').unwrap(), Outcome::Correct);
    assert_eq!(s.expected_char(), Some('b'));
}

#[test]
fn advance_moves_only_on_correct() {
    let mut s = SessionState::initialize(chars_of("ab"), Policy::Strict).unwrap();
    s.advance(Outcome::Incorrect);
    assert_eq!(s.expected_char(), Some('a'));
    s.advance(Outcome::Correct);
    assert_eq!(s.expected_char(), Some('b'));
}

#[test]
fn completed_session_rejects_keystrokes() {
    let mut s = SessionState::initialize(chars_of("a"), Policy::Strict).unwrap();
    assert_eq!(s.submit_keystroke('a').unwrap(), Outcome::Correct);
    assert!(s.is_complete());
    let r = s.submit_keystroke('a');
    assert!(matches!(r, Err(SessionError::AlreadyComplete)));
    assert!(s.is_complete());
    assert_eq!(s.expected_char(), None);
}
