//! The typing-session engine: progress through a fixed practice text,
//! classifying each keystroke against the expected next character under a
//! case-sensitivity policy.

use vstd::prelude::*;

verus! {

/// Case-sensitivity rule applied when a keystroke is judged.
#[derive(Clone, Copy, PartialEq, Eq, Structural, Debug)]
pub enum Policy {
    /// The input must equal the expected character exactly.
    Strict,
    /// The input may also equal the expected character folded to ASCII
    /// lowercase or uppercase.
    Relaxed,
}

/// Judgement of a single keystroke.
#[derive(Clone, Copy, PartialEq, Eq, Structural, Debug)]
pub enum Outcome {
    Correct,
    Incorrect,
}

/// Errors of the session engine.
#[derive(Clone, Copy, PartialEq, Eq, Structural, Debug)]
pub enum SessionError {
    /// The practice text was empty; a session needs at least one character.
    EmptyText,
    /// A keystroke was submitted after the session had already completed.
    AlreadyComplete,
}

/// ASCII lowercase folding: maps 'A'..='Z' to 'a'..='z' and leaves every
/// other character unchanged.
pub open spec fn fold_lower(c: char) -> char {
    if 'A' <= c && c <= 'Z' {
        (((c as u8) + 32) as char)
    } else {
        c
    }
}

/// ASCII uppercase folding: maps 'a'..='z' to 'A'..='Z' and leaves every
/// other character unchanged.
pub open spec fn fold_upper(c: char) -> char {
    if 'a' <= c && c <= 'z' {
        (((c as u8) - 32) as char)
    } else {
        c
    }
}

/// Whether the input character counts as a match for the expected character
/// under the given policy.
pub open spec fn char_matches(policy: Policy, expected: char, input: char) -> bool {
    match policy {
        Policy::Strict => input == expected,
        Policy::Relaxed => input == expected || input == fold_lower(expected) || input
            == fold_upper(expected),
    }
}

/// The outcome that classification assigns to an input character when the
/// given character is expected.
pub open spec fn classification(policy: Policy, expected: char, input: char) -> Outcome {
    if char_matches(policy, expected, input) {
        Outcome::Correct
    } else {
        Outcome::Incorrect
    }
}

/// Executable ASCII lowercase folding.
fn ascii_lower(c: char) -> (r: char)
    ensures
        r == fold_lower(c),
{
    if c >= 'A' && c <= 'Z' {
        (((c as u8) + 32) as char)
    } else {
        c
    }
}

/// Executable ASCII uppercase folding.
fn ascii_upper(c: char) -> (r: char)
    ensures
        r == fold_upper(c),
{
    if c >= 'a' && c <= 'z' {
        (((c as u8) - 32) as char)
    } else {
        c
    }
}

/// One typing session: the fixed practice text, the progress cursor, and the
/// matching policy. The text is never empty and the cursor never runs past
/// its end.
pub struct SessionState {
    text: Vec<char>,
    cursor: usize,
    policy: Policy,
}

impl SessionState {
    /// The practice text as a sequence of characters.
    pub closed spec fn spec_text(self) -> Seq<char> {
        self.text@
    }

    /// The progress cursor: the index of the next character to type.
    pub closed spec fn spec_cursor(self) -> int {
        self.cursor as int
    }

    /// The session's matching policy.
    pub closed spec fn spec_policy(self) -> Policy {
        self.policy
    }

    /// Well-formedness: the text is non-empty and the cursor stays within
    /// `0 ..= text.len()`.
    pub open spec fn inv(self) -> bool {
        &&& self.spec_text().len() > 0
        &&& 0 <= self.spec_cursor() <= self.spec_text().len()
    }

    /// Whether the session is complete: the cursor has reached the end of
    /// the text.
    pub open spec fn spec_complete(self) -> bool {
        self.spec_cursor() == self.spec_text().len()
    }

    /// Starts a session over the given text. An empty text is a
    /// configuration error, never a valid session.
    pub fn initialize(text: Vec<char>, policy: Policy) -> (r: Result<SessionState, SessionError>)
        ensures
            text@.len() == 0 ==> r == Err::<SessionState, SessionError>(SessionError::EmptyText),
            text@.len() > 0 ==> {
                &&& r is Ok
                &&& r->Ok_0.inv()
                &&& r->Ok_0.spec_text() == text@
                &&& r->Ok_0.spec_cursor() == 0
                &&& r->Ok_0.spec_policy() == policy
            },
    {
        if text.len() == 0 {
            Err(SessionError::EmptyText)
        } else {
            Ok(SessionState { text, cursor: 0, policy })
        }
    }

    /// The character the player must type next, or `None` once the session
    /// is complete.
    pub fn expected_char(&self) -> (r: Option<char>)
        requires
            self.inv(),
        ensures
            self.spec_complete() ==> r is None,
            !self.spec_complete() ==> r == Some(self.spec_text()[self.spec_cursor()]),
    {
        if self.cursor < self.text.len() {
            Some(self.text[self.cursor])
        } else {
            None
        }
    }

    /// The progress cursor, for the renderer: how many leading characters
    /// are already typed.
    pub fn cursor(&self) -> (r: usize)
        ensures
            r == self.spec_cursor(),
    {
        self.cursor
    }

    /// The length of the practice text.
    pub fn text_len(&self) -> (r: usize)
        ensures
            r == self.spec_text().len(),
    {
        self.text.len()
    }

    /// Whether the session is complete.
    pub fn is_complete(&self) -> (r: bool)
        requires
            self.inv(),
        ensures
            r == self.spec_complete(),
    {
        self.cursor == self.text.len()
    }

    /// Judges one keystroke against the expected character. Pure: the state
    /// is only read, and the outcome is a function of the policy, the
    /// expected character and the input alone.
    pub fn classify(&self, input: char) -> (r: Outcome)
        requires
            self.inv(),
            !self.spec_complete(),
        ensures
            r == classification(
                self.spec_policy(),
                self.spec_text()[self.spec_cursor()],
                input,
            ),
    {
        let expected = self.text[self.cursor];
        let hit = match self.policy {
            Policy::Strict => input == expected,
            Policy::Relaxed => input == expected || input == ascii_lower(expected) || input
                == ascii_upper(expected),
        };
        if hit {
            Outcome::Correct
        } else {
            Outcome::Incorrect
        }
    }

    /// Applies one judged outcome to the cursor: a correct keystroke advances
    /// it by exactly one, an incorrect one leaves it unchanged. The cursor
    /// never decreases and never leaves `0 ..= text.len()`.
    pub fn advance(&mut self, outcome: Outcome)
        requires
            old(self).inv(),
            !old(self).spec_complete(),
        ensures
            final(self).inv(),
            final(self).spec_text() == old(self).spec_text(),
            final(self).spec_policy() == old(self).spec_policy(),
            outcome == Outcome::Correct ==> final(self).spec_cursor() == old(self).spec_cursor()
                + 1,
            outcome == Outcome::Incorrect ==> final(self).spec_cursor() == old(
                self,
            ).spec_cursor(),
            final(self).spec_cursor() >= old(self).spec_cursor(),
    {
        if outcome == Outcome::Correct {
            // The cursor sits strictly below the text's length, itself a
            // usize, so the increment cannot overflow.
            let len = self.text.len();
            assert(self.cursor < len);
            self.cursor = self.cursor + 1;
        }
    }

    /// Submits one keystroke: classifies it, advances the cursor on a correct
    /// outcome, and returns the outcome. A completed session is terminal:
    /// any further submission is rejected unchanged.
    pub fn submit_keystroke(&mut self, input: char) -> (r: Result<Outcome, SessionError>)
        requires
            old(self).inv(),
        ensures
            final(self).inv(),
            final(self).spec_text() == old(self).spec_text(),
            final(self).spec_policy() == old(self).spec_policy(),
            final(self).spec_cursor() >= old(self).spec_cursor(),
            old(self).spec_complete() ==> {
                &&& r == Err::<Outcome, SessionError>(SessionError::AlreadyComplete)
                &&& final(self).spec_cursor() == old(self).spec_cursor()
            },
            !old(self).spec_complete() ==> {
                let outcome = classification(
                    old(self).spec_policy(),
                    old(self).spec_text()[old(self).spec_cursor()],
                    input,
                );
                &&& r == Ok::<Outcome, SessionError>(outcome)
                &&& (outcome == Outcome::Correct ==> final(self).spec_cursor() == old(
                    self,
                ).spec_cursor() + 1)
                &&& (outcome == Outcome::Incorrect ==> final(self).spec_cursor() == old(
                    self,
                ).spec_cursor())
            },
    {
        if self.is_complete() {
            return Err(SessionError::AlreadyComplete);
        }
        let outcome = self.classify(input);
        self.advance(outcome);
        Ok(outcome)
    }
}

/// Classification is deterministic: two outcomes judged from the same policy,
/// expected character and input are the same outcome.
pub proof fn lemma_classify_deterministic(
    policy: Policy,
    expected: char,
    input: char,
    r1: Outcome,
    r2: Outcome,
)
    requires
        r1 == classification(policy, expected, input),
        r2 == classification(policy, expected, input),
    ensures
        r1 == r2,
{
}

/// The matching rule of each policy: under `Strict` only the exact character
/// matches; under `Relaxed` the exact character and its ASCII lowercase and
/// uppercase foldings match, and nothing else.
pub proof fn lemma_policy_matching(policy: Policy, expected: char, input: char)
    ensures
        policy == Policy::Strict ==> (classification(policy, expected, input) == Outcome::Correct
            <==> input == expected),
        policy == Policy::Relaxed ==> (classification(policy, expected, input) == Outcome::Correct
            <==> (input == expected || input == fold_lower(expected) || input == fold_upper(
            expected,
        ))),
{
}

} // verus!
