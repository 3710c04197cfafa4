use vstd::prelude::*;

use crate::knowledge::absorb;
use crate::status::{LetterStatus, WordErrorStatus};

verus! {

/// Number of letters in every word of the game.
pub const WORD_LEN: usize = 5;

/// Number of guesses a session accepts.
pub const MAX_ATTEMPTS: usize = 6;

/// The abstract state of one game session.
pub struct SessionModel {
    /// The word to guess.
    pub secret: Seq<char>,
    /// The accepted guesses, oldest first.
    pub attempts: Seq<Seq<char>>,
    /// Words that may be chosen as the secret.
    pub words_to_guess: Seq<Seq<char>>,
    /// Further words accepted as guesses.
    pub available_words: Seq<Seq<char>>,
    /// Index of the next secret to pick from `words_to_guess`.
    pub word_index: nat,
    /// Best status seen so far for each guessed letter.
    pub knowledge: Map<char, LetterStatus>,
}

impl SessionModel {
    /// A guess is accepted only if it is in one of the two word lists.
    pub open spec fn is_known_word(self, w: Seq<char>) -> bool {
        self.available_words.contains(w) || self.words_to_guess.contains(w)
    }

    /// The session invariant.
    pub open spec fn wf(self) -> bool {
        &&& self.secret.len() == WORD_LEN
        &&& 1 <= self.word_index <= self.words_to_guess.len()
        &&& self.secret == self.words_to_guess[self.word_index - 1]
        &&& self.attempts.len() <= MAX_ATTEMPTS
        &&& forall|i: int|
            0 <= i < self.attempts.len() ==> (#[trigger] self.attempts[i]).len() == WORD_LEN
                && self.is_known_word(self.attempts[i])
    }
}

/// Feedback for position `i` of `guess` against `secret`.
pub open spec fn letter_status(secret: Seq<char>, guess: Seq<char>, i: int) -> LetterStatus {
    if guess[i] == secret[i] {
        LetterStatus::Correct
    } else if secret.contains(guess[i]) {
        LetterStatus::WrongPosition
    } else {
        LetterStatus::Wrong
    }
}

/// The (letter, status) pairs of a round, in guess order.
pub open spec fn changelog(secret: Seq<char>, guess: Seq<char>) -> Seq<(char, LetterStatus)> {
    Seq::new(WORD_LEN as nat, |i: int| (guess[i], letter_status(secret, guess, i)))
}

/// Why `w` is turned away in state `m`, if it is; the first failing check wins.
pub open spec fn rejection(m: SessionModel, w: Seq<char>) -> Option<WordErrorStatus> {
    if w.len() != WORD_LEN {
        Some(WordErrorStatus::WordTooLong)
    } else if m.attempts.len() >= MAX_ATTEMPTS {
        Some(WordErrorStatus::GameOver)
    } else if !m.is_known_word(w) {
        Some(WordErrorStatus::WordDoesNotExist)
    } else {
        None
    }
}

/// What submitting `w` in state `m` returns: whether it won, and the round's feedback.
pub open spec fn guess_outcome(m: SessionModel, w: Seq<char>) -> Result<
    (bool, Seq<(char, LetterStatus)>),
    WordErrorStatus,
> {
    match rejection(m, w) {
        Some(e) => Err(e),
        None => Ok((w == m.secret, changelog(m.secret, w))),
    }
}

/// The state after submitting `w` in state `m`.
pub open spec fn after_guess(m: SessionModel, w: Seq<char>) -> SessionModel {
    match rejection(m, w) {
        Some(_) => m,
        None => SessionModel {
            attempts: m.attempts.push(w),
            knowledge: absorb(m.knowledge, changelog(m.secret, w)),
            ..m
        },
    }
}

/// The state after submitting each of `ws` in turn.
pub open spec fn play(m: SessionModel, ws: Seq<Seq<char>>) -> SessionModel
    decreases ws.len(),
{
    if ws.len() == 0 {
        m
    } else {
        after_guess(play(m, ws.drop_last()), ws.last())
    }
}

} // verus!
