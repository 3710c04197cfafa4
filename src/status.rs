use vstd::prelude::*;
use vstd::string::*;

verus! {

/// Outcome of comparing one guessed letter against the secret word.
#[derive(Clone, Copy, Debug, PartialEq, Eq, Structural)]
pub enum LetterStatus {
    Correct,
    Wrong,
    WrongPosition,
}

impl LetterStatus {
    /// How much a status tells about a letter: `Wrong < WrongPosition < Correct`.
    pub open spec fn spec_rank(self) -> nat {
        match self {
            LetterStatus::Wrong => 0,
            LetterStatus::WrongPosition => 1,
            LetterStatus::Correct => 2,
        }
    }

    pub fn rank(&self) -> (r: u8)
        ensures
            r as nat == self.spec_rank(),
    {
        match self {
            LetterStatus::Wrong => 0,
            LetterStatus::WrongPosition => 1,
            LetterStatus::Correct => 2,
        }
    }
}

/// Why a guess was turned away without being recorded.
#[derive(Clone, Copy, Debug, PartialEq, Eq, Structural)]
pub enum WordErrorStatus {
    WordTooLong,
    WordDoesNotExist,
    GameOver,
}

/// The text shown to the player for each rejection.
pub open spec fn error_message(e: WordErrorStatus) -> Seq<char> {
    match e {
        WordErrorStatus::GameOver => "Game over!"@,
        WordErrorStatus::WordDoesNotExist => "This word does not exist!"@,
        WordErrorStatus::WordTooLong => "Only 5 letter words are accepted"@,
    }
}

impl WordErrorStatus {
    pub fn to_string(&self) -> (r: String)
        ensures
            r@ == error_message(*self),
    {
        match self {
            WordErrorStatus::GameOver => String::from_str("Game over!"),
            WordErrorStatus::WordDoesNotExist => String::from_str("This word does not exist!"),
            WordErrorStatus::WordTooLong => String::from_str("Only 5 letter words are accepted"),
        }
    }
}

} // verus!
