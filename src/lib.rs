//! The round engine of a five-letter word-guessing game: it checks each guess, scores
//! it letter by letter against the secret word, keeps what the player has learnt of
//! each letter, and stops the session after six accepted guesses.
use vstd::prelude::*;

pub mod game;
pub mod knowledge;
pub mod laws;
pub mod rules;
pub mod status;
pub mod text;

pub use game::{ends_session, Game};
pub use status::{LetterStatus, WordErrorStatus};

verus! {

} // verus!
