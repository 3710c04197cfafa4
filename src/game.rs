use vstd::prelude::*;
use vstd::string::*;

use crate::knowledge::{absorb, lemma_pairs_map_lookup, pairs_map, record, unique_keys};
use crate::rules::{
    after_guess, changelog, guess_outcome, letter_status, SessionModel, MAX_ATTEMPTS,
    WORD_LEN,
};
use crate::status::{LetterStatus, WordErrorStatus};
use crate::text::{chars_of, has_char, lower_of, lowercase};

verus! {

/// The abstract view of a list of words.
pub open spec fn words_view(v: Seq<String>) -> Seq<Seq<char>> {
    v.map_values(|s: String| s@)
}

/// The abstract view of what a submission returns.
pub open spec fn outcome_view(r: Result<(bool, Vec<(char, LetterStatus)>), WordErrorStatus>) -> Result<
    (bool, Seq<(char, LetterStatus)>),
    WordErrorStatus,
> {
    match r {
        Ok((won, changes)) => Ok((won, changes@)),
        Err(e) => Err(e),
    }
}

/// One playthrough: the secret, the guesses so far and what they revealed.
pub struct Game {
    attempts: Vec<String>,
    word: String,
    words_to_guess: Vec<String>,
    available_words: Vec<String>,
    word_index: usize,
    state: Vec<(char, LetterStatus)>,
}

impl View for Game {
    type V = SessionModel;

    closed spec fn view(&self) -> SessionModel {
        SessionModel {
            secret: self.word@,
            attempts: words_view(self.attempts@),
            words_to_guess: words_view(self.words_to_guess@),
            available_words: words_view(self.available_words@),
            word_index: self.word_index as nat,
            knowledge: pairs_map(self.state@),
        }
    }
}

impl Game {
    /// The letter knowledge holds each letter once.
    pub closed spec fn state_ok(&self) -> bool {
        unique_keys(self.state@)
    }

    /// The session invariant.
    pub open spec fn inv(&self) -> bool {
        self@.wf() && self.state_ok()
    }

    /// Starts a session whose secret is `words_to_guess[word_index]`.
    pub fn new(words_to_guess: Vec<String>, available_words: Vec<String>, word_index: usize) -> (g:
        Game)
        requires
            word_index < words_to_guess.len(),
            words_to_guess@[word_index as int]@.len() == WORD_LEN,
        ensures
            g.inv(),
            g@ == (SessionModel {
                secret: words_to_guess@[word_index as int]@,
                attempts: Seq::empty(),
                words_to_guess: words_view(words_to_guess@),
                available_words: words_view(available_words@),
                word_index: word_index as nat + 1,
                knowledge: Map::empty(),
            }),
    {
        let mut game = Game {
            attempts: Vec::new(),
            word: String::new(),
            words_to_guess,
            available_words,
            word_index,
            state: Vec::new(),
        };
        game.start();
        proof {
            assert(words_view(game.attempts@) =~= Seq::empty());
            assert(pairs_map(game.state@) =~= Map::empty());
        }
        game
    }

    fn start(&mut self)
        requires
            old(self).word_index < old(self).words_to_guess.len(),
        ensures
            final(self).word@ == old(self).words_to_guess@[old(self).word_index as int]@,
            final(self).word_index == old(self).word_index + 1,
            final(self).attempts == old(self).attempts,
            final(self).words_to_guess == old(self).words_to_guess,
            final(self).available_words == old(self).available_words,
            final(self).state == old(self).state,
    {
        self.word = self.pick_word();
        self.word_index = self.word_index + 1;
    }

    fn pick_word(&self) -> (r: String)
        requires
            self.word_index < self.words_to_guess.len(),
        ensures
            r@ == self.words_to_guess@[self.word_index as int]@,
    {
        self.words_to_guess[self.word_index].clone()
    }

    /// Whether `word` is in one of the two word lists.
    pub fn is_valid_word(&self, word: String) -> (r: bool)
        ensures
            r == self@.is_known_word(word@),
    {
        let mut i: usize = 0;
        while i < self.available_words.len()
            invariant
                0 <= i <= self.available_words.len(),
                forall|j: int| 0 <= j < i ==> self.available_words@[j]@ != word@,
            decreases self.available_words.len() - i,
        {
            if self.available_words[i] == word {
                proof {
                    assert(self@.available_words[i as int] == word@);
                }
                return true;
            }
            i = i + 1;
        }
        let mut i: usize = 0;
        while i < self.words_to_guess.len()
            invariant
                0 <= i <= self.words_to_guess.len(),
                forall|j: int| 0 <= j < self.available_words.len() ==> self.available_words@[j]@ != word@,
                forall|j: int| 0 <= j < i ==> self.words_to_guess@[j]@ != word@,
            decreases self.words_to_guess.len() - i,
        {
            if self.words_to_guess[i] == word {
                proof {
                    assert(self@.words_to_guess[i as int] == word@);
                }
                return true;
            }
            i = i + 1;
        }
        proof {
            if self@.available_words.contains(word@) {
                let j = choose|j: int| 0 <= j < self@.available_words.len() && self@.available_words[j] == word@;
                assert(self.available_words@[j]@ == word@);
            }
            if self@.words_to_guess.contains(word@) {
                let j = choose|j: int| 0 <= j < self@.words_to_guess.len() && self@.words_to_guess[j] == word@;
                assert(self.words_to_guess@[j]@ == word@);
            }
        }
        false
    }

    /// Submits a guess already in lower case: validates it, records it and scores it.
    pub fn take_a_guess(&mut self, word: String) -> (r: Result<
        (bool, Vec<(char, LetterStatus)>),
        WordErrorStatus,
    >)
        requires
            old(self).inv(),
        ensures
            final(self).inv(),
            final(self)@ == after_guess(old(self)@, word@),
            outcome_view(r) == guess_outcome(old(self)@, word@),
    {
        if word.as_str().unicode_len() != WORD_LEN {
            return Err(WordErrorStatus::WordTooLong);
        }
        if self.attempts.len() >= MAX_ATTEMPTS {
            return Err(WordErrorStatus::GameOver);
        }
        if !self.is_valid_word(word.clone()) {
            return Err(WordErrorStatus::WordDoesNotExist);
        }
        let ghost m = self@;
        self.attempts.push(word.clone());
        proof {
            assert(words_view(self.attempts@) =~= m.attempts.push(word@));
        }
        let chars = chars_of(word.as_str());
        let answer_chars = chars_of(self.word.as_str());
        let ghost cl = changelog(m.secret, word@);
        let mut changes: Vec<(char, LetterStatus)> = Vec::new();
        let mut i: usize = 0;
        while i < WORD_LEN
            invariant
                0 <= i <= WORD_LEN,
                chars@ == word@,
                answer_chars@ == m.secret,
                word@.len() == WORD_LEN,
                m.secret.len() == WORD_LEN,
                cl == changelog(m.secret, word@),
                changes@ == cl.take(i as int),
                unique_keys(self.state@),
                pairs_map(self.state@) == absorb(m.knowledge, cl.take(i as int)),
                self.word == old(self).word,
                self.words_to_guess == old(self).words_to_guess,
                self.available_words == old(self).available_words,
                self.word_index == old(self).word_index,
                words_view(self.attempts@) == m.attempts.push(word@),
            decreases WORD_LEN - i,
        {
            let c = chars[i];
            let st = if c == answer_chars[i] {
                LetterStatus::Correct
            } else if has_char(&answer_chars, c) {
                LetterStatus::WrongPosition
            } else {
                LetterStatus::Wrong
            };
            assert(st == letter_status(m.secret, word@, i as int));
            record(&mut self.state, c, st);
            changes.push((c, st));
            proof {
                assert(cl.take(i + 1).drop_last() =~= cl.take(i as int));
                assert(changes@ =~= cl.take(i + 1));
            }
            i = i + 1;
        }
        proof {
            assert(cl.take(WORD_LEN as int) =~= cl);
            let n = self@;
            assert forall|j: int| 0 <= j < n.attempts.len() implies (#[trigger] n.attempts[j]).len()
                == WORD_LEN && n.is_known_word(n.attempts[j]) by {
                if j < m.attempts.len() {
                    assert(n.attempts[j] == m.attempts[j]);
                }
            }
            assert(self@ == after_guess(m, word@));
        }
        let won = word == self.word;
        Ok((won, changes))
    }

    /// Submits a guess in any case: it is put in lower case and then handled as by
    /// `take_a_guess`.
    pub fn submit_guess(&mut self, raw_word: &str) -> (r: Result<
        (bool, Vec<(char, LetterStatus)>),
        WordErrorStatus,
    >)
        requires
            old(self).inv(),
        ensures
            final(self).inv(),
            final(self)@ == after_guess(old(self)@, lower_of(raw_word@)),
            outcome_view(r) == guess_outcome(old(self)@, lower_of(raw_word@)),
    {
        let word = lowercase(raw_word);
        self.take_a_guess(word)
    }

    /// Whether the session has ended: the secret was guessed or every attempt is used.
    pub fn is_game_over(&self) -> (r: bool)
        requires
            self.inv(),
        ensures
            r == (self@.attempts.contains(self@.secret) || self@.attempts.len() == MAX_ATTEMPTS),
    {
        let mut i: usize = 0;
        while i < self.attempts.len()
            invariant
                0 <= i <= self.attempts.len(),
                forall|j: int| 0 <= j < i ==> self.attempts@[j]@ != self.word@,
            decreases self.attempts.len() - i,
        {
            if self.attempts[i] == self.word {
                proof {
                    assert(self@.attempts[i as int] == self@.secret);
                }
                return true;
            }
            i = i + 1;
        }
        proof {
            if self@.attempts.contains(self@.secret) {
                let j = choose|j: int| 0 <= j < self@.attempts.len() && self@.attempts[j] == self@.secret;
                assert(self.attempts@[j]@ == self.word@);
            }
        }
        self.attempts.len() == MAX_ATTEMPTS
    }

    /// The secret word.
    pub fn secret(&self) -> (r: &String)
        ensures
            r@ == self@.secret,
    {
        &self.word
    }

    /// The accepted guesses, oldest first.
    pub fn attempts(&self) -> (r: &Vec<String>)
        ensures
            words_view(r@) == self@.attempts,
    {
        &self.attempts
    }

    /// The best status seen so far for letter `c`, if it was guessed.
    pub fn letter_knowledge(&self, c: char) -> (r: Option<LetterStatus>)
        requires
            self.inv(),
        ensures
            r == (if self@.knowledge.contains_key(c) {
                Some(self@.knowledge[c])
            } else {
                None
            }),
    {
        proof {
            lemma_pairs_map_lookup(self.state@, c);
        }
        let mut i: usize = 0;
        while i < self.state.len()
            invariant
                0 <= i <= self.state.len(),
                unique_keys(self.state@),
                forall|j: int| 0 <= j < i ==> self.state@[j].0 != c,
            decreases self.state.len() - i,
        {
            if self.state[i].0 == c {
                proof {
                    lemma_pairs_map_lookup(self.state@, c);
                    assert(self.state@[i as int].0 == c);
                }
                return Some(self.state[i].1);
            }
            i = i + 1;
        }
        None
    }
}

/// Whether a submission's result ends the session: a win, or `GameOver`.
pub fn ends_session(r: &Result<(bool, Vec<(char, LetterStatus)>), WordErrorStatus>) -> (b: bool)
    ensures
        b == match r {
            Ok((won, _)) => *won,
            Err(e) => *e == WordErrorStatus::GameOver,
        },
{
    match r {
        Ok((won, _)) => *won,
        Err(WordErrorStatus::GameOver) => true,
        Err(_) => false,
    }
}

} // verus!
