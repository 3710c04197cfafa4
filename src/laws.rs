use vstd::prelude::*;

use crate::knowledge::{absorb, upgrade};
use crate::rules::{
    after_guess, changelog, guess_outcome, play, rejection, SessionModel, MAX_ATTEMPTS, WORD_LEN,
};
use crate::status::{LetterStatus, WordErrorStatus};

verus! {

/// A guess whose length is not five is refused with `WordTooLong` and changes nothing.
pub proof fn lemma_wrong_length_rejected(m: SessionModel, w: Seq<char>)
    requires
        w.len() != WORD_LEN,
    ensures
        guess_outcome(m, w) == Err::<(bool, Seq<(char, LetterStatus)>), _>(
            WordErrorStatus::WordTooLong,
        ),
        after_guess(m, w) == m,
{
}

/// A five-letter guess in neither word list, made while attempts remain, is refused with
/// `WordDoesNotExist` and changes nothing.
pub proof fn lemma_unknown_word_rejected(m: SessionModel, w: Seq<char>)
    requires
        m.wf(),
        w.len() == WORD_LEN,
        m.attempts.len() < MAX_ATTEMPTS,
        !m.available_words.contains(w),
        !m.words_to_guess.contains(w),
    ensures
        guess_outcome(m, w) == Err::<(bool, Seq<(char, LetterStatus)>), _>(
            WordErrorStatus::WordDoesNotExist,
        ),
        after_guess(m, w) == m,
{
}

/// A refused guess refused again gets the same answer, and neither call records it.
pub proof fn lemma_rejection_idempotent(m: SessionModel, w: Seq<char>)
    requires
        rejection(m, w) is Some,
    ensures
        guess_outcome(after_guess(m, w), w) == guess_outcome(m, w),
        guess_outcome(m, w) is Err,
        after_guess(after_guess(m, w), w) == m,
        after_guess(after_guess(m, w), w).attempts == m.attempts,
{
}

proof fn lemma_play_counts(m: SessionModel, ws: Seq<Seq<char>>, k: int)
    requires
        m.attempts.len() == 0,
        0 <= k <= ws.len(),
        forall|i: int| 0 <= i < ws.len() ==> #[trigger] guess_outcome(play(m, ws.take(i)), ws[i]) is Ok,
    ensures
        play(m, ws.take(k)).attempts.len() == k,
    decreases k,
{
    if k > 0 {
        lemma_play_counts(m, ws, k - 1);
        assert(ws.take(k).drop_last() =~= ws.take(k - 1));
        assert(guess_outcome(play(m, ws.take(k - 1)), ws[k - 1]) is Ok);
    } else {
        assert(ws.take(0) =~= Seq::<Seq<char>>::empty());
    }
}

/// After six accepted guesses in a fresh session, any five-letter guess is refused with
/// `GameOver`, whether or not it is right, and changes nothing.
pub proof fn lemma_guess_cap(m: SessionModel, ws: Seq<Seq<char>>, w: Seq<char>)
    requires
        m.attempts.len() == 0,
        ws.len() == MAX_ATTEMPTS,
        forall|i: int| 0 <= i < ws.len() ==> #[trigger] guess_outcome(play(m, ws.take(i)), ws[i]) is Ok,
        w.len() == WORD_LEN,
    ensures
        play(m, ws).attempts.len() == MAX_ATTEMPTS,
        guess_outcome(play(m, ws), w) == Err::<(bool, Seq<(char, LetterStatus)>), _>(
            WordErrorStatus::GameOver,
        ),
        after_guess(play(m, ws), w) == play(m, ws),
{
    lemma_play_counts(m, ws, ws.len() as int);
    assert(ws.take(ws.len() as int) =~= ws);
}

/// Guessing the secret, while attempts remain, wins with every position `Correct`.
pub proof fn lemma_exact_guess_wins(m: SessionModel, w: Seq<char>)
    requires
        m.wf(),
        m.attempts.len() < MAX_ATTEMPTS,
        w == m.secret,
    ensures
        guess_outcome(m, w) == Ok::<_, WordErrorStatus>(
            (true, Seq::new(WORD_LEN as nat, |i: int| (w[i], LetterStatus::Correct))),
        ),
{
    assert(m.words_to_guess.contains(w)) by {
        assert(m.words_to_guess[m.word_index - 1] == w);
    }
    assert(changelog(m.secret, w) =~= Seq::new(
        WORD_LEN as nat,
        |i: int| (w[i], LetterStatus::Correct),
    ));
}

/// A guess that shares no letter with the secret gets `Wrong` at every position.
pub proof fn lemma_disjoint_guess_all_wrong(secret: Seq<char>, w: Seq<char>)
    requires
        secret.len() == WORD_LEN,
        w.len() == WORD_LEN,
        forall|i: int, j: int| 0 <= i < w.len() && 0 <= j < secret.len() ==> w[i] != secret[j],
    ensures
        changelog(secret, w) == Seq::new(WORD_LEN as nat, |i: int| (w[i], LetterStatus::Wrong)),
{
    assert forall|i: int| 0 <= i < WORD_LEN implies !secret.contains(#[trigger] w[i]) by {
        if secret.contains(w[i]) {
            let j = choose|j: int| 0 <= j < secret.len() && secret[j] == w[i];
            assert(w[i] != secret[j]);
        }
    }
    assert(changelog(secret, w) =~= Seq::new(
        WORD_LEN as nat,
        |i: int| (w[i], LetterStatus::Wrong),
    ));
}

proof fn lemma_absorb_monotone(k: Map<char, LetterStatus>, changes: Seq<(char, LetterStatus)>)
    ensures
        forall|c: char| #[trigger]
            k.contains_key(c) ==> absorb(k, changes).contains_key(c) && absorb(k, changes)[c].spec_rank()
                >= k[c].spec_rank(),
    decreases changes.len(),
{
    if changes.len() > 0 {
        lemma_absorb_monotone(k, changes.drop_last());
        let prev = absorb(k, changes.drop_last());
        assert forall|c: char| #[trigger] prev.contains_key(c) implies upgrade(
            prev,
            changes.last().0,
            changes.last().1,
        ).contains_key(c) && upgrade(prev, changes.last().0, changes.last().1)[c].spec_rank()
            >= prev[c].spec_rank() by {}
    }
}

/// Letter knowledge only gains information: no letter is forgotten, and no letter's status
/// goes down in `Wrong < WrongPosition < Correct`.
pub proof fn lemma_knowledge_only_upgrades(m: SessionModel, w: Seq<char>)
    ensures
        forall|c: char| #[trigger]
            m.knowledge.contains_key(c) ==> after_guess(m, w).knowledge.contains_key(c)
                && after_guess(m, w).knowledge[c].spec_rank() >= m.knowledge[c].spec_rank(),
{
    lemma_absorb_monotone(m.knowledge, changelog(m.secret, w));
}

/// Every submission keeps the session invariant: at most six attempts, each of five letters
/// and in a word list, and the secret unchanged.
pub proof fn lemma_after_guess_keeps_wf(m: SessionModel, w: Seq<char>)
    requires
        m.wf(),
    ensures
        after_guess(m, w).wf(),
        after_guess(m, w).secret == m.secret,
{
    let n = after_guess(m, w);
    if rejection(m, w) is None {
        assert forall|i: int| 0 <= i < n.attempts.len() implies (#[trigger] n.attempts[i]).len()
            == WORD_LEN && n.is_known_word(n.attempts[i]) by {
            if i < m.attempts.len() {
                assert(n.attempts[i] == m.attempts[i]);
            }
        }
    }
}

} // verus!
