use wordle::{ends_session, Game, LetterStatus, WordErrorStatus};

fn words(ws: &[&str]) -> Vec<String> {
    ws.iter().map(|w| w.to_string()).collect()
}

fn statuses(changes: &[(char, LetterStatus)]) -> Vec<LetterStatus> {
    changes.iter().map(|c| c.1).collect()
}

fn crane_game() -> Game {
    Game::new(
        words(&["crane", "slate", "brine"]),
        words(&["lemon", "moist", "bumpy", "pudgy", "fjord", "whisk", "hilly"]),
        0,
    )
}

use LetterStatus::{Correct, Wrong, WrongPosition};

#[test]
fn slate_then_crane() {
    let mut g = crane_game();
    let (won, changes) = g.submit_guess("slate").unwrap();
    assert!(!won);
    let letters: Vec<char> = changes.iter().map(|c| c.0).collect();
    assert_eq!(letters, vec!['s', 'l', 'a', 't', 'e']);
    // 'a' sits at the same position in both words.
    assert_eq!(statuses(&changes), vec![Wrong, Wrong, Correct, Wrong, Correct]);
    let (won, changes) = g.submit_guess("crane").unwrap();
    assert!(won);
    assert_eq!(statuses(&changes), vec![Correct; 5]);
    assert!(g.is_game_over());
}

#[test]
fn apple_lemon() {
    let mut g = Game::new(words(&["apple"]), words(&["lemon"]), 0);
    let (won, changes) = g.submit_guess("lemon").unwrap();
    assert!(!won);
    assert_eq!(
        changes,
        vec![
            ('l', WrongPosition),
            ('e', WrongPosition),
            ('m', Wrong),
            ('o', Wrong),
            ('n', Wrong)
        ]
    );
}

#[test]
fn seventh_guess_is_game_over() {
    let mut g = crane_game();
    for w in ["slate", "brine", "lemon", "moist", "bumpy", "pudgy"] {
        let (won, _) = g.submit_guess(w).unwrap();
        assert!(!won);
    }
    assert_eq!(g.attempts().len(), 6);
    assert!(g.is_game_over());
    let before = g.attempts().clone();
    assert_eq!(g.submit_guess("crane"), Err(WordErrorStatus::GameOver));
    assert_eq!(g.submit_guess("zzzzz"), Err(WordErrorStatus::GameOver));
    assert_eq!(g.attempts(), &before);
    // The length check still comes first.
    assert_eq!(g.submit_guess("cranes"), Err(WordErrorStatus::WordTooLong));
}

#[test]
fn wrong_length_is_rejected() {
    let mut g = crane_game();
    g.submit_guess("slate").unwrap();
    let knowledge_s = g.letter_knowledge('s');
    for w in ["", "cran", "cranes", "ab"] {
        assert_eq!(g.submit_guess(w), Err(WordErrorStatus::WordTooLong));
    }
    assert_eq!(g.attempts(), &words(&["slate"]));
    assert_eq!(g.letter_knowledge('s'), knowledge_s);
    assert_eq!(g.letter_knowledge('c'), None);
}

#[test]
fn length_counts_characters() {
    let mut g = Game::new(words(&["crane"]), words(&["éclat"]), 0);
    let (_, changes) = g.submit_guess("éclat").unwrap();
    assert_eq!(changes[0], ('é', Wrong));
    assert_eq!(changes[1], ('c', WrongPosition));
}

#[test]
fn unknown_word_is_rejected_twice() {
    let mut g = crane_game();
    assert_eq!(g.submit_guess("qwert"), Err(WordErrorStatus::WordDoesNotExist));
    assert_eq!(g.submit_guess("qwert"), Err(WordErrorStatus::WordDoesNotExist));
    assert!(g.attempts().is_empty());
    assert_eq!(g.letter_knowledge('q'), None);
    assert_eq!(g.submit_guess("toolong"), Err(WordErrorStatus::WordTooLong));
    assert_eq!(g.submit_guess("toolong"), Err(WordErrorStatus::WordTooLong));
    assert!(g.attempts().is_empty());
}

#[test]
fn guess_is_case_insensitive() {
    let mut g = crane_game();
    let (won, changes) = g.submit_guess("CrAnE").unwrap();
    assert!(won);
    assert_eq!(changes, vec![('c', Correct), ('r', Correct), ('a', Correct), ('n', Correct), ('e', Correct)]);
    assert_eq!(g.attempts(), &words(&["crane"]));
}

#[test]
fn take_a_guess_does_not_fold_case() {
    let mut g = crane_game();
    assert_eq!(
        g.take_a_guess("CRANE".to_string()),
        Err(WordErrorStatus::WordDoesNotExist)
    );
}

#[test]
fn disjoint_guess_is_all_wrong() {
    let mut g = crane_game();
    let (won, changes) = g.submit_guess("moist").unwrap();
    assert!(!won);
    assert_eq!(statuses(&changes), vec![Wrong; 5]);
}

#[test]
fn knowledge_keeps_best_status() {
    let mut g = crane_game();
    // 'a' at its own position.
    g.submit_guess("slate").unwrap();
    assert_eq!(g.letter_knowledge('a'), Some(Correct));
    assert_eq!(g.letter_knowledge('s'), Some(Wrong));
    // 'a' elsewhere does not lower what is known of it.
    g.submit_guess("whisk").unwrap();
    g.submit_guess("fjord").unwrap();
    assert_eq!(g.letter_knowledge('r'), Some(WrongPosition));
    g.submit_guess("brine").unwrap();
    assert_eq!(g.letter_knowledge('r'), Some(Correct));
    assert_eq!(g.letter_knowledge('n'), Some(Correct));
    assert_eq!(g.letter_knowledge('a'), Some(Correct));
    assert_eq!(g.letter_knowledge('z'), None);
}

#[test]
fn repeated_letter_keeps_best_status() {
    // 'l' appears twice in "hilly": once on the secret's 'l', once elsewhere.
    let mut g = Game::new(words(&["apple"]), words(&["hilly"]), 0);
    let (_, changes) = g.submit_guess("hilly").unwrap();
    assert_eq!(statuses(&changes), vec![Wrong, Wrong, WrongPosition, Correct, Wrong]);
    assert_eq!(g.letter_knowledge('l'), Some(Correct));
}

#[test]
fn secret_comes_from_index() {
    let g = Game::new(words(&["crane", "slate", "brine"]), words(&[]), 2);
    assert_eq!(g.secret(), "brine");
    assert!(g.is_valid_word("crane".to_string()));
    assert!(!g.is_valid_word("lemon".to_string()));
    let g = crane_game();
    assert!(g.is_valid_word("lemon".to_string()));
    assert!(!g.is_valid_word("LEMON".to_string()));
    assert!(!g.is_game_over());
}

#[test]
fn error_messages() {
    assert_eq!(WordErrorStatus::WordTooLong.to_string(), "Only 5 letter words are accepted");
    assert_eq!(WordErrorStatus::WordDoesNotExist.to_string(), "This word does not exist!");
    assert_eq!(WordErrorStatus::GameOver.to_string(), "Game over!");
}

#[test]
fn session_end_decision() {
    assert!(ends_session(&Ok((true, vec![]))));
    assert!(!ends_session(&Ok((false, vec![('a', Wrong)]))));
    assert!(ends_session(&Err(WordErrorStatus::GameOver)));
    assert!(!ends_session(&Err(WordErrorStatus::WordTooLong)));
    assert!(!ends_session(&Err(WordErrorStatus::WordDoesNotExist)));
}
