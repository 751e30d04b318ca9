use vrot::{
    classify, display_voca_word, rand, show_answer, HashSet, Quiz, QuizState, ReadOutcome,
    Response, Voca, VrotErr, Word, WordInfo,
};

fn word(w: &str, meaning: &str) -> Word {
    Word {
        word: w.to_string(),
        info: vec![WordInfo {
            meaning: meaning.to_string(),
            synos: Some(vec!["alike".to_string()]),
            example: None,
        }],
    }
}

fn sample() -> Voca {
    Voca {
        voca: vec![word("first", "one"), word("second", "two"), word("third", "three")],
    }
}

fn line(s: &str) -> ReadOutcome {
    ReadOutcome::Line(s.to_string())
}

#[test]
fn classify_answers() {
    assert_eq!(classify("y"), Response::Known);
    assert_eq!(classify("Y"), Response::Known);
    assert_eq!(classify("q"), Response::Quit);
    assert_eq!(classify("quit"), Response::Quit);
    assert_eq!(classify(""), Response::Reveal);
    assert_eq!(classify("maybe"), Response::Reveal);
    assert_eq!(classify("yes"), Response::Reveal);
    assert_eq!(classify("Q"), Response::Reveal);
    assert_eq!(classify("QUIT"), Response::Reveal);
}

#[test]
fn empty_word_list_is_refused() {
    assert!(matches!(Quiz::new(Voca { voca: vec![] }), Err(VrotErr::EmptyVoca)));
}

#[test]
fn new_quiz_is_prompting() {
    let quiz = Quiz::new(sample()).unwrap();
    assert_eq!(quiz.state(), QuizState::Prompting);
    assert_eq!(quiz.len(), 3);
}

#[test]
fn prompt_at_shows_banner() {
    let voca = sample();
    let mut quiz = Quiz::new(voca.clone()).unwrap();
    let shown = quiz.prompt_at(1);
    assert_eq!(shown, display_voca_word(&voca, 1));
    assert_eq!(quiz.current(), 1);
    assert_eq!(quiz.state(), QuizState::AwaitingResponse);
}

#[test]
fn draws_stay_in_range() {
    let voca = sample();
    let mut quiz = Quiz::new(voca.clone()).unwrap();
    for _ in 0..200 {
        let shown = quiz.prompt();
        assert!(quiz.current() < 3);
        assert_eq!(shown, display_voca_word(&voca, quiz.current()));
        let reply = quiz.respond(&line("y")).unwrap();
        assert_eq!(reply, "");
    }
}

#[test]
fn single_entry_always_drawn() {
    let mut quiz = Quiz::new(Voca { voca: vec![word("solo", "alone")] }).unwrap();
    for _ in 0..20 {
        quiz.prompt();
        assert_eq!(quiz.current(), 0);
        quiz.respond(&line("Y")).unwrap();
    }
}

#[test]
fn known_answer_shows_nothing_and_prompts_again() {
    let mut quiz = Quiz::new(sample()).unwrap();
    quiz.prompt_at(2);
    let reply = quiz.respond(&line("y")).unwrap();
    assert_eq!(reply, "");
    assert_eq!(quiz.state(), QuizState::Prompting);
}

#[test]
fn quit_ends_the_quiz() {
    for input in ["q", "quit"] {
        let mut quiz = Quiz::new(sample()).unwrap();
        quiz.prompt_at(0);
        let reply = quiz.respond(&line(input)).unwrap();
        assert_eq!(reply, "");
        assert_eq!(quiz.state(), QuizState::Terminated);
    }
}

#[test]
fn interrupt_and_eof_end_cleanly() {
    for outcome in [ReadOutcome::Interrupted, ReadOutcome::Eof] {
        let mut quiz = Quiz::new(sample()).unwrap();
        quiz.prompt_at(0);
        assert_eq!(quiz.respond(&outcome).unwrap(), "");
        assert_eq!(quiz.state(), QuizState::Terminated);
    }
}

#[test]
fn editor_failure_is_an_error() {
    let mut quiz = Quiz::new(sample()).unwrap();
    quiz.prompt_at(0);
    assert!(matches!(
        quiz.respond(&ReadOutcome::Failed),
        Err(VrotErr::RustylineInternalErr)
    ));
    assert_eq!(quiz.state(), QuizState::Terminated);
}

#[test]
fn other_answers_reveal_the_senses() {
    let voca = sample();
    for input in ["", "maybe", "n"] {
        let mut quiz = Quiz::new(voca.clone()).unwrap();
        quiz.prompt_at(1);
        let reply = quiz.respond(&line(input)).unwrap();
        assert_eq!(reply, show_answer(&voca, 1));
        assert_eq!(reply, "  Info 1\n  Meaning: two\n  Synonyms: alike\n\n");
        assert_eq!(quiz.state(), QuizState::Prompting);
        assert_eq!(quiz.current(), 1);
    }
}

#[test]
fn rand_stays_below_limit() {
    for limit in [1usize, 2, 7, 1000] {
        for _ in 0..50 {
            assert!(rand(limit) < limit);
        }
    }
}

#[test]
fn index_set_tracks_items() {
    let mut set = HashSet::new();
    assert!(!set.contains(3));
    set.insert(3);
    set.insert(5);
    set.insert(3);
    assert!(set.contains(3));
    assert!(set.contains(5));
    assert!(!set.contains(4));
    set.clear();
    assert!(!set.contains(3));
    assert!(!set.contains(5));
}
