//! The quiz loop as a state machine: the caller reads the lines and prints
//! the text; the machine decides what comes next.

use vstd::prelude::*;
use crate::draw::draw_index;
use crate::error::VrotErr;
use crate::render::{banner, display_voca_word, senses_text, show_answer};
use crate::text::str_eq;
use crate::voca::{EntryView, Voca};

verus! {

/// Where the quiz stands.
#[derive(PartialEq, Eq, Structural, Clone, Copy, Debug)]
pub enum QuizState {
    /// About to draw an entry and show its headword.
    Prompting,
    /// A headword is shown; waiting for the answer to it.
    AwaitingResponse,
    /// The session is over.
    Terminated,
}

/// What reading one line from the user gave.
#[derive(Clone, Debug)]
pub enum ReadOutcome {
    /// A line of text, without its line ending.
    Line(String),
    /// The user interrupted the prompt.
    Interrupted,
    /// The input ended.
    Eof,
    /// The line editor failed.
    Failed,
}

/// How an answer line is understood.
#[derive(PartialEq, Eq, Structural, Clone, Copy, Debug)]
pub enum Response {
    /// The user knows the word: go on to the next one.
    Known,
    /// The user wants to stop.
    Quit,
    /// Anything else: show the senses.
    Reveal,
}

/// `"q"` and `"quit"` stop, `"y"` and `"Y"` mean known, case-sensitively;
/// every other line, the empty one included, asks for the senses.
pub open spec fn response_of(line: Seq<char>) -> Response {
    if line == "q"@ || line == "quit"@ {
        Response::Quit
    } else if line == "y"@ || line == "Y"@ {
        Response::Known
    } else {
        Response::Reveal
    }
}

/// Classifies an answer line.
pub fn classify(line: &str) -> (r: Response)
    ensures
        r == response_of(line@),
{
    if str_eq(line, "q") || str_eq(line, "quit") {
        Response::Quit
    } else if str_eq(line, "y") || str_eq(line, "Y") {
        Response::Known
    } else {
        Response::Reveal
    }
}

/// The state after an answer: a stop, an interrupt, the end of input or a
/// failure end the quiz; any other line leads to the next prompt.
pub open spec fn next_state(o: ReadOutcome) -> QuizState {
    match o {
        ReadOutcome::Line(l) => if response_of(l@) is Quit {
            QuizState::Terminated
        } else {
            QuizState::Prompting
        },
        _ => QuizState::Terminated,
    }
}

/// The text shown after an answer: the senses of the entry when the line
/// asks for them, nothing otherwise.
pub open spec fn reply_text(senses: Seq<crate::voca::SenseView>, o: ReadOutcome) -> Seq<char> {
    match o {
        ReadOutcome::Line(l) => if response_of(l@) is Reveal {
            senses_text(senses)
        } else {
            Seq::empty()
        },
        _ => Seq::empty(),
    }
}

/// What a quiz holds: the entries, the entry last shown, and the state.
pub struct QuizView {
    pub entries: Seq<EntryView>,
    pub current: nat,
    pub state: QuizState,
}

/// A quiz over a word list that is never empty.
pub struct Quiz {
    voca: Voca,
    current: usize,
    state: QuizState,
}

impl View for Quiz {
    type V = QuizView;

    closed spec fn view(&self) -> QuizView {
        QuizView { entries: self.voca@, current: self.current as nat, state: self.state }
    }
}

impl Quiz {
    /// The word list has an entry, and the current index is one of them.
    pub closed spec fn well_formed(&self) -> bool {
        self.voca@.len() > 0 && self.current < self.voca@.len()
    }

    /// Starts a quiz over `voca`, which must hold an entry.
    pub fn new(voca: Voca) -> (r: Result<Quiz, VrotErr>)
        ensures
            r is Ok <==> voca@.len() > 0,
            r matches Ok(q) ==> q.well_formed() && q@.entries == voca@ && q@.state
                == QuizState::Prompting,
            r matches Err(e) ==> e is EmptyVoca,
    {
        if voca.len() == 0 {
            Err(VrotErr::EmptyVoca)
        } else {
            Ok(Quiz { voca, current: 0, state: QuizState::Prompting })
        }
    }

    /// Where the quiz stands.
    pub fn state(&self) -> (r: QuizState)
        ensures
            r == self@.state,
    {
        self.state
    }

    /// The index of the entry last shown.
    pub fn current(&self) -> (r: usize)
        ensures
            r == self@.current,
    {
        self.current
    }

    /// The number of entries.
    pub fn len(&self) -> (r: usize)
        ensures
            r == self@.entries.len(),
    {
        self.voca.len()
    }

    /// Shows entry `idx`: returns its banner and waits for the answer.
    pub fn prompt_at(&mut self, idx: usize) -> (r: String)
        requires
            old(self).well_formed(),
            old(self)@.state == QuizState::Prompting,
            idx < old(self)@.entries.len(),
        ensures
            final(self).well_formed(),
            final(self)@ == (QuizView {
                entries: old(self)@.entries,
                current: idx as nat,
                state: QuizState::AwaitingResponse,
            }),
            r@ == banner(old(self)@.entries[idx as int].headword),
    {
        self.current = idx;
        self.state = QuizState::AwaitingResponse;
        display_voca_word(&self.voca, idx)
    }

    /// Draws an entry at random, afresh each time, and shows it as
    /// `prompt_at` does. The index drawn is always one of the entries.
    pub fn prompt(&mut self) -> (r: String)
        requires
            old(self).well_formed(),
            old(self)@.state == QuizState::Prompting,
        ensures
            final(self).well_formed(),
            final(self)@.entries == old(self)@.entries,
            final(self)@.current < old(self)@.entries.len(),
            final(self)@.state == QuizState::AwaitingResponse,
            r@ == banner(old(self)@.entries[final(self)@.current as int].headword),
    {
        let idx = draw_index(self.voca.len());
        self.prompt_at(idx)
    }

    /// Takes the answer to the entry shown. Returns the text to show next,
    /// or the error that ends the session when the line editor failed.
    pub fn respond(&mut self, outcome: &ReadOutcome) -> (r: Result<String, VrotErr>)
        requires
            old(self).well_formed(),
            old(self)@.state == QuizState::AwaitingResponse,
        ensures
            final(self).well_formed(),
            final(self)@.entries == old(self)@.entries,
            final(self)@.current == old(self)@.current,
            final(self)@.state == next_state(*outcome),
            r is Err <==> outcome is Failed,
            r matches Ok(t) ==> t@ == reply_text(
                old(self)@.entries[old(self)@.current as int].senses,
                *outcome,
            ),
            r matches Err(e) ==> e is RustylineInternalErr,
    {
        match outcome {
            ReadOutcome::Line(line) => match classify(line.as_str()) {
                Response::Quit => {
                    self.state = QuizState::Terminated;
                    Ok(String::new())
                },
                Response::Known => {
                    self.state = QuizState::Prompting;
                    Ok(String::new())
                },
                Response::Reveal => {
                    self.state = QuizState::Prompting;
                    Ok(show_answer(&self.voca, self.current))
                },
            },
            ReadOutcome::Interrupted | ReadOutcome::Eof => {
                self.state = QuizState::Terminated;
                Ok(String::new())
            },
            ReadOutcome::Failed => {
                self.state = QuizState::Terminated;
                Err(VrotErr::RustylineInternalErr)
            },
        }
    }
}

} // verus!
