//! The vocabulary model: entries with one or more senses each.

use vstd::prelude::*;
use crate::text::views;

verus! {

/// One sense of an entry: a meaning, with synonyms and an example where given.
#[derive(Debug, Clone)]
pub struct WordInfo {
    pub meaning: String,
    pub synos: Option<Vec<String>>,
    pub example: Option<String>,
}

/// One entry: the headword asked for, and its senses in order.
#[derive(Debug, Clone)]
pub struct Word {
    pub word: String,
    pub info: Vec<WordInfo>,
}

/// The whole word list of a session, in the order it was loaded.
#[derive(Debug, Clone)]
pub struct Voca {
    pub voca: Vec<Word>,
}

/// What a sense holds, as characters.
pub struct SenseView {
    pub meaning: Seq<char>,
    pub synos: Option<Seq<Seq<char>>>,
    pub example: Option<Seq<char>>,
}

/// What an entry holds, as characters.
pub struct EntryView {
    pub headword: Seq<char>,
    pub senses: Seq<SenseView>,
}

impl View for WordInfo {
    type V = SenseView;

    open spec fn view(&self) -> SenseView {
        SenseView {
            meaning: self.meaning@,
            synos: match self.synos {
                Some(v) => Some(views(v@)),
                None => None,
            },
            example: match self.example {
                Some(e) => Some(e@),
                None => None,
            },
        }
    }
}

/// The views of a run of senses.
pub open spec fn sense_views(s: Seq<WordInfo>) -> Seq<SenseView> {
    s.map_values(|w: WordInfo| w@)
}

impl View for Word {
    type V = EntryView;

    open spec fn view(&self) -> EntryView {
        EntryView { headword: self.word@, senses: sense_views(self.info@) }
    }
}

impl View for Voca {
    type V = Seq<EntryView>;

    open spec fn view(&self) -> Seq<EntryView> {
        self.voca@.map_values(|w: Word| w@)
    }
}

impl Voca {
    /// The number of entries.
    pub fn len(&self) -> (r: usize)
        ensures
            r == self@.len(),
    {
        self.voca.len()
    }
}

} // verus!
