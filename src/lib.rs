//! A vocabulary drill: the word list model, the text it renders, the loader's
//! pure steps and the quiz state machine.

pub mod draw;
pub mod error;
pub mod index_set;
pub mod loader;
pub mod quiz;
pub mod render;
pub mod text;
pub mod voca;

pub use draw::rand;
pub use error::VrotErr;
pub use index_set::HashSet;
pub use loader::{concat_sources, split_filenames};
pub use quiz::{classify, Quiz, QuizState, ReadOutcome, Response};
pub use render::{display_voca_word, show_answer, BANNER_WIDTH};
pub use text::join_string;
pub use voca::{Voca, Word, WordInfo};
