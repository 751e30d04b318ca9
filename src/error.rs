//! The errors that end a session.

use vstd::prelude::*;

verus! {

/// `std::io::Error`, carried unopened by `VrotErr::IOErr`.
#[verifier::external_type_specification]
#[verifier::external_body]
pub struct ExIoError(std::io::Error);

/// Why a session ended early. Each of these ends the program with a
/// diagnostic; none is retried.
#[derive(Debug)]
pub enum VrotErr {
    /// A file could not be opened or read.
    IOErr(std::io::Error),
    /// The line editor could not be set up.
    RustylineInitFailed,
    /// The line editor failed while reading, other than by interrupt or end of input.
    RustylineInternalErr,
    /// The document did not parse into a word list.
    TomlParseFailed,
    /// The document parsed, but holds no entry to ask for.
    EmptyVoca,
}

} // verus!
