//! The failures a lookup can report.

use vstd::prelude::*;
use vstd::string::*;

verus! {

/// Why a lookup produced no transcription.
///
/// Every failure is reported to the caller; none of them ends the program.
#[derive(Debug, PartialEq, Eq)]
pub enum LookupError {
    /// The dictionary source could not be read; carries the reader's report.
    DictionarySourceError(String),
    /// The source was read but is not a dictionary document, or holds no
    /// word list; carries a description of the fault.
    DictionaryFormatError(String),
    /// The dictionary is sound but has no entry for the word; carries the
    /// query exactly as the caller gave it.
    WordNotFoundError(String),
}

/// Mathematical model of a [`LookupError`]: the same three cases over
/// sequences of characters.
pub enum LookupFailure {
    Source(Seq<char>),
    Format(Seq<char>),
    NotFound(Seq<char>),
}

impl LookupFailure {
    /// The sentence shown to the user for this failure.
    pub open spec fn message(self) -> Seq<char> {
        match self {
            LookupFailure::Source(detail) => detail,
            LookupFailure::Format(detail) => detail,
            LookupFailure::NotFound(word) => "Word '"@ + word + "' not found."@,
        }
    }
}

impl View for LookupError {
    type V = LookupFailure;

    open spec fn view(&self) -> LookupFailure {
        match self {
            LookupError::DictionarySourceError(detail) => LookupFailure::Source(detail@),
            LookupError::DictionaryFormatError(detail) => LookupFailure::Format(detail@),
            LookupError::WordNotFoundError(word) => LookupFailure::NotFound(word@),
        }
    }
}

/// Model of what a lookup hands back: the transcription, or the failure.
pub type Answer = Result<Seq<char>, LookupFailure>;

/// The model of the outcome of a lookup.
pub open spec fn answer_view(outcome: Result<String, LookupError>) -> Answer {
    match outcome {
        Ok(transcription) => Ok(transcription@),
        Err(failure) => Err(failure@),
    }
}

impl Clone for LookupError {
    fn clone(&self) -> (copy: LookupError)
        ensures
            copy@ == self@,
    {
        match self {
            LookupError::DictionarySourceError(detail) => LookupError::DictionarySourceError(
                detail.clone(),
            ),
            LookupError::DictionaryFormatError(detail) => LookupError::DictionaryFormatError(
                detail.clone(),
            ),
            LookupError::WordNotFoundError(word) => LookupError::WordNotFoundError(word.clone()),
        }
    }
}

impl LookupError {
    /// Renders the failure as the sentence shown to the user.
    pub fn message(&self) -> (text: String)
        ensures
            text@ == self@.message(),
    {
        match self {
            LookupError::DictionarySourceError(detail) => detail.clone(),
            LookupError::DictionaryFormatError(detail) => detail.clone(),
            LookupError::WordNotFoundError(word) => {
                String::from_str("Word '").concat(word.as_str()).concat("' not found.")
            },
        }
    }
}

} // verus!
