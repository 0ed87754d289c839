//! The word page: a query buffer, the label that shows its transcription,
//! and the lookup that connects the two.

use crate::dictionary::{loaded_words, lookup_answer, Dictionary};
use crate::error::{answer_view, Answer, LookupError, LookupFailure};
use vstd::prelude::*;
use vstd::string::*;

verus! {

/// Shown while there is nothing to look up.
pub const PLACEHOLDER: &'static str = "IPA translation will appear here.";

/// Put before the message of a failed lookup.
pub const ERROR_PREFIX: &'static str = "Error: ";

/// Model of what reading the dictionary source gave: its bytes, or the
/// reader's report of why there are none.
pub open spec fn source_view(source: Result<Vec<u8>, String>) -> Result<Seq<u8>, Seq<char>> {
    match source {
        Ok(bytes) => Ok(bytes@),
        Err(report) => Err(report@),
    }
}

/// The transcription of `word` according to a dictionary source. A source
/// that could not be read is a source failure; one that is no dictionary is
/// a format failure; a word that a sound dictionary lacks is not found.
pub open spec fn transcription(word: Seq<char>, source: Result<Seq<u8>, Seq<char>>) -> Answer {
    match source {
        Err(report) => Err(LookupFailure::Source(report)),
        Ok(bytes) => match loaded_words(bytes) {
            Err(failure) => Err(failure),
            Ok(words) => lookup_answer(words, word),
        },
    }
}

/// The text of the result label for the outcome of a lookup.
pub open spec fn result_label(outcome: Answer) -> Seq<char> {
    match outcome {
        Ok(ipa) => ipa,
        Err(failure) => ERROR_PREFIX@ + failure.message(),
    }
}

/// Looks `word` up in the dictionary that `source` holds, where `source` is
/// what reading the dictionary file gave.
pub fn word_to_ipa(word: &str, source: &Result<Vec<u8>, String>) -> (outcome: Result<
    String,
    LookupError,
>)
    ensures
        answer_view(outcome) == transcription(word@, source_view(*source)),
{
    match source {
        Err(report) => Err(LookupError::DictionarySourceError(report.clone())),
        Ok(bytes) => match Dictionary::load(bytes.as_slice()) {
            Err(failure) => Err(failure),
            Ok(dictionary) => dictionary.lookup(word),
        },
    }
}

/// What the page is told.
#[derive(Debug)]
pub enum Msg {
    /// The user confirmed the text in the query buffer.
    TextChanged,
    /// The dictionary source was read, as asked for by
    /// [`Action::ReadDictionary`]: the bytes, or the reader's report.
    DictionaryRead(Result<Vec<u8>, String>),
}

/// What the page asks its host to do after an update.
#[derive(Debug)]
pub enum Action {
    /// Nothing.
    Idle,
    /// Read the dictionary source and answer with [`Msg::DictionaryRead`].
    ReadDictionary,
    /// Write the message of a failed lookup to the error log.
    Report(String),
}

/// Model of an [`Action`].
pub enum Request {
    Idle,
    ReadDictionary,
    Report(Seq<char>),
}

impl View for Action {
    type V = Request;

    open spec fn view(&self) -> Request {
        match self {
            Action::Idle => Request::Idle,
            Action::ReadDictionary => Request::ReadDictionary,
            Action::Report(message) => Request::Report(message@),
        }
    }
}

/// Model of the page: the text of the query buffer and of the result label.
pub struct PageState {
    pub buffer: Seq<char>,
    pub ipa_result: Seq<char>,
}

/// The label after the page in state `state` is told `msg`.
pub open spec fn next_label(state: PageState, msg: Msg) -> Seq<char> {
    match msg {
        Msg::TextChanged => if state.buffer.len() == 0 {
            PLACEHOLDER@
        } else {
            state.ipa_result
        },
        Msg::DictionaryRead(source) => result_label(
            transcription(state.buffer, source_view(source)),
        ),
    }
}

/// What the page in state `state` asks for when it is told `msg`.
pub open spec fn next_request(state: PageState, msg: Msg) -> Request {
    match msg {
        Msg::TextChanged => if state.buffer.len() == 0 {
            Request::Idle
        } else {
            Request::ReadDictionary
        },
        Msg::DictionaryRead(source) => match transcription(state.buffer, source_view(source)) {
            Ok(_) => Request::Idle,
            Err(failure) => Request::Report(failure.message()),
        },
    }
}

/// State of the word page.
pub struct Word2ipaModel {
    buffer: String,
    ipa_result: String,
}

impl View for Word2ipaModel {
    type V = PageState;

    closed spec fn view(&self) -> PageState {
        PageState { buffer: self.buffer@, ipa_result: self.ipa_result@ }
    }
}

impl Word2ipaModel {
    /// The page as it opens: an empty buffer and the placeholder label.
    pub fn init() -> (model: Word2ipaModel)
        ensures
            model@ == (PageState { buffer: Seq::empty(), ipa_result: PLACEHOLDER@ }),
    {
        Word2ipaModel { buffer: String::new(), ipa_result: String::from_str(PLACEHOLDER) }
    }

    /// The text of the query buffer.
    pub fn buffer(&self) -> (text: &str)
        ensures
            text@ == self@.buffer,
    {
        self.buffer.as_str()
    }

    /// The text of the result label.
    pub fn ipa_result(&self) -> (text: &str)
        ensures
            text@ == self@.ipa_result,
    {
        self.ipa_result.as_str()
    }

    /// Replaces the text of the query buffer; the label stays as it is.
    pub fn set_text(&mut self, text: &str)
        ensures
            final(self)@ == (PageState { buffer: text@, ipa_result: old(self)@.ipa_result }),
    {
        self.buffer = String::from_str(text);
    }

    /// Takes one message. An empty query restores the placeholder; any other
    /// query asks for the dictionary source; the source, once read, turns
    /// into the transcription or into an error line on the label.
    pub fn update(&mut self, msg: Msg) -> (action: Action)
        ensures
            final(self)@ == (PageState {
                buffer: old(self)@.buffer,
                ipa_result: next_label(old(self)@, msg),
            }),
            action@ == next_request(old(self)@, msg),
    {
        match msg {
            Msg::TextChanged => {
                if self.buffer.as_str().is_empty() {
                    self.ipa_result = String::from_str(PLACEHOLDER);
                    Action::Idle
                } else {
                    Action::ReadDictionary
                }
            },
            Msg::DictionaryRead(source) => {
                match word_to_ipa(self.buffer.as_str(), &source) {
                    Ok(ipa) => {
                        self.ipa_result = ipa;
                        Action::Idle
                    },
                    Err(failure) => {
                        let message = failure.message();
                        self.ipa_result = String::from_str(ERROR_PREFIX).concat(message.as_str());
                        Action::Report(message)
                    },
                }
            },
        }
    }
}

/// A source that could not be read answers every query with a source
/// failure, which carries the reader's report.
pub proof fn lemma_unreadable_source_reported(word: Seq<char>, report: Seq<char>)
    ensures
        transcription(word, Err(report)) == Answer::Err(LookupFailure::Source(report)),
{
}

} // verus!
