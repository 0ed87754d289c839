//! Reading a dictionary document with `serde_json`.

use std::collections::BTreeMap;
use vstd::prelude::*;

verus! {

/// A word list: pairs of a word and its transcription, as the members of
/// one inner object of a document.
pub type WordList = Vec<(String, String)>;

/// Model of a [`WordList`].
pub type WordListView = Seq<(Seq<char>, Seq<char>)>;

/// A parsed dictionary document: the members of its outer object, each a
/// locale name with its array of word lists.
pub type Document = Vec<(String, Vec<WordList>)>;

/// Model of a [`Document`].
pub type DocumentView = Seq<(Seq<char>, Seq<WordListView>)>;

/// What `serde_json` makes of a byte string when asked for a dictionary
/// document, that is a JSON object whose members are each an array of
/// objects with string members.
///
/// `Ok` holds the document, `Err` the parser's message.
pub uninterp spec fn parsed_document(bytes: Seq<u8>) -> Result<
    Seq<(Seq<char>, Seq<Seq<(Seq<char>, Seq<char>)>>)>,
    Seq<char>,
>;

/// Model of what the parser hands back.
pub open spec fn parsed_view(parsed: Result<Document, String>) -> Result<DocumentView, Seq<char>> {
    match parsed {
        Ok(document) => Ok(document.deep_view()),
        Err(message) => Err(message@),
    }
}

/// Calls `serde_json::from_slice` with the target type
/// `BTreeMap<String, Vec<BTreeMap<String, String>>>`.
///
/// Trusted: the parser's answer depends on the bytes alone, and
/// [`parsed_document`] names it. On success the maps are handed over as
/// lists of pairs in the maps' own order, which is ascending by key; on
/// failure the parser's error is handed over as its message.
#[verifier::external_body]
pub(crate) fn parse_document(bytes: &[u8]) -> (parsed: Result<Document, String>)
    ensures
        parsed_view(parsed) == parsed_document(bytes@),
{
    match serde_json::from_slice::<BTreeMap<String, Vec<BTreeMap<String, String>>>>(bytes) {
        Ok(document) => Ok(
            document.into_iter().map(
                |(locale, lists)| (
                    locale,
                    lists.into_iter().map(|words| words.into_iter().collect()).collect(),
                ),
            ).collect(),
        ),
        Err(fault) => Err(fault.to_string()),
    }
}

} // verus!
