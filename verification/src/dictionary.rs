//! The loaded dictionary: a mapping from lowercase words to transcriptions.

use crate::error::{answer_view, Answer, LookupError, LookupFailure};
use crate::json::{
    parse_document, parsed_document, parsed_view, Document, DocumentView, WordList, WordListView,
};
use crate::text::lowercase;
use vstd::hash_map::*;
use vstd::prelude::*;
use vstd::string::*;

verus! {

/// The locale whose word lists make up the dictionary.
pub const LOCALE: &'static str = "en_US";

/// Reported where a document has no member for [`LOCALE`].
pub const MISSING_LOCALE: &'static str = "missing field `en_US`";

/// Reported where the locale's array of word lists is empty.
pub const NO_WORD_LIST: &'static str = "Dictionary format error.";

/// Model of a dictionary: the transcription of each word it holds.
pub type Words = Map<Seq<char>, Seq<char>>;

/// Model of what loading hands back: the dictionary, or the failure.
pub type Loaded = Result<Words, LookupFailure>;

/// The mapping that a list of word/transcription pairs denotes. Where a word
/// occurs in several pairs, the last of them counts.
pub open spec fn mapping_of(pairs: WordListView) -> Words
    decreases pairs.len(),
{
    if pairs.len() == 0 {
        Map::empty()
    } else {
        mapping_of(pairs.drop_last()).insert(pairs.last().0, pairs.last().1)
    }
}

/// The answer to `query` from the mapping `words`, where `key` is the form
/// under which the query is searched: the transcription stored under `key`,
/// or the report that the query, as given, was not found.
pub open spec fn answer(words: Words, key: Seq<char>, query: Seq<char>) -> Answer {
    if words.contains_key(key) {
        Ok(words[key])
    } else {
        Err(LookupFailure::NotFound(query))
    }
}

/// The answer to `query` from the mapping `words`: the query is searched
/// under its lowercase form.
pub open spec fn lookup_answer(words: Words, query: Seq<char>) -> Answer {
    answer(words, lowercase(query), query)
}

/// The word lists that a document files under `locale`: those of its first
/// member of that name, if it has one.
pub open spec fn locale_lists(document: DocumentView, locale: Seq<char>) -> Option<
    Seq<WordListView>,
>
    decreases document.len(),
{
    if document.len() == 0 {
        None
    } else if document.first().0 == locale {
        Some(document.first().1)
    } else {
        locale_lists(document.drop_first(), locale)
    }
}

/// The mapping that a document stands for: that of the first word list
/// under [`LOCALE`]. A document without that locale, or with no word list
/// under it, is a format failure.
pub open spec fn document_words(document: DocumentView) -> Loaded {
    match locale_lists(document, LOCALE@) {
        None => Err(LookupFailure::Format(MISSING_LOCALE@)),
        Some(lists) => if lists.len() == 0 {
            Err(LookupFailure::Format(NO_WORD_LIST@))
        } else {
            Ok(mapping_of(lists.first()))
        },
    }
}

/// The mapping that the parser's answer stands for. Its refusal is a format
/// failure which carries the parser's message.
pub open spec fn parsed_words(parsed: Result<DocumentView, Seq<char>>) -> Loaded {
    match parsed {
        Err(message) => Err(LookupFailure::Format(message)),
        Ok(document) => document_words(document),
    }
}

/// The mapping that the bytes of a dictionary source stand for.
pub open spec fn loaded_words(bytes: Seq<u8>) -> Loaded {
    parsed_words(parsed_document(bytes))
}

/// The model of the outcome of loading.
pub open spec fn loaded_view(outcome: Result<Dictionary, LookupError>) -> Loaded {
    match outcome {
        Ok(dictionary) => Ok(dictionary@),
        Err(failure) => Err(failure@),
    }
}

/// Reads the stored strings of a word table as character sequences.
spec fn table_view(table: Map<Seq<char>, String>) -> Words {
    Map::new(|word: Seq<char>| table.contains_key(word), |word: Seq<char>| table[word]@)
}

/// A dictionary held in memory. It is never changed after it is built.
pub struct Dictionary {
    words: StringHashMap<String>,
}

impl View for Dictionary {
    type V = Words;

    closed spec fn view(&self) -> Words {
        table_view(self.words@)
    }
}

impl Dictionary {
    /// Builds a dictionary from a list of word/transcription pairs.
    pub fn from_pairs(pairs: &WordList) -> (dictionary: Dictionary)
        ensures
            dictionary@ == mapping_of(pairs.deep_view()),
    {
        let mut words: StringHashMap<String> = StringHashMap::new();
        let mut i: usize = 0;
        assert(table_view(words@) =~= mapping_of(pairs.deep_view().take(0)));
        while i < pairs.len()
            invariant
                i <= pairs.len(),
                table_view(words@) == mapping_of(pairs.deep_view().take(i as int)),
            decreases pairs.len() - i,
        {
            let ghost before = words@;
            let word = pairs[i].0.clone();
            let transcription = pairs[i].1.clone();
            words.insert(word, transcription);
            proof {
                let upto = pairs.deep_view().take(i + 1);
                assert(upto.drop_last() =~= pairs.deep_view().take(i as int));
                assert(upto.last() == (word@, transcription@));
                assert(table_view(words@) =~= table_view(before).insert(word@, transcription@));
            }
            i += 1;
        }
        assert(pairs.deep_view().take(i as int) =~= pairs.deep_view());
        Dictionary { words }
    }

    /// Builds the dictionary of a document.
    pub fn from_document(document: &Document) -> (outcome: Result<Dictionary, LookupError>)
        ensures
            loaded_view(outcome) == document_words(document.deep_view()),
    {
        let locale = String::from_str(LOCALE);
        let mut i: usize = 0;
        assert(document.deep_view().skip(0) =~= document.deep_view());
        while i < document.len()
            invariant
                i <= document.len(),
                locale@ == LOCALE@,
                locale_lists(document.deep_view(), LOCALE@) == locale_lists(
                    document.deep_view().skip(i as int),
                    LOCALE@,
                ),
            decreases document.len() - i,
        {
            let ghost rest = document.deep_view().skip(i as int);
            assert(rest.first() == document.deep_view()[i as int]);
            assert(rest.drop_first() =~= document.deep_view().skip(i + 1));
            if document[i].0 == locale {
                let lists = &document[i].1;
                assert(lists.deep_view() == rest.first().1);
                if lists.len() == 0 {
                    return Err(LookupError::DictionaryFormatError(String::from_str(NO_WORD_LIST)));
                }
                assert(lists.deep_view().first() == lists[0].deep_view());
                return Ok(Dictionary::from_pairs(&lists[0]));
            }
            i += 1;
        }
        Err(LookupError::DictionaryFormatError(String::from_str(MISSING_LOCALE)))
    }

    /// Loads a dictionary from the bytes of a JSON document of the shape
    /// `{ "<locale>": [ { "<word>": "<transcription>", ... } ] }`.
    pub fn load(bytes: &[u8]) -> (outcome: Result<Dictionary, LookupError>)
        ensures
            loaded_view(outcome) == loaded_words(bytes@),
    {
        Dictionary::from_parsed(parse_document(bytes))
    }

    /// Builds the dictionary from what the parser made of a source.
    pub fn from_parsed(parsed: Result<Document, String>) -> (outcome: Result<Dictionary, LookupError>)
        ensures
            loaded_view(outcome) == parsed_words(parsed_view(parsed)),
    {
        match parsed {
            Ok(document) => Dictionary::from_document(&document),
            Err(message) => Err(LookupError::DictionaryFormatError(message)),
        }
    }

    /// Searches the dictionary for `key` exactly as given, and reports the
    /// query `word` where nothing is stored under it.
    pub fn lookup_normalized(&self, key: &str, word: &str) -> (outcome: Result<String, LookupError>)
        ensures
            answer_view(outcome) == answer(self@, key@, word@),
    {
        match self.words.get(key) {
            Some(transcription) => Ok(transcription.clone()),
            None => Err(LookupError::WordNotFoundError(String::from_str(word))),
        }
    }

    /// Looks `word` up without regard to its case and hands back the
    /// transcription exactly as it is stored.
    pub fn lookup(&self, word: &str) -> (outcome: Result<String, LookupError>)
        ensures
            answer_view(outcome) == lookup_answer(self@, word@),
    {
        let key = word.to_lowercase();
        self.lookup_normalized(key.as_str(), word)
    }
}

/// A word is in the mapping of a list exactly if some pair of the list
/// carries it.
pub proof fn lemma_mapping_of_domain(pairs: WordListView, word: Seq<char>)
    ensures
        mapping_of(pairs).contains_key(word) <==> exists|i: int|
            0 <= i < pairs.len() && (#[trigger] pairs[i]).0 == word,
    decreases pairs.len(),
{
    if pairs.len() > 0 {
        let front = pairs.drop_last();
        lemma_mapping_of_domain(front, word);
        if mapping_of(pairs).contains_key(word) {
            if pairs.last().0 == word {
                assert(pairs[pairs.len() - 1].0 == word);
            } else {
                let i = choose|i: int| 0 <= i < front.len() && (#[trigger] front[i]).0 == word;
                assert(pairs[i].0 == word);
            }
        } else {
            assert forall|i: int| 0 <= i < pairs.len() implies (#[trigger] pairs[i]).0 != word by {
                if i < front.len() {
                    assert(front[i].0 != word);
                }
            }
        }
    }
}

/// Under a word the mapping holds the transcription of the last pair that
/// carries the word.
pub proof fn lemma_mapping_of_last_pair(pairs: WordListView, i: int)
    requires
        0 <= i < pairs.len(),
        forall|j: int| i < j < pairs.len() ==> (#[trigger] pairs[j]).0 != pairs[i].0,
    ensures
        mapping_of(pairs).contains_key(pairs[i].0),
        mapping_of(pairs)[pairs[i].0] == pairs[i].1,
    decreases pairs.len(),
{
    if i < pairs.len() - 1 {
        let front = pairs.drop_last();
        assert(front[i] == pairs[i]);
        assert forall|j: int| i < j < front.len() implies (#[trigger] front[j]).0 != front[i].0 by {
            assert(front[j] == pairs[j]);
        }
        lemma_mapping_of_last_pair(front, i);
        assert(pairs[pairs.len() - 1].0 != pairs[i].0);
    }
}

/// The word lists of a locale are those of the first member of its name.
pub proof fn lemma_locale_lists_first_member(document: DocumentView, locale: Seq<char>, i: int)
    requires
        0 <= i < document.len(),
        document[i].0 == locale,
        forall|j: int| 0 <= j < i ==> (#[trigger] document[j]).0 != locale,
    ensures
        locale_lists(document, locale) == Some(document[i].1),
    decreases document.len(),
{
    if i > 0 {
        let rest = document.drop_first();
        assert(document[0].0 != locale);
        assert(rest[i - 1] == document[i]);
        assert forall|j: int| 0 <= j < i - 1 implies (#[trigger] rest[j]).0 != locale by {
            assert(rest[j] == document[j + 1]);
        }
        lemma_locale_lists_first_member(rest, locale, i - 1);
    }
}

/// A document with no member of a locale's name has no word lists for it.
pub proof fn lemma_locale_lists_absent(document: DocumentView, locale: Seq<char>)
    requires
        forall|i: int| 0 <= i < document.len() ==> (#[trigger] document[i]).0 != locale,
    ensures
        locale_lists(document, locale) is None,
    decreases document.len(),
{
    if document.len() > 0 {
        let rest = document.drop_first();
        assert(document[0].0 != locale);
        assert forall|i: int| 0 <= i < rest.len() implies (#[trigger] rest[i]).0 != locale by {
            assert(rest[i] == document[i + 1]);
        }
        lemma_locale_lists_absent(rest, locale);
    }
}

/// Case does not matter: a query whose lowercase form is a word of the
/// dictionary is answered with that word's transcription, however the query
/// itself is cased.
pub proof fn lemma_lookup_ignores_case(dictionary: Dictionary, word: Seq<char>, query: Seq<char>)
    requires
        dictionary@.contains_key(word),
    ensures
        lowercase(query) == word ==> lookup_answer(dictionary@, query) == Answer::Ok(
            dictionary@[word],
        ),
{
}

/// A query whose lowercase form is no word of the dictionary is reported as
/// not found, and the report carries the query as it was given, not its
/// lowercase form.
pub proof fn lemma_absent_word_reported(dictionary: Dictionary, query: Seq<char>)
    ensures
        !dictionary@.contains_key(lowercase(query)) ==> lookup_answer(dictionary@, query)
            == Answer::Err(LookupFailure::NotFound(query)),
{
}

/// A source that the parser refuses loads as a format failure, which
/// carries the parser's message.
pub proof fn lemma_refused_source_is_format_failure(bytes: Seq<u8>, message: Seq<char>)
    ensures
        parsed_document(bytes) == Err::<DocumentView, Seq<char>>(message) ==> loaded_words(bytes)
            == Loaded::Err(LookupFailure::Format(message)),
{
}

/// A document whose array under [`LOCALE`] is empty is a format failure,
/// and so is every source that the parser reads as such a document.
pub proof fn lemma_empty_locale_is_format_failure(bytes: Seq<u8>, document: DocumentView)
    requires
        locale_lists(document, LOCALE@) == Some(Seq::<WordListView>::empty()),
    ensures
        document_words(document) == Loaded::Err(LookupFailure::Format(NO_WORD_LIST@)),
        parsed_document(bytes) == Ok::<DocumentView, Seq<char>>(document) ==> loaded_words(bytes)
            == Loaded::Err(LookupFailure::Format(NO_WORD_LIST@)),
{
}

} // verus!
