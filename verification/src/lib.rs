//! Word-to-IPA lookup: a dictionary of phonetic transcriptions loaded from a
//! JSON document, queried one word at a time without regard to case, together
//! with the view models of the two pages that present it.

pub mod error;
pub mod json;
pub mod text;
pub mod dictionary;
pub mod word2ipa;
pub mod ipa_dictionary;
