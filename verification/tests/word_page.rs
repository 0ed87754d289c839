use word2ipa::error::LookupError;
use word2ipa::word2ipa::{word_to_ipa, Action, Msg, Word2ipaModel, ERROR_PREFIX, PLACEHOLDER};

fn hello_source() -> Result<Vec<u8>, String> {
    Ok(r#"{"en_US":[{"hello":"həˈloʊ"}]}"#.as_bytes().to_vec())
}

fn missing_source() -> Result<Vec<u8>, String> {
    Err("No such file or directory (os error 2)".to_string())
}

#[test]
fn hello_scenario() {
    assert_eq!(word_to_ipa("Hello", &hello_source()), Ok("həˈloʊ".to_string()));
}

#[test]
fn goodbye_scenario() {
    assert_eq!(
        word_to_ipa("goodbye", &hello_source()),
        Err(LookupError::WordNotFoundError("goodbye".to_string()))
    );
}

#[test]
fn unreadable_source_is_a_source_failure() {
    assert_eq!(
        word_to_ipa("hello", &missing_source()),
        Err(LookupError::DictionarySourceError(
            "No such file or directory (os error 2)".to_string()
        ))
    );
}

#[test]
fn malformed_source_is_a_format_failure() {
    let source = Ok(b"{ not json".to_vec());
    assert_eq!(
        word_to_ipa("hello", &source),
        Err(LookupError::DictionaryFormatError(
            "key must be a string at line 1 column 3".to_string()
        ))
    );
}

#[test]
fn empty_locale_is_a_format_failure_for_every_word() {
    let source = Ok(br#"{"en_US":[]}"#.to_vec());
    for word in ["hello", "goodbye", ""] {
        assert_eq!(
            word_to_ipa(word, &source),
            Err(LookupError::DictionaryFormatError("Dictionary format error.".to_string()))
        );
    }
}

#[test]
fn format_failure_comes_before_not_found() {
    let source = Ok(br#"{"en_US":[{"hello":1}]}"#.to_vec());
    assert!(matches!(
        word_to_ipa("goodbye", &source),
        Err(LookupError::DictionaryFormatError(_))
    ));
}

#[test]
fn page_opens_with_the_placeholder() {
    let model = Word2ipaModel::init();
    assert_eq!(model.buffer(), "");
    assert_eq!(model.ipa_result(), "IPA translation will appear here.");
    assert_eq!(PLACEHOLDER, "IPA translation will appear here.");
}

#[test]
fn empty_query_restores_the_placeholder_without_reading() {
    let mut model = Word2ipaModel::init();
    model.set_text("Hello");
    assert!(matches!(model.update(Msg::TextChanged), Action::ReadDictionary));
    assert!(matches!(model.update(Msg::DictionaryRead(hello_source())), Action::Idle));
    assert_eq!(model.ipa_result(), "həˈloʊ");
    model.set_text("");
    assert!(matches!(model.update(Msg::TextChanged), Action::Idle));
    assert_eq!(model.ipa_result(), "IPA translation will appear here.");
    assert_eq!(model.buffer(), "");
}

#[test]
fn query_asks_for_the_source_and_leaves_the_label() {
    let mut model = Word2ipaModel::init();
    model.set_text("Hello");
    assert_eq!(model.buffer(), "Hello");
    assert_eq!(model.ipa_result(), PLACEHOLDER);
    assert!(matches!(model.update(Msg::TextChanged), Action::ReadDictionary));
    assert_eq!(model.buffer(), "Hello");
    assert_eq!(model.ipa_result(), PLACEHOLDER);
}

#[test]
fn found_word_is_shown() {
    let mut model = Word2ipaModel::init();
    model.set_text("HELLO");
    assert!(matches!(model.update(Msg::DictionaryRead(hello_source())), Action::Idle));
    assert_eq!(model.ipa_result(), "həˈloʊ");
    assert_eq!(model.buffer(), "HELLO");
}

#[test]
fn absent_word_is_shown_and_reported() {
    let mut model = Word2ipaModel::init();
    model.set_text("goodbye");
    match model.update(Msg::DictionaryRead(hello_source())) {
        Action::Report(message) => assert_eq!(message, "Word 'goodbye' not found."),
        other => panic!("nothing was reported: {:?}", other),
    }
    assert_eq!(model.ipa_result(), "Error: Word 'goodbye' not found.");
    assert_eq!(ERROR_PREFIX, "Error: ");
}

#[test]
fn unreadable_source_is_shown_and_reported() {
    let mut model = Word2ipaModel::init();
    model.set_text("hello");
    match model.update(Msg::DictionaryRead(missing_source())) {
        Action::Report(message) => assert_eq!(message, "No such file or directory (os error 2)"),
        other => panic!("nothing was reported: {:?}", other),
    }
    assert_eq!(model.ipa_result(), "Error: No such file or directory (os error 2)");
}

#[test]
fn malformed_source_is_shown_and_reported() {
    let mut model = Word2ipaModel::init();
    model.set_text("hello");
    match model.update(Msg::DictionaryRead(Ok(br#"{"en_US":[]}"#.to_vec()))) {
        Action::Report(message) => assert_eq!(message, "Dictionary format error."),
        other => panic!("nothing was reported: {:?}", other),
    }
    assert_eq!(model.ipa_result(), "Error: Dictionary format error.");
}

#[test]
fn each_query_reads_the_source_anew() {
    let mut model = Word2ipaModel::init();
    model.set_text("hello");
    assert!(matches!(model.update(Msg::TextChanged), Action::ReadDictionary));
    model.update(Msg::DictionaryRead(missing_source()));
    assert_eq!(model.ipa_result(), "Error: No such file or directory (os error 2)");
    assert!(matches!(model.update(Msg::TextChanged), Action::ReadDictionary));
    model.update(Msg::DictionaryRead(hello_source()));
    assert_eq!(model.ipa_result(), "həˈloʊ");
}
