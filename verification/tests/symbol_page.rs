use word2ipa::ipa_dictionary::{IpaDictionaryModel, IpaEntry};

fn strings(items: &[&str]) -> Vec<String> {
    items.iter().map(|item| item.to_string()).collect()
}

fn short_a() -> IpaEntry {
    IpaEntry {
        symbol: "æ".to_string(),
        sound: "a".to_string(),
        description: "Near-open front unrounded vowel".to_string(),
        examples: strings(&["cat", "bat"]),
        ipa_examples: strings(&["kæt", "bæt"]),
    }
}

fn schwa() -> IpaEntry {
    IpaEntry {
        symbol: "ə".to_string(),
        sound: "uh".to_string(),
        description: "Mid central vowel".to_string(),
        examples: strings(&["about"]),
        ipa_examples: strings(&["əˈbaʊt"]),
    }
}

#[test]
fn examples_are_paired_in_order() {
    assert_eq!(short_a().example_lines(), strings(&["cat kæt", "bat bæt"]));
}

#[test]
fn pairing_stops_with_the_shorter_list() {
    let mut entry = short_a();
    entry.examples.push("hat".to_string());
    assert_eq!(entry.example_lines(), strings(&["cat kæt", "bat bæt"]));
    let mut entry = short_a();
    entry.ipa_examples.push("hæt".to_string());
    assert_eq!(entry.example_lines(), strings(&["cat kæt", "bat bæt"]));
    let mut entry = short_a();
    entry.ipa_examples.clear();
    assert_eq!(entry.example_lines(), Vec::<String>::new());
}

#[test]
fn pairing_does_not_sort_or_merge() {
    let entry = IpaEntry {
        symbol: "t".to_string(),
        sound: "t".to_string(),
        description: String::new(),
        examples: strings(&["top", "at", "top"]),
        ipa_examples: strings(&["tɒp", "æt", "tɑːp"]),
    };
    assert_eq!(entry.example_lines(), strings(&["top tɒp", "at æt", "top tɑːp"]));
}

#[test]
fn title_joins_symbol_and_sound() {
    assert_eq!(short_a().title(), "æ – a");
}

#[test]
fn row_of_a_record() {
    let row = short_a().row();
    assert_eq!(row.title, "æ – a");
    assert_eq!(row.subtitle, "Near-open front unrounded vowel");
    assert_eq!(row.labels, strings(&["• cat kæt", "• bat bæt"]));
}

#[test]
fn record_can_be_copied() {
    let entry = short_a();
    let copy = entry.clone();
    assert_eq!(copy.symbol, entry.symbol);
    assert_eq!(copy.sound, entry.sound);
    assert_eq!(copy.description, entry.description);
    assert_eq!(copy.examples, entry.examples);
    assert_eq!(copy.ipa_examples, entry.ipa_examples);
}

#[test]
fn page_lists_the_table_in_order() {
    let model = IpaDictionaryModel::init(Some(vec![short_a(), schwa()]));
    assert_eq!(model.entries().len(), 2);
    assert_eq!(model.entries()[0].symbol, "æ");
    assert_eq!(model.entries()[1].symbol, "ə");
    let rows = model.rows();
    assert_eq!(rows.len(), 2);
    assert_eq!(rows[0].title, "æ – a");
    assert_eq!(rows[0].labels, strings(&["• cat kæt", "• bat bæt"]));
    assert_eq!(rows[1].title, "ə – uh");
    assert_eq!(rows[1].subtitle, "Mid central vowel");
    assert_eq!(rows[1].labels, strings(&["• about əˈbaʊt"]));
}

#[test]
fn table_that_could_not_be_loaded_gives_an_empty_page() {
    let model = IpaDictionaryModel::init(None);
    assert!(model.entries().is_empty());
    assert!(model.rows().is_empty());
}

#[test]
fn empty_table_gives_an_empty_page() {
    let model = IpaDictionaryModel::init(Some(Vec::new()));
    assert!(model.rows().is_empty());
}
