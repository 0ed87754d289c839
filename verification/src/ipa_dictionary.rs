//! The symbol page: the table of IPA symbols, each with example words set
//! beside their transcriptions.

use vstd::prelude::*;
use vstd::string::*;

verus! {

/// Stands between a symbol and its sound in a row's title.
pub const TITLE_SEPARATOR: &'static str = " – ";

/// Stands between an example word and its transcription.
pub const PAIR_SEPARATOR: &'static str = " ";

/// Put before an example line when it is shown as a list item.
pub const BULLET: &'static str = "• ";

/// One record of the symbol table.
///
/// `examples` and `ipa_examples` are meant to be of one length, the
/// transcription at each place belonging to the word at the same place.
#[derive(Debug)]
pub struct IpaEntry {
    pub symbol: String,
    pub sound: String,
    pub description: String,
    pub examples: Vec<String>,
    pub ipa_examples: Vec<String>,
}

/// Model of an [`IpaEntry`].
pub struct SymbolEntry {
    pub symbol: Seq<char>,
    pub sound: Seq<char>,
    pub description: Seq<char>,
    pub examples: Seq<Seq<char>>,
    pub ipa_examples: Seq<Seq<char>>,
}

/// What the page shows for one record.
#[derive(Debug)]
pub struct SymbolRow {
    pub title: String,
    pub subtitle: String,
    pub labels: Vec<String>,
}

/// Model of a [`SymbolRow`].
pub struct RowView {
    pub title: Seq<char>,
    pub subtitle: Seq<char>,
    pub labels: Seq<Seq<char>>,
}

/// An example word beside its transcription.
pub open spec fn paired_line(word: Seq<char>, ipa: Seq<char>) -> Seq<char> {
    word + PAIR_SEPARATOR@ + ipa
}

/// The example words paired place by place with the transcriptions, in
/// order, as far as both lists reach.
pub open spec fn paired_lines(examples: Seq<Seq<char>>, ipa_examples: Seq<Seq<char>>) -> Seq<
    Seq<char>,
> {
    Seq::new(
        if examples.len() <= ipa_examples.len() {
            examples.len()
        } else {
            ipa_examples.len()
        },
        |i: int| paired_line(examples[i], ipa_examples[i]),
    )
}

impl SymbolEntry {
    /// Every example word has its transcription and the other way round.
    pub open spec fn aligned(self) -> bool {
        self.examples.len() == self.ipa_examples.len()
    }

    /// The symbol and its sound.
    pub open spec fn title(self) -> Seq<char> {
        self.symbol + TITLE_SEPARATOR@ + self.sound
    }

    /// The paired example lines of this record.
    pub open spec fn example_lines(self) -> Seq<Seq<char>> {
        paired_lines(self.examples, self.ipa_examples)
    }

    /// The row shown for this record: each example line becomes a list item.
    pub open spec fn row(self) -> RowView {
        RowView {
            title: self.title(),
            subtitle: self.description,
            labels: Seq::new(self.example_lines().len(), |i: int| BULLET@ + self.example_lines()[i]),
        }
    }
}

impl View for IpaEntry {
    type V = SymbolEntry;

    open spec fn view(&self) -> SymbolEntry {
        SymbolEntry {
            symbol: self.symbol@,
            sound: self.sound@,
            description: self.description@,
            examples: self.examples.deep_view(),
            ipa_examples: self.ipa_examples.deep_view(),
        }
    }
}

impl View for SymbolRow {
    type V = RowView;

    open spec fn view(&self) -> RowView {
        RowView {
            title: self.title@,
            subtitle: self.subtitle@,
            labels: self.labels.deep_view(),
        }
    }
}

impl Clone for IpaEntry {
    fn clone(&self) -> (copy: IpaEntry)
        ensures
            copy@ == self@,
    {
        let examples = self.examples.clone();
        let ipa_examples = self.ipa_examples.clone();
        assert(examples.deep_view() =~= self.examples.deep_view());
        assert(ipa_examples.deep_view() =~= self.ipa_examples.deep_view());
        IpaEntry {
            symbol: self.symbol.clone(),
            sound: self.sound.clone(),
            description: self.description.clone(),
            examples,
            ipa_examples,
        }
    }
}

impl IpaEntry {
    /// The title of the record's row.
    pub fn title(&self) -> (title: String)
        ensures
            title@ == self@.title(),
    {
        self.symbol.clone().concat(TITLE_SEPARATOR).concat(self.sound.as_str())
    }

    /// The example lines: word and transcription side by side, in the order
    /// of the record.
    pub fn example_lines(&self) -> (lines: Vec<String>)
        ensures
            lines.deep_view() == self@.example_lines(),
            self@.aligned() ==> lines.len() == self.examples.len(),
    {
        let count = if self.examples.len() <= self.ipa_examples.len() {
            self.examples.len()
        } else {
            self.ipa_examples.len()
        };
        let mut lines: Vec<String> = Vec::new();
        let mut i: usize = 0;
        while i < count
            invariant
                i <= count,
                count <= self.examples.len(),
                count <= self.ipa_examples.len(),
                lines.len() == i,
                forall|k: int|
                    0 <= k < i ==> #[trigger] lines[k]@ == paired_line(
                        self.examples[k]@,
                        self.ipa_examples[k]@,
                    ),
            decreases count - i,
        {
            let line = self.examples[i].clone().concat(PAIR_SEPARATOR).concat(
                self.ipa_examples[i].as_str(),
            );
            lines.push(line);
            i += 1;
        }
        assert(lines.deep_view() =~= self@.example_lines());
        lines
    }

    /// The row that the page shows for this record.
    pub fn row(&self) -> (row: SymbolRow)
        ensures
            row@ == self@.row(),
    {
        let lines = self.example_lines();
        let mut labels: Vec<String> = Vec::new();
        let mut i: usize = 0;
        while i < lines.len()
            invariant
                i <= lines.len(),
                labels.len() == i,
                lines.deep_view() == self@.example_lines(),
                forall|k: int| 0 <= k < i ==> #[trigger] labels[k]@ == BULLET@ + lines[k]@,
            decreases lines.len() - i,
        {
            let label = String::from_str(BULLET).concat(lines[i].as_str());
            labels.push(label);
            i += 1;
        }
        assert(labels.deep_view() =~= self@.row().labels) by {
            assert forall|k: int| 0 <= k < labels.len() implies labels.deep_view()[k]
                == self@.row().labels[k] by {
                assert(lines.deep_view()[k] == lines[k]@);
            }
        }
        SymbolRow { title: self.title(), subtitle: self.description.clone(), labels }
    }
}

/// Model of a symbol table: the models of its records, in order.
pub open spec fn table_view(entries: Vec<IpaEntry>) -> Seq<SymbolEntry> {
    Seq::new(entries.len() as nat, |i: int| entries[i]@)
}

/// State of the symbol page: the records it lists.
pub struct IpaDictionaryModel {
    entries: Vec<IpaEntry>,
}

impl View for IpaDictionaryModel {
    type V = Seq<SymbolEntry>;

    closed spec fn view(&self) -> Seq<SymbolEntry> {
        table_view(self.entries)
    }
}

impl IpaDictionaryModel {
    /// The page for a loaded symbol table; with `None`, for a table that
    /// could not be loaded, a page without rows.
    pub fn init(loaded: Option<Vec<IpaEntry>>) -> (model: IpaDictionaryModel)
        ensures
            model@ == match loaded {
                Some(entries) => table_view(entries),
                None => Seq::empty(),
            },
    {
        match loaded {
            Some(entries) => IpaDictionaryModel { entries },
            None => IpaDictionaryModel { entries: Vec::new() },
        }
    }

    /// The records of the page, in the order of the table.
    pub fn entries(&self) -> (entries: &Vec<IpaEntry>)
        ensures
            table_view(*entries) == self@,
    {
        &self.entries
    }

    /// The rows of the page, one for each record, in the order of the table.
    pub fn rows(&self) -> (rows: Vec<SymbolRow>)
        ensures
            rows.len() == self@.len(),
            forall|i: int| 0 <= i < rows.len() ==> #[trigger] rows[i]@ == self@[i].row(),
    {
        let mut rows: Vec<SymbolRow> = Vec::new();
        let mut i: usize = 0;
        while i < self.entries.len()
            invariant
                i <= self.entries.len(),
                rows.len() == i,
                forall|k: int| 0 <= k < i ==> #[trigger] rows[k]@ == self.entries[k]@.row(),
            decreases self.entries.len() - i,
        {
            let row = self.entries[i].row();
            rows.push(row);
            i += 1;
        }
        rows
    }
}

} // verus!
