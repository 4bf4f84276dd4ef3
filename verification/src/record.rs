//! Committed scrollback entries and their height on the screen.

use vstd::prelude::*;

verus! {

/// The entry log: records in the order in which they were committed.
pub type Records = Vec<Record>;

/// One committed line of the scrollback.
#[derive(Debug)]
pub struct Record {
    /// The committed text; it may hold line feeds.
    pub data: String,
    /// The number of screen rows that `data` takes.
    pub y_size: usize,
    /// The name shown in front of the text.
    pub username: String,
    /// Reserved.
    pub date: String,
    /// Reserved.
    pub privacy: bool,
}

/// What a `Record` holds, as mathematical values.
pub struct RecordView {
    pub data: Seq<char>,
    pub y_size: nat,
    pub username: Seq<char>,
    pub date: Seq<char>,
    pub privacy: bool,
}

impl View for Record {
    type V = RecordView;

    open spec fn view(&self) -> RecordView {
        RecordView {
            data: self.data@,
            y_size: self.y_size as nat,
            username: self.username@,
            date: self.date@,
            privacy: self.privacy,
        }
    }
}

impl DeepView for Record {
    type V = RecordView;

    open spec fn deep_view(&self) -> RecordView {
        self@
    }
}

impl RecordView {
    /// The height is the one that the text had when the record was made.
    pub open spec fn wf(self) -> bool {
        self.y_size == visual_height(self.data)
    }
}

/// The record that committing `data` makes.
pub open spec fn record_of(data: Seq<char>) -> RecordView {
    RecordView {
        data,
        y_size: visual_height(data),
        username: "user"@,
        date: Seq::empty(),
        privacy: true,
    }
}

/// The number of line feeds in a text.
pub open spec fn newline_count(text: Seq<char>) -> nat
    decreases text.len(),
{
    if text.len() == 0 {
        0
    } else if text.last() == '\n' {
        newline_count(text.drop_last()) + 1
    } else {
        newline_count(text.drop_last())
    }
}

/// The number of screen rows that a text takes: one more than its line feeds.
pub open spec fn visual_height(text: Seq<char>) -> nat {
    newline_count(text) + 1
}

/// A text without a line feed is one row high.
pub proof fn lemma_single_line_height(text: Seq<char>)
    requires
        forall|i: int| 0 <= i < text.len() ==> text[i] != '\n',
    ensures
        newline_count(text) == 0,
        visual_height(text) == 1,
    decreases text.len(),
{
    if text.len() > 0 {
        lemma_single_line_height(text.drop_last());
    }
}

/// Counts the matches of a pattern in a text: `regex::Regex::new` compiles the pattern and
/// `regex::Regex::find_iter` yields its successive non-overlapping matches. The contract is
/// for the pattern `\n` alone, which matches one line feed and nothing else, so that the
/// matches are the line feeds of the text. They are disjoint, non-empty parts of a `str`,
/// which holds at most `isize::MAX` bytes: the count stays below `usize::MAX`.
#[verifier::external_body]
fn count_matches(pattern: &str, text: &str) -> (n: usize)
    requires
        pattern@ == seq!['\\', 'n'],
    ensures
        n == newline_count(text@),
        n < usize::MAX,
{
    regex::Regex::new(pattern).unwrap().find_iter(text).count()
}

impl Record {
    /// An empty record.
    pub fn new() -> (r: Record)
        ensures
            r@ == record_of(Seq::empty()),
            r@.wf(),
    {
        Record {
            data: String::new(),
            y_size: 1,
            username: String::from_str("user"),
            date: String::new(),
            privacy: true,
        }
    }

    /// The record that holds `data`, with the height that `data` takes on the screen.
    pub fn from_str(data: String) -> (r: Record)
        ensures
            r@ == record_of(data@),
            r@.wf(),
    {
        let y_size = Record::count_newlines(data.as_str());
        Record {
            data,
            y_size,
            username: String::from_str("user"),
            date: String::new(),
            privacy: true,
        }
    }

    /// The number of rows that `text` takes: 1 for a text without a line feed, and one more
    /// for each line feed.
    pub fn count_newlines(text: &str) -> (rows: usize)
        ensures
            rows == visual_height(text@),
            rows == newline_count(text@) + 1,
    {
        proof {
            reveal_strlit("\\n");
            assert("\\n"@ =~= seq!['\\', 'n']);
        }
        count_matches("\\n", text) + 1
    }
}

} // verus!
