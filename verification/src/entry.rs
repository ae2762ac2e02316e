//! What a file name says about the journal entry it holds.

use vstd::prelude::*;

verus! {

/// The two kinds of entry a journal holds.
#[derive(Clone, Copy, Debug, PartialEq, Eq, Structural)]
pub enum EntryType {
    /// One entry per calendar day, named `YYYY-MM-DD.md`.
    Daily,
    /// Any other Markdown file, known by its name.
    Titled,
}

/// One Markdown file of the journal directory, with what its name tells.
#[derive(Clone, Debug, PartialEq, Eq)]
pub struct JournalEntry {
    /// The file's name within the directory, suffix included.
    pub filename: String,
    pub entry_type: EntryType,
    /// The date of a daily entry; the file name without its suffix otherwise.
    pub title: String,
    /// The `YYYY-MM-DD` of a daily entry; absent for a titled one.
    pub date: Option<String>,
}

/// A journal entry with its texts as sequences of characters.
pub struct JournalEntryView {
    pub filename: Seq<char>,
    pub entry_type: EntryType,
    pub title: Seq<char>,
    pub date: Option<Seq<char>>,
}

impl View for JournalEntry {
    type V = JournalEntryView;

    open spec fn view(&self) -> JournalEntryView {
        JournalEntryView {
            filename: self.filename@,
            entry_type: self.entry_type,
            title: self.title@,
            date: text_of(self.date),
        }
    }
}

/// The characters of a text that may be absent.
pub open spec fn text_of(text: Option<String>) -> Option<Seq<char>> {
    match text {
        Some(t) => Some(t@),
        None => None,
    }
}

pub open spec fn is_ascii_digit(c: char) -> bool {
    '0' <= c && c <= '9'
}

/// The name ends in `.md`.
pub open spec fn is_markdown_name(name: Seq<char>) -> bool {
    &&& name.len() >= 3
    &&& name[name.len() - 3] == '.'
    &&& name[name.len() - 2] == 'm'
    &&& name[name.len() - 1] == 'd'
}

/// The name has the shape `YYYY-MM-DD.md`: thirteen characters, digits where
/// the letters stand. The digits need not name a day of the calendar.
pub open spec fn is_daily_name(name: Seq<char>) -> bool {
    &&& name.len() == 13
    &&& is_ascii_digit(name[0])
    &&& is_ascii_digit(name[1])
    &&& is_ascii_digit(name[2])
    &&& is_ascii_digit(name[3])
    &&& name[4] == '-'
    &&& is_ascii_digit(name[5])
    &&& is_ascii_digit(name[6])
    &&& name[7] == '-'
    &&& is_ascii_digit(name[8])
    &&& is_ascii_digit(name[9])
    &&& name[10] == '.'
    &&& name[11] == 'm'
    &&& name[12] == 'd'
}

/// The entry that a Markdown file of this name holds.
pub open spec fn entry_of_name(name: Seq<char>) -> JournalEntryView {
    if is_daily_name(name) {
        JournalEntryView {
            filename: name,
            entry_type: EntryType::Daily,
            title: name.take(10),
            date: Some(name.take(10)),
        }
    } else {
        JournalEntryView {
            filename: name,
            entry_type: EntryType::Titled,
            title: name.take(name.len() - 3),
            date: None,
        }
    }
}

impl JournalEntryView {
    /// The entry is what its own file name says it is.
    pub open spec fn is_entry(self) -> bool {
        &&& is_markdown_name(self.filename)
        &&& self == entry_of_name(self.filename)
    }
}

impl JournalEntry {
    /// The entry is what its own file name says it is.
    pub open spec fn wf(&self) -> bool {
        self@.is_entry()
    }
}

impl EntryType {
    /// The word under which this kind is shown: `daily` or `titled`.
    pub open spec fn label_text(self) -> Seq<char> {
        match self {
            EntryType::Daily => "daily"@,
            EntryType::Titled => "titled"@,
        }
    }

    /// The word under which this kind is shown.
    pub fn label(&self) -> (r: &'static str)
        ensures
            r@ == self.label_text(),
    {
        match self {
            EntryType::Daily => "daily",
            EntryType::Titled => "titled",
        }
    }

    /// The kind that is shown under this word, if the word names one.
    pub fn from_label(label: &str) -> (r: Option<EntryType>)
        ensures
            r == if label@ == EntryType::Daily.label_text() {
                Some(EntryType::Daily)
            } else if label@ == EntryType::Titled.label_text() {
                Some(EntryType::Titled)
            } else {
                None
            },
    {
        if crate::text::same_text(label, "daily") {
            Some(EntryType::Daily)
        } else if crate::text::same_text(label, "titled") {
            Some(EntryType::Titled)
        } else {
            None
        }
    }
}

fn digit(c: char) -> (r: bool)
    ensures
        r == is_ascii_digit(c),
{
    '0' <= c && c <= '9'
}

fn markdown_chars(name: &Vec<char>) -> (r: bool)
    ensures
        r == is_markdown_name(name@),
{
    let n = name.len();
    n >= 3 && name[n - 3] == '.' && name[n - 2] == 'm' && name[n - 1] == 'd'
}

fn daily_chars(name: &Vec<char>) -> (r: bool)
    ensures
        r == is_daily_name(name@),
{
    name.len() == 13 && digit(name[0]) && digit(name[1]) && digit(name[2]) && digit(name[3])
        && name[4] == '-' && digit(name[5]) && digit(name[6]) && name[7] == '-' && digit(name[8])
        && digit(name[9]) && name[10] == '.' && name[11] == 'm' && name[12] == 'd'
}

/// Whether the file name ends in `.md`.
pub fn has_markdown_suffix(filename: &str) -> (r: bool)
    ensures
        r == is_markdown_name(filename@),
{
    let name = crate::text::chars_of(filename);
    markdown_chars(&name)
}

/// Whether the file name is that of a daily entry.
pub fn is_daily_entry(filename: &str) -> (r: bool)
    ensures
        r == is_daily_name(filename@),
{
    let name = crate::text::chars_of(filename);
    daily_chars(&name)
}

/// The entry held by the file of this name, if the file is a Markdown file.
pub fn classify(filename: &str) -> (r: Option<JournalEntry>)
    ensures
        r is Some <==> is_markdown_name(filename@),
        r matches Some(e) ==> e@ == entry_of_name(filename@) && e.wf(),
{
    let name = crate::text::chars_of(filename);
    if !markdown_chars(&name) {
        return None;
    }
    if daily_chars(&name) {
        let date = filename.substring_char(0, 10);
        Some(
            JournalEntry {
                filename: filename.to_owned(),
                entry_type: EntryType::Daily,
                title: date.to_owned(),
                date: Some(date.to_owned()),
            },
        )
    } else {
        let title = filename.substring_char(0, name.len() - 3);
        Some(
            JournalEntry {
                filename: filename.to_owned(),
                entry_type: EntryType::Titled,
                title: title.to_owned(),
                date: None,
            },
        )
    }
}

} // verus!
