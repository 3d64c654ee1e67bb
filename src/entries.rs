use vstd::prelude::*;

verus! {

/// One matching line of a file.
pub struct Match {
    /// 1-based line number.
    pub line_number: u64,
    /// The line's text.
    pub text: String,
    /// Half-open byte ranges `(start, end)` of the matched parts of the line.
    pub offsets: Vec<(usize, usize)>,
}

impl Match {
    pub fn new(line_number: u64, text: String, offsets: Vec<(usize, usize)>) -> (r: Match)
        ensures
            r.line_number == line_number,
            r.text@ == text@,
            r.offsets@ == offsets@,
    {
        Match { line_number, text, offsets }
    }
}

/// What an entry of the result list stands for.
#[derive(Clone, Copy, Debug, PartialEq, Eq, Structural)]
pub enum EntryType {
    /// A file with matches.
    File,
    /// A marker that groups the entries after it.
    Group,
}

/// One file's results: its name and its matches, in line order.
pub struct Entry {
    pub name: String,
    pub entry_type: EntryType,
    pub matches: Vec<Match>,
}

impl Entry {
    pub fn new(name: String, entry_type: EntryType, matches: Vec<Match>) -> (r: Entry)
        ensures
            r.name@ == name@,
            r.entry_type == entry_type,
            r.matches@ == matches@,
    {
        Entry { name, entry_type, matches }
    }

    /// Number of matches in this entry.
    pub fn match_count(&self) -> (r: usize)
        ensures
            r == self.matches@.len(),
    {
        self.matches.len()
    }
}

} // verus!
