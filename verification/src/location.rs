use vstd::prelude::*;

verus! {

/// A source-location record: the file, line and column of a call site.
///
/// The record is the payload held by
/// [`crate::atomic_static_location::AtomicStaticLocation`]; the holder treats
/// it opaquely. It is immutable once built: only the constructor writes the
/// fields, and the accessors hand each one back unchanged.
#[derive(Debug)]
pub struct Location {
    file: String,
    line: u32,
    column: u32,
}

impl Location {
    /// The file name, as a sequence of characters.
    pub closed spec fn spec_file(self) -> Seq<char> {
        self.file@
    }

    /// The line number.
    pub closed spec fn spec_line(self) -> u32 {
        self.line
    }

    /// The column number.
    pub closed spec fn spec_column(self) -> u32 {
        self.column
    }

    /// Build the record for a call site at `file`, `line`, `column`.
    pub fn new(file: String, line: u32, column: u32) -> (location: Self)
        ensures
            location.spec_file() == file@,
            location.spec_line() == line,
            location.spec_column() == column,
    {
        Location { file, line, column }
    }

    /// The file name of the recorded call site.
    pub fn file(&self) -> (file: &String)
        ensures
            file@ == self.spec_file(),
    {
        &self.file
    }

    /// The line number of the recorded call site.
    pub fn line(&self) -> (line: u32)
        ensures
            line == self.spec_line(),
    {
        self.line
    }

    /// The column number of the recorded call site.
    pub fn column(&self) -> (column: u32)
        ensures
            column == self.spec_column(),
    {
        self.column
    }
}

} // verus!
