//! The facts about a document that the status line reports.

use crate::decimal::{spec_decimal, usize_to_string};
use vstd::prelude::*;

verus! {

/// A snapshot of the document's identity, size, cursor line and modified
/// flag, as shown in the status bar.
#[derive(Debug)]
pub struct DocumentStatus {
    pub file_name: String,
    pub number_of_lines: usize,
    pub line_number: usize,
    pub modified: bool,
}

impl PartialEq for DocumentStatus {
    fn eq(&self, other: &Self) -> bool {
        self.file_name == other.file_name && self.number_of_lines == other.number_of_lines
            && self.line_number == other.line_number && self.modified == other.modified
    }
}

impl vstd::std_specs::cmp::PartialEqSpecImpl for DocumentStatus {
    open spec fn obeys_eq_spec() -> bool {
        true
    }

    open spec fn eq_spec(&self, other: &DocumentStatus) -> bool {
        &&& self.file_name@ == other.file_name@
        &&& self.number_of_lines == other.number_of_lines
        &&& self.line_number == other.line_number
        &&& self.modified == other.modified
    }
}

impl Default for DocumentStatus {
    fn default() -> (s: DocumentStatus)
        ensures
            s.file_name@ == Seq::<char>::empty(),
            s.number_of_lines == 0,
            s.line_number == 0,
            !s.modified,
    {
        DocumentStatus {
            file_name: String::new(),
            number_of_lines: 0,
            line_number: 0,
            modified: false,
        }
    }
}

impl DocumentStatus {
    /// The line count followed by the word "lines".
    pub fn line_count_to_string(&self) -> (s: String)
        ensures
            s@ == spec_decimal(self.number_of_lines as int) + " lines"@,
    {
        let mut s = usize_to_string(self.number_of_lines);
        s.append(" lines");
        s
    }

    /// The marker shown for a document with unsaved changes, empty
    /// otherwise.
    pub fn modified_indicator_to_string(&self) -> (s: String)
        ensures
            self.modified ==> s@ == "(modified)"@,
            !self.modified ==> s@ == Seq::<char>::empty(),
    {
        if self.modified {
            let mut s = String::new();
            s.append("(modified)");
            proof {
                assert(s@ =~= "(modified)"@);
            }
            s
        } else {
            String::new()
        }
    }

    /// The one-based cursor line over the line count.
    pub fn position_indicator_to_string(&self) -> (s: String)
        ensures
            s@ == spec_decimal(
                if self.line_number < usize::MAX {
                    self.line_number + 1
                } else {
                    usize::MAX as int
                },
            ) + "/"@ + spec_decimal(self.number_of_lines as int),
    {
        let mut s = usize_to_string(self.line_number.saturating_add(1));
        s.append("/");
        let tail = usize_to_string(self.number_of_lines);
        s.append(tail.as_str());
        s
    }
}

} // verus!
