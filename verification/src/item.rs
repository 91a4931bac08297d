use vstd::prelude::*;

verus! {

/// An explicit two-state selection marker.
#[derive(Clone, Copy, Debug, PartialEq, Eq)]
pub enum Selected {
    Yes,
    No,
}

/// A minimal selectable line record: one line of text and its marker. It
/// predates the richer `LineItem` and remains for callers that want the
/// marker spelled out rather than kept as a boolean.
#[derive(Debug)]
pub struct Item {
    pub line: String,
    pub status: Selected,
}

impl Item {
    pub fn new(line: &str, status: Selected) -> (r: Self)
        ensures
            r.line@ == line@,
            r.status == status,
    {
        Item { line: line.to_owned(), status }
    }

    /// Flips the marker; the text stays as it is.
    pub fn toggle(&mut self)
        ensures
            final(self).line == old(self).line,
            final(self).status == match old(self).status {
                Selected::Yes => Selected::No,
                Selected::No => Selected::Yes,
            },
    {
        match self.status {
            Selected::Yes => self.status = Selected::No,
            Selected::No => self.status = Selected::Yes,
        }
    }
}

} // verus!
