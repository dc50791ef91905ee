//! The status log: progress lines that a run appends and a viewer reads.

use vstd::prelude::*;
use crate::text::{appended, joined, push_line};

verus! {

/// An append-only log of text lines. The only way to change it is to append
/// a whole line, so what was read once stays a prefix of everything read
/// later, and every text read is made of whole lines.
pub struct StatusLog {
    lines: Vec<String>,
}

impl View for StatusLog {
    type V = Seq<Seq<char>>;

    /// The lines appended so far, oldest first.
    closed spec fn view(&self) -> Seq<Seq<char>> {
        Seq::new(self.lines@.len(), |i: int| self.lines@[i]@)
    }
}

/// Appending lines only ever extends the text.
pub proof fn lemma_joined_prefix(earlier: Seq<Seq<char>>, later: Seq<Seq<char>>)
    requires
        earlier.is_prefix_of(later),
    ensures
        joined(earlier).is_prefix_of(joined(later)),
    decreases later.len(),
{
    if earlier.len() < later.len() {
        assert(earlier.is_prefix_of(later.drop_last()));
        lemma_joined_prefix(earlier, later.drop_last());
    } else {
        assert(earlier == later);
    }
}

/// The text after further lines is the text before, followed by those
/// lines whole: whatever was read at some time ends at the end of a line
/// of everything read later.
pub proof fn lemma_joined_extends(earlier: Seq<Seq<char>>, further: Seq<Seq<char>>)
    ensures
        joined(earlier + further) == joined(earlier) + joined(further),
    decreases further.len(),
{
    if further.len() == 0 {
        assert(earlier + further == earlier);
    } else {
        assert((earlier + further).drop_last() == earlier + further.drop_last());
        lemma_joined_extends(earlier, further.drop_last());
    }
}

impl StatusLog {
    /// The full text of the log: each line after a line break.
    pub open spec fn text(&self) -> Seq<char> {
        joined(self@)
    }

    /// An empty log.
    pub fn new() -> (log: StatusLog)
        ensures
            log@ == Seq::<Seq<char>>::empty(),
    {
        StatusLog { lines: Vec::new() }
    }

    /// Appends one line after a separating line break.
    pub fn append(&mut self, line: &str)
        ensures
            final(self)@ == old(self)@.push(line@),
            final(self).text() == appended(old(self).text(), line@),
            old(self).text().is_prefix_of(final(self).text()),
    {
        self.lines.push(line.to_owned());
        assert(self@.drop_last() == old(self)@);
    }

    /// The number of lines appended so far.
    pub fn line_count(&self) -> (count: usize)
        ensures
            count == self@.len(),
    {
        self.lines.len()
    }

    /// The full text accumulated so far: each appended line after a line
    /// break, in the order of appending.
    pub fn read(&self) -> (text: String)
        ensures
            text@ == self.text(),
    {
        let mut text = String::new();
        let mut i: usize = 0;
        while i < self.lines.len()
            invariant
                i <= self.lines.len(),
                text@ == joined(self@.take(i as int)),
            decreases self.lines.len() - i,
        {
            assert(self@.take(i + 1).drop_last() == self@.take(i as int));
            push_line(&mut text, self.lines[i].as_str());
            i = i + 1;
        }
        assert(self@.take(i as int) == self@);
        text
    }
}

} // verus!
