//! The log of a run: the lines that the child process and its supervisor
//! wrote, in the order in which they arrived.

use vstd::prelude::*;

verus! {

/// The text of a log: each line followed by a line feed.
pub open spec fn rendered(lines: Seq<Seq<char>>) -> Seq<char>
    decreases lines.len(),
{
    if lines.len() == 0 {
        Seq::empty()
    } else {
        rendered(lines.drop_last()) + lines.last() + seq!['\n']
    }
}

/// An ordered log of lines that only grows, until it is cleared as a whole.
pub struct OutputLog {
    lines: Vec<String>,
}

impl View for OutputLog {
    type V = Seq<Seq<char>>;

    /// The lines, oldest first.
    closed spec fn view(&self) -> Seq<Seq<char>> {
        self.lines.deep_view()
    }
}

impl OutputLog {
    /// An empty log.
    pub fn new() -> (log: Self)
        ensures
            log@ == Seq::<Seq<char>>::empty(),
    {
        let log = OutputLog { lines: Vec::new() };
        assert(log@ =~= Seq::<Seq<char>>::empty());
        log
    }

    /// Adds `line` after every line that the log holds.
    pub fn append(&mut self, line: &str)
        ensures
            final(self)@ == old(self)@.push(line@),
    {
        self.lines.push(line.to_owned());
        assert(self@ =~= old(self)@.push(line@));
    }

    /// Forgets every line.
    pub fn clear(&mut self)
        ensures
            final(self)@ == Seq::<Seq<char>>::empty(),
    {
        self.lines.clear();
        assert(self@ =~= Seq::<Seq<char>>::empty());
    }

    /// The whole log as text, as of this call.
    pub fn snapshot(&self) -> (text: String)
        ensures
            text@ == rendered(self@),
    {
        let mut text = String::new();
        for i in 0..self.lines.len()
            invariant
                text@ == rendered(self@.subrange(0, i as int)),
        {
            proof {
                reveal_strlit("\n");
                let seen = self@.subrange(0, i + 1);
                assert(seen.drop_last() =~= self@.subrange(0, i as int));
                assert(seen.last() == self.lines[i as int]@);
            }
            text.append(self.lines[i].as_str());
            text.append("\n");
            assert(text@ =~= rendered(self@.subrange(0, i + 1)));
        }
        assert(self@.subrange(0, self@.len() as int) =~= self@);
        text
    }
}

} // verus!
