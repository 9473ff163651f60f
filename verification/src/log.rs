//! The session log: rendered event lines in arrival order.

use vstd::prelude::*;
use crate::text::texts;

verus! {

/// Append-only sequence of rendered lines for one session.
pub struct SessionLog {
    lines: Vec<String>,
}

impl SessionLog {
    /// The lines held, oldest first, each as its characters.
    pub closed spec fn view(&self) -> Seq<Seq<char>> {
        texts(self.lines@)
    }

    /// A log with no lines.
    pub fn new() -> (log: SessionLog)
        ensures
            log@ == Seq::<Seq<char>>::empty(),
    {
        let log = SessionLog { lines: Vec::new() };
        assert(log@ =~= Seq::<Seq<char>>::empty());
        log
    }

    /// Adds `line` after every line already held.
    pub fn append(&mut self, line: String)
        ensures
            final(self)@ == old(self)@.push(line@),
    {
        self.lines.push(line);
        assert(self@ =~= old(self)@.push(line@));
    }

    /// The number of lines held.
    pub fn len(&self) -> (n: usize)
        ensures
            n == self@.len(),
    {
        self.lines.len()
    }

    /// A copy of every line held, oldest first.
    pub fn snapshot(&self) -> (lines: Vec<String>)
        ensures
            texts(lines@) == self@,
    {
        let mut lines: Vec<String> = Vec::new();
        let mut i: usize = 0;
        while i < self.lines.len()
            invariant
                i <= self.lines.len(),
                lines.len() == i,
                forall|j: int| 0 <= j < i ==> lines@[j]@ == self.lines@[j]@,
            decreases self.lines.len() - i,
        {
            lines.push(self.lines[i].clone());
            i += 1;
        }
        assert(texts(lines@) =~= self@);
        lines
    }
}

/// The log after the lines of `lines` were appended to `log` one by one, in
/// order.
pub open spec fn appended(log: Seq<Seq<char>>, lines: Seq<Seq<char>>) -> Seq<Seq<char>>
    decreases lines.len(),
{
    if lines.len() == 0 {
        log
    } else {
        appended(log, lines.drop_last()).push(lines.last())
    }
}

/// Any number of appends leaves what the log held before in place and adds
/// exactly the appended lines behind it, in the order of the appends:
/// nothing is lost, doubled or moved. On an empty log a snapshot taken
/// after the appends is the appended lines.
pub proof fn lemma_appends_keep_arrival_order(log: Seq<Seq<char>>, lines: Seq<Seq<char>>)
    ensures
        appended(log, lines) == log + lines,
        appended(Seq::empty(), lines) == lines,
        appended(log, lines).len() == log.len() + lines.len(),
        forall|i: int| 0 <= i < log.len() ==> appended(log, lines)[i] == log[i],
        forall|i: int| 0 <= i < lines.len() ==> appended(log, lines)[log.len() + i] == lines[i],
    decreases lines.len(),
{
    if lines.len() == 0 {
        assert(log + lines =~= log);
    } else {
        lemma_appends_keep_arrival_order(log, lines.drop_last());
        assert(appended(log, lines) =~= log + lines);
    }
    lemma_appends_from_empty(lines);
}

proof fn lemma_appends_from_empty(lines: Seq<Seq<char>>)
    ensures
        appended(Seq::empty(), lines) == lines,
    decreases lines.len(),
{
    if lines.len() > 0 {
        lemma_appends_from_empty(lines.drop_last());
        assert(appended(Seq::empty(), lines) =~= lines);
    }
}

} // verus!
