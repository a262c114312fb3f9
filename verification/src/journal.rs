//! The error log. The board writes nowhere itself: it records the lines that
//! the program around it should hand to its logger.

use crate::text::texts;
use vstd::prelude::*;

verus! {

/// The lines recorded so far, oldest first. Its view is the sequence of their
/// texts.
pub struct ErrorLog {
    lines: Vec<String>,
}

impl View for ErrorLog {
    type V = Seq<Seq<char>>;

    closed spec fn view(&self) -> Seq<Seq<char>> {
        texts(self.lines@)
    }
}

impl ErrorLog {
    /// A log without lines.
    pub fn new() -> (log: ErrorLog)
        ensures
            log@ == Seq::<Seq<char>>::empty(),
    {
        let log = ErrorLog { lines: Vec::new() };
        assert(log@ =~= Seq::<Seq<char>>::empty());
        log
    }

    /// The number of lines recorded.
    pub fn len(&self) -> (n: usize)
        ensures
            n == self@.len(),
    {
        self.lines.len()
    }

    /// The line recorded as number `i`, counted from zero, if there is one.
    pub fn line(&self, i: usize) -> (line: Option<&str>)
        ensures
            line is Some <==> i < self@.len(),
            line is Some ==> line->0@ == self@[i as int],
    {
        if i < self.lines.len() {
            Some(self.lines[i].as_str())
        } else {
            None
        }
    }

    /// Hands out the lines recorded, oldest first, and leaves the log empty.
    pub fn drain(&mut self) -> (lines: Vec<String>)
        ensures
            texts(lines@) == old(self)@,
            final(self)@ == Seq::<Seq<char>>::empty(),
    {
        let mut lines: Vec<String> = Vec::new();
        std::mem::swap(&mut lines, &mut self.lines);
        assert(self@ =~= Seq::<Seq<char>>::empty());
        lines
    }
}

/// Records `msg` as the newest line of the error log.
pub fn log_error(log: &mut ErrorLog, msg: &str)
    ensures
        final(log)@ == old(log)@.push(msg@),
{
    log.lines.push(msg.to_owned());
    assert(log@ =~= old(log)@.push(msg@));
}

} // verus!
