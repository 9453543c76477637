//! A log kept in a string, to be handed over and cleared.

use vstd::prelude::*;
use vstd::string::StringExecFns;

verus! {

/// A log kept as text.
pub struct StringLogger {
    log: String,
}

impl View for StringLogger {
    type V = Seq<char>;

    closed spec fn view(&self) -> Seq<char> {
        self.log@
    }
}

/// The line that records a message at a level: `LEVEL - message`.
pub open spec fn log_line(level: Seq<char>, message: Seq<char>) -> Seq<char> {
    level + " - "@ + message + "\n"@
}

impl StringLogger {
    /// Creates a new logger with an empty log.
    pub fn new() -> (r: Self)
        ensures
            r@ == Seq::<char>::empty(),
    {
        StringLogger { log: String::new() }
    }

    /// Records a message at a level, on a line of its own.
    pub fn log(&mut self, level: &str, message: &str)
        ensures
            final(self)@ == old(self)@ + log_line(level@, message@),
    {
        self.log.append(level);
        self.log.append(" - ");
        self.log.append(message);
        self.log.append("\n");
        assert(self@ =~= old(self)@ + log_line(level@, message@));
    }

    /// Returns the log.
    /// Log is cleared after this call.
    pub fn take_log(&mut self) -> (r: String)
        ensures
            r@ == old(self)@,
            final(self)@ == Seq::<char>::empty(),
    {
        let mut taken = String::new();
        std::mem::swap(&mut taken, &mut self.log);
        taken
    }
}


/// The lines that record a list of messages, each with its level, in order.
pub open spec fn log_lines(entries: Seq<(Seq<char>, Seq<char>)>) -> Seq<char>
    decreases entries.len(),
{
    if entries.len() == 0 {
        Seq::empty()
    } else {
        log_lines(entries.drop_last()) + log_line(entries.last().0, entries.last().1)
    }
}

/// Logging messages one after the other and then taking the log gives what was in the log
/// before, followed by one line per message in the order logged.
pub proof fn law_take_after_logging(
    before: Seq<char>,
    entries: Seq<(Seq<char>, Seq<char>)>,
    entry: (Seq<char>, Seq<char>),
)
    ensures
        before + log_lines(entries.push(entry)) == (before + log_lines(entries)) + log_line(
            entry.0,
            entry.1,
        ),
{
    assert(entries.push(entry).drop_last() =~= entries);
    assert(before + log_lines(entries.push(entry)) =~= (before + log_lines(entries)) + log_line(
        entry.0,
        entry.1,
    ));
}

} // verus!
