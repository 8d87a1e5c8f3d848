//! A line-oriented diagnostic writer: a line opens with the module's name in
//! brackets, gathers text, and is closed by exactly one line terminator.

use vstd::prelude::*;
use vstd::string::StringExecFns;

verus! {

/// The opening of a line written for `module`: `[module] `.
pub open spec fn log_prefix(module: Seq<char>) -> Seq<char> {
    seq!['['] + module + seq![']', ' ']
}

/// A line being written. It is consumed by `finish`, so each line receives
/// its terminator once.
pub struct Logger {
    line: String,
}

impl View for Logger {
    type V = Seq<char>;

    closed spec fn view(&self) -> Seq<char> {
        self.line@
    }
}

impl Logger {
    /// Gets a logger for a module; the line opens with the module's name.
    pub fn get(module: &str) -> (r: Logger)
        ensures
            r@ == log_prefix(module@),
    {
        let mut line = String::new();
        line.append("[");
        line.append(module);
        line.append("] ");
        proof {
            reveal_strlit("[");
            reveal_strlit("] ");
            assert(line@ =~= log_prefix(module@));
        }
        Logger { line }
    }

    /// Appends text to the line.
    pub fn write_str(&mut self, s: &str)
        ensures
            final(self)@ == old(self)@ + s@,
    {
        self.line.append(s);
    }

    /// Closes the line with its terminator and hands it out.
    pub fn finish(self) -> (r: String)
        ensures
            r@ == self@ + seq!['\n'],
    {
        let mut line = self.line;
        line.append("\n");
        proof {
            reveal_strlit("\n");
        }
        line
    }
}

} // verus!
