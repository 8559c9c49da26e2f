//! Actions available while reading live output from a process: the callback
//! may replace the last read line with other lines or drop it.

use vstd::prelude::*;

verus! {

/// Holds the lines that will be emitted for the input line read last.
pub struct Actions {
    /// Lines pending emission; holds exactly the last input until the
    /// callback replaces or removes it.
    pub lines: Vec<String>,
}

impl Actions {
    /// Start with no pending lines.
    pub fn new() -> (r: Self)
        ensures
            r.lines@.len() == 0,
    {
        Actions { lines: Vec::new() }
    }

    /// Record the next input line; it becomes the single pending line.
    pub fn next_input(&mut self, input: &str)
        ensures
            final(self).lines@.len() == 1,
            final(self).lines@[0]@ == input@,
    {
        let mut lines: Vec<String> = Vec::new();
        lines.push(input.to_owned());
        self.lines = lines;
    }

    /// Take the pending lines, leaving none behind.
    pub fn take_lines(&mut self) -> (r: Vec<String>)
        ensures
            r == old(self).lines,
            final(self).lines@.len() == 0,
    {
        let mut taken: Vec<String> = Vec::new();
        core::mem::swap(&mut taken, &mut self.lines);
        taken
    }

    /// Replace the last read line with the given lines.
    pub fn replace_with_lines(&mut self, new_lines: Vec<String>)
        ensures
            final(self).lines == new_lines,
    {
        self.lines = new_lines;
    }

    /// Remove the last read line from the output.
    pub fn remove_line(&mut self)
        ensures
            final(self).lines@.len() == 0,
    {
        self.lines = Vec::new();
    }
}

} // verus!
