//! State recorded by the line callback handed to a running command: keep the
//! original line, replace it with other lines, or remove it.

use vstd::prelude::*;

verus! {

/// What should happen to the line that was just read.
#[derive(Debug, PartialEq)]
pub enum InnerState {
    /// The line is dropped from the output.
    Removed,
    /// The line is kept as it was read.
    Original,
    /// The line is replaced by the given lines.
    Replaced(Vec<String>),
}

impl Default for InnerState {
    /// A fresh state keeps the line as it was read.
    fn default() -> (r: Self)
        ensures
            r == InnerState::Original,
    {
        InnerState::Original
    }
}

/// Actions available inside the line callback of a running command.
pub struct ProcessLinesActions {
    /// Decision recorded for the line read last.
    pub state: InnerState,
}

impl ProcessLinesActions {
    /// Start with the original line kept.
    pub fn new() -> (r: Self)
        ensures
            r.state == InnerState::Original,
    {
        ProcessLinesActions { state: InnerState::Original }
    }

    /// Take the recorded decision and reset to keeping the next line.
    pub fn take_lines(&mut self) -> (r: InnerState)
        ensures
            r == old(self).state,
            final(self).state == InnerState::Original,
    {
        let mut taken = InnerState::Original;
        core::mem::swap(&mut taken, &mut self.state);
        taken
    }

    /// Replace the last read line with the lines provided.
    pub fn replace_with_lines(&mut self, new_lines: Vec<String>)
        ensures
            final(self).state == InnerState::Replaced(new_lines),
    {
        self.state = InnerState::Replaced(new_lines);
    }

    /// Remove the last read line from the output.
    pub fn remove_line(&mut self)
        ensures
            final(self).state == InnerState::Removed,
    {
        self.state = InnerState::Removed;
    }
}

} // verus!
