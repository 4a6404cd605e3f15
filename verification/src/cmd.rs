//! What a run was asked to show besides the program's own output.

use vstd::prelude::*;

verus! {

/// An intermediate form that a run can print.
#[derive(Copy, Clone, Debug, PartialEq, Eq, Structural)]
pub enum Emit {
    Tokens,
    Ast,
}

/// The request for one run: the program's file and the forms to print.
#[derive(Debug)]
pub struct Command {
    pub file: String,
    pub emit: Vec<Emit>,
}

impl Command {
    /// Whether the run was asked to print the form `e`.
    pub fn should_emit(&self, e: Emit) -> (r: bool)
        ensures
            r == self.emit@.contains(e),
    {
        let mut i: usize = 0;
        while i < self.emit.len()
            invariant
                0 <= i <= self.emit.len(),
                forall|j: int| 0 <= j < i ==> self.emit[j] != e,
            decreases self.emit.len() - i,
        {
            if self.emit[i] == e {
                return true;
            }
            i += 1;
        }
        false
    }
}

} // verus!
