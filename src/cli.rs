//! The run configuration that the command line supplies.
use vstd::prelude::*;

verus! {

/// The settings of one run.
pub struct Args {
    /// Path of the delimited input.
    pub input: String,
    /// Path of the delimited output.
    pub output: String,
    /// Records with a smaller electric range are left out.
    pub min_range: u16,
    /// Invalid and malformed rows are skipped rather than treated as fatal.
    pub skip_invalid: bool,
    /// One of `sequential`, `parallel`, `batched`.
    pub mode: String,
    /// Records per batch in the batched strategy.
    pub batch_size: usize,
}

/// The three filtering strategies.
#[derive(Debug, Clone, Copy, PartialEq, Eq, Structural)]
pub enum Mode {
    Sequential,
    Parallel,
    Batched,
}

/// The strategy that a mode name selects, if the name is one of the three.
pub open spec fn mode_named(name: Seq<char>) -> Option<Mode> {
    if name == "sequential"@ {
        Some(Mode::Sequential)
    } else if name == "parallel"@ {
        Some(Mode::Parallel)
    } else if name == "batched"@ {
        Some(Mode::Batched)
    } else {
        None
    }
}

impl Mode {
    pub fn from_name(name: &String) -> (r: Option<Mode>)
        ensures
            r == mode_named(name@),
    {
        if *name == "sequential".to_owned() {
            Some(Mode::Sequential)
        } else if *name == "parallel".to_owned() {
            Some(Mode::Parallel)
        } else if *name == "batched".to_owned() {
            Some(Mode::Batched)
        } else {
            None
        }
    }
}

impl Args {
    /// The strategy that `mode` names; `None` for any other name.
    pub fn selected_mode(&self) -> (r: Option<Mode>)
        ensures
            r == mode_named(self.mode@),
    {
        Mode::from_name(&self.mode)
    }
}

} // verus!
