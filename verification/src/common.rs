use vstd::prelude::*;

verus! {

/// Which screen the session currently shows: the line list or the help page.
#[derive(Clone, Copy, Debug, PartialEq, Eq)]
pub enum Screen {
    List,
    Help,
}

/// Whether the session loop keeps running. `Done` is terminal: it is entered
/// exactly once, at quit, and never left.
#[derive(Clone, Copy, Debug, PartialEq, Eq)]
pub enum RunningState {
    Running,
    Done,
}

} // verus!
