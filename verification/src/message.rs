use vstd::prelude::*;
use crate::common::Screen;

verus! {

/// An abstract command for the session, produced by the caller's event
/// source (one per key press) and consumed by `update`.
#[derive(Clone, Copy, Debug, PartialEq, Eq)]
pub enum Message {
    MoveToIndex(usize),
    GoToNextItem,
    GoToPreviousPreview,
    GoToFirstItem,
    GoToLastItem,
    SwitchWithNextItem,
    SwitchWithPreviousItem,
    MoveToTop,
    ToggleSelection,
    SaveSelection,
    ShowView(Screen),
    Quit,
}

/// A key press, reduced to what the command mapping reads. The caller
/// translates its raw keyboard events into this; anything the mapping
/// ignores arrives as `Other`.
#[derive(Clone, Copy, Debug, PartialEq, Eq)]
pub enum Key {
    Char(char),
    Enter,
    Esc,
    Up,
    Down,
    Other,
}

/// Outside work that `update` asks the caller to perform: the library never
/// touches the file system itself. After carrying out a `Save`, the caller
/// reports the outcome through `record_save_result`.
#[derive(Clone, Copy, Debug, PartialEq, Eq)]
pub enum Effect {
    Save,
}

} // verus!
