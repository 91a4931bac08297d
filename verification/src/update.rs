use vstd::prelude::*;
use vstd::string::StringExecFns;
use crate::common::{RunningState, Screen};
use crate::message::{Effect, Key, Message};
use crate::model::{
    LineItem, Model, UserMessage, cleared, lemma_num_selected_bounds,
    lemma_num_selected_insert, lemma_num_selected_remove, lemma_num_selected_update,
    lemma_num_selected_zero, lemma_partition_lens, lemma_partition_push, num_selected,
    selected_lines, unselected_lines,
};

verus! {

/// The parts of the session no mutation-engine operation ever touches.
pub open spec fn session_unchanged(a: Model, b: Model) -> bool {
    &&& b.screen == a.screen
    &&& b.running_state == a.running_state
    &&& b.file_path == a.file_path
    &&& b.save_on_exit == a.save_on_exit
}

/// The pending message is an error carrying exactly `text`.
pub open spec fn is_error_message(m: Option<UserMessage>, text: Seq<char>) -> bool {
    m matches Some(UserMessage::Error(t)) && t@ == text
}

/// The pending message is a success note carrying exactly `text`.
pub open spec fn is_success_message(m: Option<UserMessage>, text: Seq<char>) -> bool {
    m matches Some(UserMessage::Success(t)) && t@ == text
}

/// Where a cursor at `i` lands after one step down in a collection of `len`
/// lines: the next index, clamped at the last line.
pub open spec fn clamped_next(i: usize, len: nat) -> Option<usize> {
    if i + 1 < len {
        Some((i + 1) as usize)
    } else {
        Some(i)
    }
}

/// The session with its pending message dropped; `update` does this before
/// dispatching any command.
pub open spec fn with_message_cleared(m: Model) -> Model {
    Model {
        screen: m.screen,
        running_state: m.running_state,
        file_path: m.file_path,
        lines: m.lines,
        selected_count: m.selected_count,
        message: None,
        save_on_exit: m.save_on_exit,
    }
}

/// How `select_next` turns session `a` into session `b`: pure cursor motion,
/// one step down, clamped at the last line.
pub open spec fn select_next_rel(a: Model, b: Model) -> bool {
    &&& session_unchanged(a, b)
    &&& b.lines.items == a.lines.items
    &&& b.selected_count == a.selected_count
    &&& b.message == a.message
    &&& (a.lines.cursor is None ==> b.lines.cursor is None)
    &&& (a.lines.cursor matches Some(i) ==> b.lines.cursor == clamped_next(
        i,
        a.lines.items@.len(),
    ))
}

/// How `select_previous` turns `a` into `b`: one step up, clamped at the
/// first line.
pub open spec fn select_previous_rel(a: Model, b: Model) -> bool {
    &&& session_unchanged(a, b)
    &&& b.lines.items == a.lines.items
    &&& b.selected_count == a.selected_count
    &&& b.message == a.message
    &&& (a.lines.cursor is None ==> b.lines.cursor is None)
    &&& (a.lines.cursor matches Some(i) ==> b.lines.cursor == Some(
        (if i > 0 {
            i - 1
        } else {
            0int
        }) as usize,
    ))
}

/// How `select_first` turns `a` into `b`.
pub open spec fn select_first_rel(a: Model, b: Model) -> bool {
    &&& session_unchanged(a, b)
    &&& b.lines.items == a.lines.items
    &&& b.selected_count == a.selected_count
    &&& b.message == a.message
    &&& (a.lines.cursor is None ==> b.lines.cursor is None)
    &&& (a.lines.cursor is Some ==> b.lines.cursor == Some(0usize))
}

/// How `select_last` turns `a` into `b`.
pub open spec fn select_last_rel(a: Model, b: Model) -> bool {
    &&& session_unchanged(a, b)
    &&& b.lines.items == a.lines.items
    &&& b.selected_count == a.selected_count
    &&& b.message == a.message
    &&& (a.lines.cursor is None ==> b.lines.cursor is None)
    &&& (a.lines.cursor is Some ==> b.lines.cursor == Some(
        (a.lines.items@.len() - 1) as usize,
    ))
}

/// Moves the cursor one line down, stopping at the last line.
pub fn select_next(model: &mut Model) -> (fx: Option<Effect>)
    requires
        old(model).wf(),
    ensures
        final(model).wf(),
        fx is None,
        select_next_rel(*old(model), *final(model)),
{
    if let Some(i) = model.lines.cursor {
        let n = model.lines.items.len();
        if i + 1 < n {
            model.lines.cursor = Some(i + 1);
        }
    }
    None
}

/// Moves the cursor one line up, stopping at the first line.
pub fn select_previous(model: &mut Model) -> (fx: Option<Effect>)
    requires
        old(model).wf(),
    ensures
        final(model).wf(),
        fx is None,
        select_previous_rel(*old(model), *final(model)),
{
    if let Some(i) = model.lines.cursor {
        if i > 0 {
            model.lines.cursor = Some(i - 1);
        }
    }
    None
}

/// Puts the cursor on the first line, if there is one.
pub fn select_first(model: &mut Model) -> (fx: Option<Effect>)
    requires
        old(model).wf(),
    ensures
        final(model).wf(),
        fx is None,
        select_first_rel(*old(model), *final(model)),
{
    if model.lines.cursor.is_some() {
        model.lines.cursor = Some(0);
    }
    None
}

/// Puts the cursor on the last line, if there is one.
pub fn select_last(model: &mut Model) -> (fx: Option<Effect>)
    requires
        old(model).wf(),
    ensures
        final(model).wf(),
        fx is None,
        select_last_rel(*old(model), *final(model)),
{
    if model.lines.cursor.is_some() {
        model.lines.cursor = Some(model.lines.items.len() - 1);
    }
    None
}

/// How `show_view` turns `a` into `b`: from the help screen any request
/// leads back to the list; otherwise the requested screen is shown.
pub open spec fn show_view_rel(a: Model, b: Model, screen: Screen) -> bool {
    &&& b == (Model {
        screen: if a.screen is Help {
            Screen::List
        } else {
            screen
        },
        ..a
    })
}

/// Switches to the requested screen, except that from the help screen any
/// request leads back to the list.
pub fn show_view(model: &mut Model, screen: Screen) -> (fx: Option<Effect>)
    requires
        old(model).wf(),
    ensures
        final(model).wf(),
        fx is None,
        show_view_rel(*old(model), *final(model), screen),
{
    model.screen = match model.screen {
        Screen::Help => Screen::List,
        _ => screen,
    };
    None
}

/// Clears every selection flag and the cached count; nothing moves.
pub fn unselect_selected_items(model: &mut Model)
    requires
        old(model).wf(),
    ensures
        final(model).wf(),
        session_unchanged(*old(model), *final(model)),
        final(model).lines.items@ == cleared(old(model).lines.items@),
        final(model).lines.cursor == old(model).lines.cursor,
        final(model).selected_count == 0,
        final(model).message == old(model).message,
{
    let ghost orig = old(model).lines.items@;
    let n = model.lines.items.len();
    let mut i: usize = 0;
    while i < n
        invariant
            n == model.lines.items@.len(),
            n == orig.len(),
            i <= n,
            forall|j: int|
                0 <= j < n ==> (#[trigger] model.lines.items@[j]) == if j < i {
                    (LineItem { content: orig[j].content, status: false })
                } else {
                    orig[j]
                },
            model.lines.cursor == old(model).lines.cursor,
            model.screen == old(model).screen,
            model.running_state == old(model).running_state,
            model.file_path == old(model).file_path,
            model.save_on_exit == old(model).save_on_exit,
            model.message == old(model).message,
        decreases n - i,
    {
        model.lines.items[i].status = false;
        i = i + 1;
    }
    model.selected_count = 0;
    proof {
        assert(model.lines.items@ =~= cleared(orig));
        lemma_num_selected_zero(model.lines.items@);
    }
}

/// How `toggle_current` turns `a` into `b`: the flag under the cursor is
/// flipped, the cached count follows it, and the cursor advances one step.
pub open spec fn toggle_current_rel(a: Model, b: Model) -> bool {
    &&& session_unchanged(a, b)
    &&& b.message == a.message
    &&& (a.lines.cursor is None ==> b == a)
    &&& (a.lines.cursor matches Some(i) ==> {
        &&& b.lines.items@ == a.lines.items@.update(
            i as int,
            (LineItem {
                content: a.lines.items@[i as int].content,
                status: !a.lines.items@[i as int].status,
            }),
        )
        &&& b.selected_count as int == a.selected_count + (if a.lines.items@[i as int].status {
            -1int
        } else {
            1int
        })
        &&& b.lines.cursor == clamped_next(i, a.lines.items@.len())
    })
}

/// Flips the selection flag under the cursor, adjusts the cached count, and
/// moves the cursor one line down, as `select_next` does.
pub fn toggle_current(model: &mut Model) -> (fx: Option<Effect>)
    requires
        old(model).wf(),
    ensures
        final(model).wf(),
        fx is None,
        toggle_current_rel(*old(model), *final(model)),
{
    if let Some(i) = model.lines.cursor {
        let ghost before = model.lines.items@;
        let n = model.lines.items.len();
        let selected = model.lines.items[i].toggle();
        proof {
            lemma_num_selected_update(before, i as int, model.lines.items@[i as int]);
            lemma_num_selected_bounds(model.lines.items@);
        }
        if selected {
            model.selected_count = model.selected_count + 1;
        } else {
            model.selected_count = model.selected_count - 1;
        }
    }
    select_next(model)
}

/// How `switch_with_next` turns `a` into `b`: the line under the cursor
/// trades places with the one below it and the cursor follows; on the last
/// line nothing happens.
pub open spec fn switch_with_next_rel(a: Model, b: Model) -> bool {
    let s = a.lines.items@;
    &&& session_unchanged(a, b)
    &&& b.selected_count == a.selected_count
    &&& b.message == a.message
    &&& (a.lines.cursor is None ==> b == a)
    &&& (a.lines.cursor matches Some(i) ==> {
        &&& (i == s.len() - 1 ==> b == a)
        &&& (i < s.len() - 1 ==> {
            &&& b.lines.items@ == s.update(i as int, s[i + 1]).update(i + 1, s[i as int])
            &&& b.lines.cursor == Some((i + 1) as usize)
        })
    })
}

/// Swaps the line under the cursor with the one below it; a no-op on the
/// last line.
pub fn switch_with_next(model: &mut Model) -> (fx: Option<Effect>)
    requires
        old(model).wf(),
    ensures
        final(model).wf(),
        fx is None,
        switch_with_next_rel(*old(model), *final(model)),
{
    if let Some(i) = model.lines.cursor {
        let n = model.lines.items.len();
        if i == n - 1 {
            return None;
        }
        let ghost s = model.lines.items@;
        let it = model.lines.items.remove(i);
        model.lines.items.insert(i + 1, it);
        model.lines.cursor = Some(i + 1);
        proof {
            lemma_num_selected_remove(s, i as int);
            lemma_num_selected_insert(s.remove(i as int), i + 1, s[i as int]);
            assert(model.lines.items@ =~= s.update(i as int, s[i + 1]).update(
                i + 1,
                s[i as int],
            ));
        }
    }
    None
}

/// How `switch_with_previous` turns `a` into `b`: the line under the cursor
/// trades places with the one above it and the cursor follows; on the first
/// line nothing happens.
pub open spec fn switch_with_previous_rel(a: Model, b: Model) -> bool {
    let s = a.lines.items@;
    &&& session_unchanged(a, b)
    &&& b.selected_count == a.selected_count
    &&& b.message == a.message
    &&& (a.lines.cursor is None ==> b == a)
    &&& (a.lines.cursor matches Some(i) ==> {
        &&& (i == 0 ==> b == a)
        &&& (i > 0 ==> {
            &&& b.lines.items@ == s.update(i - 1, s[i as int]).update(i as int, s[i - 1])
            &&& b.lines.cursor == Some((i - 1) as usize)
        })
    })
}

/// Swaps the line under the cursor with the one above it; a no-op on the
/// first line.
pub fn switch_with_previous(model: &mut Model) -> (fx: Option<Effect>)
    requires
        old(model).wf(),
    ensures
        final(model).wf(),
        fx is None,
        switch_with_previous_rel(*old(model), *final(model)),
{
    if let Some(i) = model.lines.cursor {
        if i == 0 {
            return None;
        }
        let ghost s = model.lines.items@;
        let it = model.lines.items.remove(i);
        model.lines.items.insert(i - 1, it);
        model.lines.cursor = Some(i - 1);
        proof {
            lemma_num_selected_remove(s, i as int);
            lemma_num_selected_insert(s.remove(i as int), i - 1, s[i as int]);
            assert(model.lines.items@ =~= s.update(i - 1, s[i as int]).update(
                i as int,
                s[i - 1],
            ));
        }
    }
    None
}

/// How `move_to_index` turns `a` into `b` when asked to move the line under
/// the cursor to `index`. While any line is selected, nothing moves and an
/// error is reported; an out-of-range target is likewise rejected; otherwise
/// the line is taken out and reinserted at the target, every other line
/// keeping its relative order, and the cursor follows it.
pub open spec fn move_to_index_rel(a: Model, b: Model, index: usize) -> bool {
    let s = a.lines.items@;
    &&& session_unchanged(a, b)
    &&& b.selected_count == a.selected_count
    &&& (num_selected(s) > 0 ==> {
        &&& b.lines == a.lines
        &&& is_error_message(b.message, "remove selection first"@)
    })
    &&& (num_selected(s) == 0 && index >= s.len() ==> {
        &&& b.lines == a.lines
        &&& is_error_message(b.message, "index is out of range"@)
    })
    &&& (num_selected(s) == 0 && index < s.len() ==> {
        &&& a.lines.cursor is Some
        &&& (a.lines.cursor matches Some(i) ==> {
            &&& (i == index ==> b == a)
            &&& (i != index ==> {
                &&& b.lines.items@ == s.remove(i as int).insert(index as int, s[i as int])
                &&& b.lines.cursor == Some(index)
                &&& b.message == a.message
            })
        })
    })
}

/// Moves the line under the cursor to the requested position. Rejected with
/// an error message while a selection is pending or when the target is out
/// of range; in both cases nothing moves.
pub fn move_to_index(model: &mut Model, index: usize) -> (fx: Option<Effect>)
    requires
        old(model).wf(),
    ensures
        final(model).wf(),
        fx is None,
        move_to_index_rel(*old(model), *final(model), index),
{
    proof {
        lemma_num_selected_zero(model.lines.items@);
    }
    if model.selected_count > 0 {
        model.message = Some(UserMessage::Error("remove selection first".to_owned()));
        return None;
    }
    let n = model.lines.items.len();
    if index >= n {
        model.message = Some(UserMessage::Error("index is out of range".to_owned()));
        return None;
    }
    if let Some(i) = model.lines.cursor {
        if i == index {
            return None;
        }
        let ghost s = model.lines.items@;
        let removed = model.lines.items.remove(i);
        model.lines.items.insert(index, removed);
        model.lines.cursor = Some(index);
        proof {
            lemma_num_selected_remove(s, i as int);
            lemma_num_selected_insert(s.remove(i as int), index as int, s[i as int]);
        }
    }
    None
}

/// How `move_item_to_top` turns `a` into `b`: the line under the cursor
/// becomes the first line, the lines that were above it all shift down one
/// place in their original order, the rest do not move, and the cursor goes
/// to the top.
pub open spec fn move_item_to_top_rel(a: Model, b: Model) -> bool {
    let s = a.lines.items@;
    &&& session_unchanged(a, b)
    &&& b.selected_count == a.selected_count
    &&& b.message == a.message
    &&& (a.lines.cursor is None ==> b == a)
    &&& (a.lines.cursor matches Some(i) ==> {
        &&& b.lines.items@ == seq![s[i as int]] + s.subrange(0, i as int) + s.subrange(
            i + 1,
            s.len() as int,
        )
        &&& b.lines.cursor == Some(0usize)
    })
}

/// Rotates the line under the cursor to the top: it becomes the first line
/// and everything that was above it shifts down one place, keeping its
/// relative order.
pub fn move_item_to_top(model: &mut Model) -> (fx: Option<Effect>)
    requires
        old(model).wf(),
    ensures
        final(model).wf(),
        fx is None,
        move_item_to_top_rel(*old(model), *final(model)),
{
    if let Some(i) = model.lines.cursor {
        let ghost s = model.lines.items@;
        if i > 0 {
            let it = model.lines.items.remove(i);
            model.lines.items.insert(0, it);
            proof {
                lemma_num_selected_remove(s, i as int);
                lemma_num_selected_insert(s.remove(i as int), 0, s[i as int]);
            }
        }
        model.lines.cursor = Some(0);
        proof {
            assert(model.lines.items@ =~= seq![s[i as int]] + s.subrange(0, i as int)
                + s.subrange(i + 1, s.len() as int));
        }
    }
    None
}

/// How `move_selection_to_top` turns `a` into `b`. With every line selected
/// it only clears the flags; with no line selected it does nothing; with a
/// proper selection it stably partitions the collection: the selected lines
/// first, flags cleared, then the unselected ones, each group in its
/// original relative order, and the cursor goes to the top.
pub open spec fn move_selection_to_top_rel(a: Model, b: Model) -> bool {
    let s = a.lines.items@;
    &&& session_unchanged(a, b)
    &&& (num_selected(s) == s.len() ==> {
        &&& b.lines.items@ == cleared(s)
        &&& b.lines.cursor == a.lines.cursor
        &&& b.selected_count == 0
        &&& b.message == a.message
    })
    &&& (num_selected(s) == 0 && s.len() > 0 ==> b == a)
    &&& (0 < num_selected(s) < s.len() ==> {
        &&& b.lines.items@ == cleared(selected_lines(s)) + unselected_lines(s)
        &&& b.lines.cursor == Some(0usize)
        &&& b.selected_count == 0
        &&& b.message == a.message
    })
}

/// Gathers the selected lines at the top as a stable partition, clearing
/// their flags; with everything selected it only clears the flags instead.
pub fn move_selection_to_top(model: &mut Model) -> (fx: Option<Effect>)
    requires
        old(model).wf(),
    ensures
        final(model).wf(),
        fx is None,
        move_selection_to_top_rel(*old(model), *final(model)),
{
    let ghost s = model.lines.items@;
    let n = model.lines.items.len();
    if model.selected_count == n {
        unselect_selected_items(model);
        return None;
    }
    let mut selected: Vec<LineItem> = Vec::new();
    let mut unselected: Vec<LineItem> = Vec::new();
    let mut i: usize = 0;
    while i < n
        invariant
            n == model.lines.items@.len(),
            i <= n,
            s == model.lines.items@,
            selected@ == cleared(selected_lines(s.subrange(0, i as int))),
            unselected@ == unselected_lines(s.subrange(0, i as int)),
        decreases n - i,
    {
        proof {
            let prefix = s.subrange(0, i as int);
            assert(s.subrange(0, i + 1) =~= prefix.push(s[i as int]));
            lemma_partition_push(prefix, s[i as int]);
            if s[i as int].status {
                assert(cleared(selected_lines(prefix).push(s[i as int])) =~= cleared(
                    selected_lines(prefix),
                ).push(
                    (LineItem { content: s[i as int].content, status: false }),
                ));
            }
        }
        if model.lines.items[i].status {
            let mut item = model.lines.items[i].clone();
            item.status = false;
            selected.push(item);
        } else {
            unselected.push(model.lines.items[i].clone());
        }
        i = i + 1;
    }
    proof {
        assert(s.subrange(0, n as int) =~= s);
        lemma_partition_lens(s);
    }
    if selected.is_empty() {
        proof {
            lemma_num_selected_zero(s);
        }
        return None;
    }
    selected.append(&mut unselected);
    model.lines.items = selected;
    model.lines.cursor = Some(0);
    model.selected_count = 0;
    proof {
        let result = cleared(selected_lines(s)) + unselected_lines(s);
        assert forall|k: int| 0 <= k < result.len() implies !(#[trigger] result[k]).status by {
            lemma_partition_lens(s);
        }
        lemma_num_selected_zero(result);
    }
    None
}

/// How `move_to_top` turns `a` into `b`: with no selection pending it
/// relocates the single line under the cursor, otherwise it gathers the
/// selected lines.
pub open spec fn move_to_top_rel(a: Model, b: Model) -> bool {
    &&& (num_selected(a.lines.items@) == 0 ==> move_item_to_top_rel(a, b))
    &&& (num_selected(a.lines.items@) > 0 ==> move_selection_to_top_rel(a, b))
}

/// Relocates one line or gathers the selected ones, depending on whether a
/// selection is pending.
pub fn move_to_top(model: &mut Model) -> (fx: Option<Effect>)
    requires
        old(model).wf(),
    ensures
        final(model).wf(),
        fx is None,
        move_to_top_rel(*old(model), *final(model)),
{
    if model.selected_count == 0 {
        move_item_to_top(model)
    } else {
        move_selection_to_top(model)
    }
}

/// How `go_back_or_quit` turns `a` into `b` with follow-up work `fx`. The
/// help screen absorbs the command as "go back". On the list screen a
/// pending selection is aborted instead of quitting: the flags are cleared
/// and the session keeps running. Only with nothing selected does the
/// session end, asking the caller to save first when so configured.
pub open spec fn go_back_or_quit_rel(a: Model, b: Model, fx: Option<Effect>) -> bool {
    &&& b.file_path == a.file_path
    &&& b.save_on_exit == a.save_on_exit
    &&& b.message == a.message
    &&& (a.screen is Help ==> {
        &&& b == (Model { screen: Screen::List, ..a })
        &&& fx is None
    })
    &&& (a.screen is List && num_selected(a.lines.items@) > 0 ==> {
        &&& b.lines.items@ == cleared(a.lines.items@)
        &&& b.lines.cursor == a.lines.cursor
        &&& b.selected_count == 0
        &&& b.screen == a.screen
        &&& b.running_state == a.running_state
        &&& fx is None
    })
    &&& (a.screen is List && num_selected(a.lines.items@) == 0 ==> {
        &&& b == (Model { running_state: RunningState::Done, ..a })
        &&& fx == if a.save_on_exit {
            Some(Effect::Save)
        } else {
            None::<Effect>
        }
    })
}

/// Handles the quit command: leaves the help screen, aborts a pending
/// selection, or ends the session (requesting a save first if configured).
pub fn go_back_or_quit(model: &mut Model) -> (fx: Option<Effect>)
    requires
        old(model).wf(),
    ensures
        final(model).wf(),
        go_back_or_quit_rel(*old(model), *final(model), fx),
{
    proof {
        lemma_num_selected_zero(model.lines.items@);
    }
    match model.screen {
        Screen::List => {
            if model.selected_count == 0 {
                model.running_state = RunningState::Done;
                if model.save_on_exit {
                    Some(Effect::Save)
                } else {
                    None
                }
            } else {
                unselect_selected_items(model);
                None
            }
        }
        Screen::Help => {
            model.screen = Screen::List;
            None
        }
    }
}

/// Records the outcome of the save the caller performed on the library's
/// behalf: a success note, or an error message carrying the caller's
/// description of what went wrong.
pub fn record_save_result(model: &mut Model, ok: bool, error: &str)
    requires
        old(model).wf(),
    ensures
        final(model).wf(),
        session_unchanged(*old(model), *final(model)),
        final(model).lines == old(model).lines,
        final(model).selected_count == old(model).selected_count,
        ok ==> is_success_message(final(model).message, "written to file"@),
        !ok ==> is_error_message(
            final(model).message,
            "couldn't write to file; error: "@ + error@,
        ),
{
    if ok {
        model.message = Some(UserMessage::Success("written to file".to_owned()));
    } else {
        let mut text = "couldn't write to file; error: ".to_owned();
        text.append(error);
        model.message = Some(UserMessage::Error(text));
    }
}

/// Applies one command to the session: the pending message is dropped, then
/// the command's operation runs. The returned effect is the outside work the
/// caller must now perform.
pub fn update(model: &mut Model, msg: Message) -> (fx: Option<Effect>)
    requires
        old(model).wf(),
    ensures
        final(model).wf(),
        final(model).lines.items@.len() == old(model).lines.items@.len(),
        final(model).file_path == old(model).file_path,
        final(model).save_on_exit == old(model).save_on_exit,
        ({
            let a = with_message_cleared(*old(model));
            match msg {
                Message::MoveToIndex(index) => move_to_index_rel(a, *final(model), index)
                    && fx is None,
                Message::GoToNextItem => select_next_rel(a, *final(model)) && fx is None,
                Message::GoToPreviousPreview => select_previous_rel(a, *final(model))
                    && fx is None,
                Message::GoToFirstItem => select_first_rel(a, *final(model)) && fx is None,
                Message::GoToLastItem => select_last_rel(a, *final(model)) && fx is None,
                Message::SwitchWithNextItem => switch_with_next_rel(a, *final(model))
                    && fx is None,
                Message::SwitchWithPreviousItem => switch_with_previous_rel(a, *final(model))
                    && fx is None,
                Message::MoveToTop => move_to_top_rel(a, *final(model)) && fx is None,
                Message::ToggleSelection => toggle_current_rel(a, *final(model)) && fx is None,
                Message::SaveSelection => *final(model) == a && fx == Some(Effect::Save),
                Message::ShowView(screen) => show_view_rel(a, *final(model), screen)
                    && fx is None,
                Message::Quit => go_back_or_quit_rel(a, *final(model), fx),
            }
        }),
{
    model.message = None;
    let fx = match msg {
        Message::MoveToIndex(index) => move_to_index(model, index),
        Message::GoToNextItem => select_next(model),
        Message::GoToPreviousPreview => select_previous(model),
        Message::GoToLastItem => select_last(model),
        Message::GoToFirstItem => select_first(model),
        Message::SwitchWithNextItem => switch_with_next(model),
        Message::SwitchWithPreviousItem => switch_with_previous(model),
        Message::MoveToTop => move_to_top(model),
        Message::ToggleSelection => toggle_current(model),
        Message::SaveSelection => Some(Effect::Save),
        Message::ShowView(screen) => show_view(model, screen),
        Message::Quit => go_back_or_quit(model),
    };
    proof {
        lemma_partition_lens(old(model).lines.items@);
    }
    fx
}

/// The command a key press stands for on the given screen. The list screen
/// carries the full mapping; the help screen only answers to quitting and to
/// toggling itself away.
pub open spec fn key_message(screen: Screen, key: Key) -> Option<Message> {
    match screen {
        Screen::List => match key {
            Key::Char(c) => if c == '1' {
                Some(Message::MoveToIndex(0))
            } else if c == '2' {
                Some(Message::MoveToIndex(1))
            } else if c == '3' {
                Some(Message::MoveToIndex(2))
            } else if c == '4' {
                Some(Message::MoveToIndex(3))
            } else if c == '5' {
                Some(Message::MoveToIndex(4))
            } else if c == '6' {
                Some(Message::MoveToIndex(5))
            } else if c == '7' {
                Some(Message::MoveToIndex(6))
            } else if c == '8' {
                Some(Message::MoveToIndex(7))
            } else if c == '9' {
                Some(Message::MoveToIndex(8))
            } else if c == 'j' {
                Some(Message::GoToNextItem)
            } else if c == 'k' {
                Some(Message::GoToPreviousPreview)
            } else if c == 'g' {
                Some(Message::GoToFirstItem)
            } else if c == 'G' {
                Some(Message::GoToLastItem)
            } else if c == 'J' {
                Some(Message::SwitchWithNextItem)
            } else if c == 'K' {
                Some(Message::SwitchWithPreviousItem)
            } else if c == 's' || c == ' ' {
                Some(Message::ToggleSelection)
            } else if c == 'q' {
                Some(Message::Quit)
            } else if c == '?' {
                Some(Message::ShowView(Screen::Help))
            } else if c == 'w' {
                Some(Message::SaveSelection)
            } else {
                None
            },
            Key::Down => Some(Message::GoToNextItem),
            Key::Up => Some(Message::GoToPreviousPreview),
            Key::Enter => Some(Message::MoveToTop),
            Key::Esc => Some(Message::Quit),
            Key::Other => None,
        },
        Screen::Help => match key {
            Key::Char(c) => if c == 'q' {
                Some(Message::Quit)
            } else if c == '?' {
                Some(Message::ShowView(Screen::Help))
            } else {
                None
            },
            Key::Esc => Some(Message::Quit),
            _ => None,
        },
    }
}

/// Translates one key press into a command, according to the screen the
/// session currently shows.
pub fn handle_key(model: &Model, key: Key) -> (msg: Option<Message>)
    ensures
        msg == key_message(model.screen, key),
{
    match model.screen {
        Screen::List => match key {
            Key::Char('1') => Some(Message::MoveToIndex(0)),
            Key::Char('2') => Some(Message::MoveToIndex(1)),
            Key::Char('3') => Some(Message::MoveToIndex(2)),
            Key::Char('4') => Some(Message::MoveToIndex(3)),
            Key::Char('5') => Some(Message::MoveToIndex(4)),
            Key::Char('6') => Some(Message::MoveToIndex(5)),
            Key::Char('7') => Some(Message::MoveToIndex(6)),
            Key::Char('8') => Some(Message::MoveToIndex(7)),
            Key::Char('9') => Some(Message::MoveToIndex(8)),
            Key::Char('j') | Key::Down => Some(Message::GoToNextItem),
            Key::Char('k') | Key::Up => Some(Message::GoToPreviousPreview),
            Key::Char('g') => Some(Message::GoToFirstItem),
            Key::Char('G') => Some(Message::GoToLastItem),
            Key::Char('J') => Some(Message::SwitchWithNextItem),
            Key::Char('K') => Some(Message::SwitchWithPreviousItem),
            Key::Enter => Some(Message::MoveToTop),
            Key::Char('s') | Key::Char(' ') => Some(Message::ToggleSelection),
            Key::Esc | Key::Char('q') => Some(Message::Quit),
            Key::Char('?') => Some(Message::ShowView(Screen::Help)),
            Key::Char('w') => Some(Message::SaveSelection),
            _ => None,
        },
        Screen::Help => match key {
            Key::Esc | Key::Char('q') => Some(Message::Quit),
            Key::Char('?') => Some(Message::ShowView(Screen::Help)),
            _ => None,
        },
    }
}

} // verus!

