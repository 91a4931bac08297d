use vstd::prelude::*;
use crate::common::{RunningState, Screen};

verus! {

/// A transient note for the user: the outcome of the last command, shown
/// until the next command replaces or clears it.
#[derive(Debug)]
pub enum UserMessage {
    Success(String),
    Error(String),
}

impl UserMessage {
    /// The text carried by the message, whichever kind it is.
    pub fn value(&self) -> (r: String)
        ensures
            r@ == match *self {
                UserMessage::Success(v) => v@,
                UserMessage::Error(v) => v@,
            },
    {
        match self {
            UserMessage::Success(v) => v.clone(),
            UserMessage::Error(v) => v.clone(),
        }
    }
}

/// One line of the file: its text and whether it is currently selected.
/// The text is fixed at construction; only the flag and the line's position
/// in the collection ever change.
#[derive(Debug)]
pub struct LineItem {
    pub content: String,
    pub status: bool,
}

impl Clone for LineItem {
    fn clone(&self) -> (res: Self)
        ensures
            res == *self,
    {
        LineItem { content: self.content.clone(), status: self.status }
    }
}

impl LineItem {
    pub fn new(line: &str, status: bool) -> (r: Self)
        ensures
            r.content@ == line@,
            r.status == status,
    {
        LineItem { content: line.to_owned(), status }
    }

    /// Flips the selection flag and reports the new value.
    pub fn toggle(&mut self) -> (selected: bool)
        ensures
            final(self).content == old(self).content,
            final(self).status == !old(self).status,
            selected == final(self).status,
    {
        match self.status {
            true => {
                self.status = false;
                false
            }
            false => {
                self.status = true;
                true
            }
        }
    }
}

/// How many lines of `s` are selected.
pub open spec fn num_selected(s: Seq<LineItem>) -> int
    decreases s.len(),
{
    if s.len() == 0 {
        0
    } else {
        num_selected(s.drop_last()) + if s.last().status {
            1int
        } else {
            0int
        }
    }
}

/// No line of `s` is selected.
pub open spec fn all_unselected(s: Seq<LineItem>) -> bool {
    forall|i: int| 0 <= i < s.len() ==> !(#[trigger] s[i]).status
}

/// The same lines in the same order, every selection flag cleared.
pub open spec fn cleared(s: Seq<LineItem>) -> Seq<LineItem> {
    s.map_values(|it: LineItem| LineItem { content: it.content, status: false })
}

pub proof fn lemma_num_selected_bounds(s: Seq<LineItem>)
    ensures
        0 <= num_selected(s) <= s.len(),
    decreases s.len(),
{
    if s.len() > 0 {
        lemma_num_selected_bounds(s.drop_last());
    }
}

/// The selected-line count is zero exactly when no line is selected.
pub proof fn lemma_num_selected_zero(s: Seq<LineItem>)
    ensures
        num_selected(s) == 0 <==> all_unselected(s),
    decreases s.len(),
{
    if s.len() > 0 {
        lemma_num_selected_zero(s.drop_last());
        lemma_num_selected_bounds(s.drop_last());
        assert(s.last() == s[s.len() - 1]);
        if all_unselected(s) {
            assert(forall|i: int|
                0 <= i < s.drop_last().len() ==> !(#[trigger] s.drop_last()[i]).status);
        }
        if num_selected(s) == 0 {
            assert(all_unselected(s.drop_last()));
            assert(forall|i: int| 0 <= i < s.len() - 1 ==> s.drop_last()[i] == s[i]);
        }
    }
}

pub proof fn lemma_num_selected_append(a: Seq<LineItem>, b: Seq<LineItem>)
    ensures
        num_selected(a + b) == num_selected(a) + num_selected(b),
    decreases b.len(),
{
    if b.len() == 0 {
        assert(a + b =~= a);
    } else {
        lemma_num_selected_append(a, b.drop_last());
        assert((a + b).drop_last() =~= a + b.drop_last());
        assert((a + b).last() == b.last());
    }
}

pub proof fn lemma_num_selected_remove(s: Seq<LineItem>, i: int)
    requires
        0 <= i < s.len(),
    ensures
        num_selected(s.remove(i)) == num_selected(s) - if s[i].status {
            1int
        } else {
            0int
        },
{
    let a = s.subrange(0, i);
    let m = seq![s[i]];
    let b = s.subrange(i + 1, s.len() as int);
    assert(s =~= (a + m) + b);
    assert(s.remove(i) =~= a + b);
    lemma_num_selected_append(a + m, b);
    lemma_num_selected_append(a, m);
    lemma_num_selected_append(a, b);
    assert(num_selected(Seq::<LineItem>::empty()) == 0);
    assert(m.drop_last() =~= Seq::<LineItem>::empty());
    assert(num_selected(m) == if s[i].status { 1int } else { 0int });
}

pub proof fn lemma_num_selected_insert(s: Seq<LineItem>, i: int, it: LineItem)
    requires
        0 <= i <= s.len(),
    ensures
        num_selected(s.insert(i, it)) == num_selected(s) + if it.status {
            1int
        } else {
            0int
        },
{
    let a = s.subrange(0, i);
    let m = seq![it];
    let b = s.subrange(i, s.len() as int);
    assert(s =~= a + b);
    assert(s.insert(i, it) =~= (a + m) + b);
    lemma_num_selected_append(a + m, b);
    lemma_num_selected_append(a, m);
    lemma_num_selected_append(a, b);
    assert(num_selected(Seq::<LineItem>::empty()) == 0);
    assert(m.drop_last() =~= Seq::<LineItem>::empty());
    assert(num_selected(m) == if it.status { 1int } else { 0int });
}

/// The selected lines of `s`, in their original relative order.
pub open spec fn selected_lines(s: Seq<LineItem>) -> Seq<LineItem> {
    s.filter(|it: LineItem| it.status)
}

/// The unselected lines of `s`, in their original relative order.
pub open spec fn unselected_lines(s: Seq<LineItem>) -> Seq<LineItem> {
    s.filter(|it: LineItem| !it.status)
}

pub proof fn lemma_partition_lens(s: Seq<LineItem>)
    ensures
        selected_lines(s).len() == num_selected(s),
        unselected_lines(s).len() == s.len() - num_selected(s),
        all_unselected(unselected_lines(s)),
    decreases s.len(),
{
    reveal(Seq::filter);
    if s.len() > 0 {
        lemma_partition_lens(s.drop_last());
    }
}

/// Extending the scanned prefix by one line extends exactly one side of the
/// partition.
pub proof fn lemma_partition_push(s: Seq<LineItem>, x: LineItem)
    ensures
        selected_lines(s.push(x)) == if x.status {
            selected_lines(s).push(x)
        } else {
            selected_lines(s)
        },
        unselected_lines(s.push(x)) == if x.status {
            unselected_lines(s)
        } else {
            unselected_lines(s).push(x)
        },
{
    reveal(Seq::filter);
    assert(s.push(x).drop_last() =~= s);
    assert(s.push(x).last() == x);
}

pub proof fn lemma_num_selected_update(s: Seq<LineItem>, i: int, it: LineItem)
    requires
        0 <= i < s.len(),
    ensures
        num_selected(s.update(i, it)) == num_selected(s) - (if s[i].status {
            1int
        } else {
            0int
        }) + (if it.status {
            1int
        } else {
            0int
        }),
{
    assert(s.update(i, it) =~= s.remove(i).insert(i, it));
    lemma_num_selected_remove(s, i);
    lemma_num_selected_insert(s.remove(i), i, it);
}

/// The ordered line collection together with the cursor (the highlighted
/// index). The cursor is a plain value, absent exactly while the collection
/// is empty; cursor motion clamps at both ends rather than wrapping.
#[derive(Debug)]
pub struct Lines {
    pub items: Vec<LineItem>,
    pub cursor: Option<usize>,
}

impl Lines {
    /// The cursor is present exactly when there are lines, and then holds a
    /// valid index.
    pub open spec fn wf(self) -> bool {
        &&& self.cursor is Some <==> self.items@.len() > 0
        &&& (self.cursor matches Some(i) ==> i < self.items@.len())
    }

    /// Builds the collection from the input lines, in their order, all
    /// unselected, with the cursor on the first line if there is one.
    pub fn from(value: &Vec<String>) -> (r: Lines)
        ensures
            r.wf(),
            r.items@.len() == value@.len(),
            forall|i: int|
                0 <= i < value@.len() ==> (#[trigger] r.items@[i]).content@ == value@[i]@
                    && !r.items@[i].status,
            r.cursor == if value@.len() > 0 {
                Some(0usize)
            } else {
                None::<usize>
            },
    {
        let mut items: Vec<LineItem> = Vec::new();
        let mut i: usize = 0;
        while i < value.len()
            invariant
                i <= value@.len(),
                items@.len() == i,
                forall|j: int|
                    0 <= j < i ==> (#[trigger] items@[j]).content@ == value@[j]@
                        && !items@[j].status,
            decreases value@.len() - i,
        {
            items.push(LineItem::new(value[i].as_str(), false));
            i = i + 1;
        }
        let cursor = if items.len() > 0 {
            Some(0usize)
        } else {
            None
        };
        Lines { items, cursor }
    }
}

/// The whole session: the line collection, the cached selected count, the
/// screen in view, the pending user message, and the quit bookkeeping.
#[derive(Debug)]
pub struct Model {
    pub screen: Screen,
    pub running_state: RunningState,
    pub file_path: String,
    pub lines: Lines,
    pub selected_count: usize,
    pub message: Option<UserMessage>,
    pub save_on_exit: bool,
}

impl Model {
    /// The invariant every operation preserves: the cursor is valid and the
    /// cached count equals the number of selected lines.
    pub open spec fn wf(self) -> bool {
        &&& self.lines.wf()
        &&& self.selected_count as int == num_selected(self.lines.items@)
    }

    /// The line texts, in their current order.
    pub open spec fn contents(self) -> Seq<Seq<char>> {
        self.lines.items@.map_values(|it: LineItem| it.content@)
    }

    /// A fresh session over the given lines: list screen, running, nothing
    /// selected, no pending message.
    pub fn default(file_path: String, lines: &Vec<String>, save_on_exit: bool) -> (m: Model)
        ensures
            m.wf(),
            m.screen is List,
            m.running_state is Running,
            m.file_path == file_path,
            m.lines.items@.len() == lines@.len(),
            forall|i: int|
                0 <= i < lines@.len() ==> (#[trigger] m.lines.items@[i]).content@ == lines@[i]@
                    && !m.lines.items@[i].status,
            m.lines.cursor == if lines@.len() > 0 {
                Some(0usize)
            } else {
                None::<usize>
            },
            m.selected_count == 0,
            m.message is None,
            m.save_on_exit == save_on_exit,
    {
        let built = Lines::from(lines);
        proof {
            lemma_num_selected_zero(built.items@);
        }
        Model {
            screen: Screen::List,
            running_state: RunningState::Running,
            file_path,
            lines: built,
            selected_count: 0,
            message: None,
            save_on_exit,
        }
    }
}

} // verus!
