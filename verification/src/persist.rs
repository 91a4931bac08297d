use vstd::prelude::*;
use vstd::string::StrSliceExecFns;
use crate::model::Model;

verus! {

/// `line` contains no line feed.
pub open spec fn newline_free(line: Seq<char>) -> bool {
    forall|j: int| 0 <= j < line.len() ==> line[j] != '\n'
}

/// No line of `lines` contains a line feed.
pub open spec fn all_newline_free(lines: Seq<Seq<char>>) -> bool {
    forall|i: int| 0 <= i < lines.len() ==> newline_free(#[trigger] lines[i])
}

/// The lines laid out one after another, each followed by one line feed.
pub open spec fn joined(lines: Seq<Seq<char>>) -> Seq<char>
    decreases lines.len(),
{
    if lines.len() == 0 {
        Seq::empty()
    } else {
        lines.first() + seq!['\n'] + joined(lines.drop_first())
    }
}

/// The exact text the write-back hands to the file: the lines joined with
/// line feeds plus one trailing line feed, which comes to every line
/// followed by one feed; an empty collection still yields a single feed.
pub open spec fn file_content(lines: Seq<Seq<char>>) -> Seq<char> {
    if lines.len() == 0 {
        seq!['\n']
    } else {
        joined(lines)
    }
}

/// The position of the first line feed in `s`, or `s.len()` if there is
/// none.
pub open spec fn first_newline(s: Seq<char>) -> int
    decreases s.len(),
{
    if s.len() == 0 {
        0
    } else if s.first() == '\n' {
        0
    } else {
        1 + first_newline(s.drop_first())
    }
}

/// How a reader turns file text back into lines: cut at every line feed and
/// drop the feed itself; text after the last feed forms a final line, and a
/// trailing feed adds no empty line.
pub open spec fn split_lines(s: Seq<char>) -> Seq<Seq<char>>
    decreases s.len(),
{
    if s.len() == 0 {
        Seq::empty()
    } else {
        let k = first_newline(s);
        if 0 <= k < s.len() {
            seq![s.subrange(0, k)] + split_lines(s.subrange(k + 1, s.len() as int))
        } else {
            seq![s]
        }
    }
}

/// In `line + "\n" + rest` with `line` feed-free, the first line feed is the
/// one written after `line`.
pub proof fn lemma_first_newline_at(line: Seq<char>, rest: Seq<char>)
    requires
        newline_free(line),
    ensures
        first_newline(line + seq!['\n'] + rest) == line.len(),
    decreases line.len(),
{
    let s = line + seq!['\n'] + rest;
    if line.len() == 0 {
        assert(s.first() == '\n');
    } else {
        assert(s.first() == line[0]);
        assert(s.drop_first() =~= line.drop_first() + seq!['\n'] + rest);
        assert(newline_free(line.drop_first()));
        lemma_first_newline_at(line.drop_first(), rest);
    }
}

/// Splitting takes one feed-free line, with its feed, off the front.
pub proof fn lemma_split_lines_step(line: Seq<char>, rest: Seq<char>)
    requires
        newline_free(line),
    ensures
        split_lines(line + seq!['\n'] + rest) == seq![line] + split_lines(rest),
{
    let s = line + seq!['\n'] + rest;
    lemma_first_newline_at(line, rest);
    assert(s.subrange(0, line.len() as int) =~= line);
    assert(s.subrange(line.len() as int + 1, s.len() as int) =~= rest);
}

pub proof fn lemma_joined_append(a: Seq<Seq<char>>, b: Seq<Seq<char>>)
    ensures
        joined(a + b) == joined(a) + joined(b),
    decreases a.len(),
{
    if a.len() == 0 {
        assert(a + b =~= b);
        assert(joined(a) + joined(b) =~= joined(b));
    } else {
        assert((a + b).drop_first() =~= a.drop_first() + b);
        lemma_joined_append(a.drop_first(), b);
        assert(joined(a) + joined(b) =~= a.first() + seq!['\n'] + (joined(a.drop_first())
            + joined(b)));
    }
}

/// Round trip of the persistence format: for a non-empty collection of
/// feed-free lines, reading the written file text back yields exactly the
/// lines that were written, in their order.
pub proof fn lemma_file_content_roundtrip(lines: Seq<Seq<char>>)
    requires
        lines.len() > 0,
        all_newline_free(lines),
    ensures
        split_lines(file_content(lines)) == lines,
    decreases lines.len(),
{
    let rest = lines.drop_first();
    if lines.len() == 1 {
        lemma_split_lines_step(lines.first(), Seq::empty());
        assert(joined(rest) == Seq::<char>::empty());
        assert(joined(lines) =~= lines.first() + seq!['\n'] + Seq::<char>::empty());
        assert(seq![lines.first()] + split_lines(Seq::empty()) =~= lines);
    } else {
        assert(all_newline_free(rest)) by {
            assert(forall|i: int| 0 <= i < rest.len() ==> rest[i] == lines[i + 1]);
        }
        lemma_split_lines_step(lines.first(), joined(rest));
        lemma_file_content_roundtrip(rest);
        assert(seq![lines.first()] + rest =~= lines);
    }
}

/// A text without line feeds has no first one: the search runs to the end.
pub proof fn lemma_first_newline_complete(s: Seq<char>)
    requires
        newline_free(s),
    ensures
        first_newline(s) == s.len(),
    decreases s.len(),
{
    if s.len() > 0 {
        assert(newline_free(s.drop_first()));
        lemma_first_newline_complete(s.drop_first());
    }
}

/// Splitting a non-empty feed-free text yields that text as the single
/// line.
pub proof fn lemma_split_lines_whole(s: Seq<char>)
    requires
        newline_free(s),
        s.len() > 0,
    ensures
        split_lines(s) == seq![s],
{
    lemma_first_newline_complete(s);
}

/// Builds the text the caller is to write back: every line's content in the
/// current order, each followed by one line feed.
pub fn joined_contents(model: &Model) -> (r: String)
    ensures
        r@ == file_content(model.contents()),
{
    proof {
        reveal_strlit("\n");
    }
    let n = model.lines.items.len();
    if n == 0 {
        assert("\n"@ =~= seq!['\n']);
        return "\n".to_owned();
    }
    let mut out = String::new();
    let mut i: usize = 0;
    while i < n
        invariant
            n == model.lines.items@.len(),
            i <= n,
            out@ == joined(model.contents().subrange(0, i as int)),
        decreases n - i,
    {
        proof {
            let contents = model.contents();
            assert(contents.subrange(0, i + 1) =~= contents.subrange(0, i as int) + seq![
                contents[i as int],
            ]);
            lemma_joined_append(contents.subrange(0, i as int), seq![contents[i as int]]);
            assert(seq![contents[i as int]].drop_first() =~= Seq::<Seq<char>>::empty());
            assert(joined(Seq::<Seq<char>>::empty()) == Seq::<char>::empty());
            assert(joined(seq![contents[i as int]]) =~= contents[i as int] + seq!['\n']);
            reveal_strlit("\n");
            assert("\n"@ =~= seq!['\n']);
        }
        out.append(model.lines.items[i].content.as_str());
        out.append("\n");
        i = i + 1;
    }
    proof {
        assert(model.contents().subrange(0, n as int) =~= model.contents());
    }
    out
}


/// Cuts file text into lines, exactly as `split_lines` describes: at every
/// line feed, dropping the feed; a trailing feed adds no empty line.
pub fn split_file_content(s: &str) -> (r: Vec<String>)
    ensures
        r.deep_view() == split_lines(s@),
{
    let n = s.unicode_len();
    let mut out: Vec<String> = Vec::new();
    let mut start: usize = 0;
    let mut i: usize = 0;
    proof {
        assert(s@.subrange(0, n as int) =~= s@);
        assert(out.deep_view() + split_lines(s@) =~= split_lines(s@));
    }
    while i < n
        invariant
            n == s@.len(),
            start <= i <= n,
            newline_free(s@.subrange(start as int, i as int)),
            split_lines(s@) == out.deep_view() + split_lines(s@.subrange(start as int, n as int)),
        decreases n - i,
    {
        if s.get_char(i) == '\n' {
            let ghost line = s@.subrange(start as int, i as int);
            let ghost rest = s@.subrange(i + 1, n as int);
            let ghost old_dv = out.deep_view();
            proof {
                assert(s@.subrange(start as int, n as int) =~= line + seq!['\n'] + rest);
                lemma_split_lines_step(line, rest);
            }
            let piece = s.substring_char(start, i).to_owned();
            out.push(piece);
            proof {
                assert(out.deep_view() =~= old_dv.push(line));
                assert(old_dv + (seq![line] + split_lines(rest)) =~= out.deep_view()
                    + split_lines(rest));
            }
            start = i + 1;
        } else {
            proof {
                assert(s@.subrange(start as int, i + 1) =~= s@.subrange(start as int, i as int)
                    .push(s@[i as int]));
            }
        }
        i = i + 1;
    }
    if start < n {
        let ghost line = s@.subrange(start as int, n as int);
        let ghost old_dv = out.deep_view();
        proof {
            lemma_split_lines_whole(line);
        }
        let piece = s.substring_char(start, n).to_owned();
        out.push(piece);
        proof {
            assert(out.deep_view() =~= old_dv.push(line));
            assert(old_dv + seq![line] =~= out.deep_view());
        }
    } else {
        proof {
            assert(s@.subrange(start as int, n as int) =~= Seq::<char>::empty());
            assert(out.deep_view() + split_lines(Seq::<char>::empty()) =~= out.deep_view());
        }
    }
    out
}

} // verus!
