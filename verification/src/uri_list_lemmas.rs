//! Proofs about the lines and entries of a text, on which the laws of the
//! URI list rest.

use crate::uri_list::{
    all_entries, decoded, entries_of, first_break, is_break_run, is_entry, is_line, join_lines,
    nonblank, separates, split_lines, trim_returns, unix_line_ends, weave, without_blank_lines,
};
use vstd::prelude::*;

verus! {

/// `first_break` is a position in the text or its length, no line feed stands
/// before it, and one stands at it unless it is the length.
pub proof fn lemma_first_break(text: Seq<char>)
    ensures
        0 <= first_break(text) <= text.len(),
        first_break(text) < text.len() ==> text[first_break(text)] == '\n',
        forall|i: int| 0 <= i < first_break(text) ==> text[i] != '\n',
    decreases text.len(),
{
    if text.len() == 0 || text[0] == '\n' {
    } else {
        let rest = text.drop_first();
        lemma_first_break(rest);
        assert forall|i: int| 0 <= i < first_break(text) implies text[i] != '\n' by {
            if i > 0 {
                assert(text[i] == rest[i - 1]);
            }
        }
    }
}

/// The first line feed of two texts in a row is that of the first text, or
/// else that of the second.
pub proof fn lemma_first_break_concat(head: Seq<char>, tail: Seq<char>)
    ensures
        first_break(head + tail) == if first_break(head) < head.len() {
            first_break(head)
        } else {
            head.len() + first_break(tail)
        },
    decreases head.len(),
{
    lemma_first_break(head);
    if head.len() == 0 {
        assert(head + tail =~= tail);
    } else if head[0] == '\n' {
    } else {
        assert((head + tail).drop_first() =~= head.drop_first() + tail);
        lemma_first_break_concat(head.drop_first(), tail);
    }
}

/// Every text has at least one line.
pub proof fn lemma_split_nonempty(text: Seq<char>)
    ensures
        split_lines(text).len() >= 1,
    decreases text.len(),
{
    lemma_first_break(text);
    let at = first_break(text);
    if 0 <= at < text.len() {
        lemma_split_nonempty(text.skip(at + 1));
    }
}

/// A line feed between two texts separates the lines of the one from the
/// lines of the other.
pub proof fn lemma_split_at_break(head: Seq<char>, tail: Seq<char>)
    ensures
        split_lines(head + seq!['\n'] + tail) == split_lines(head) + split_lines(tail),
    decreases head.len(),
{
    let whole = head + seq!['\n'] + tail;
    lemma_first_break(head);
    lemma_first_break_concat(head, seq!['\n'] + tail);
    assert(whole =~= head + (seq!['\n'] + tail));
    assert(first_break(seq!['\n'] + tail) == 0);
    let at = first_break(head);
    assert(first_break(whole) == at);
    if at < head.len() {
        assert(whole.take(at) =~= head.take(at));
        assert(whole.skip(at + 1) =~= head.skip(at + 1) + seq!['\n'] + tail);
        lemma_split_at_break(head.skip(at + 1), tail);
        assert(split_lines(whole) =~= split_lines(head) + split_lines(tail));
    } else {
        assert(whole.take(at) =~= head);
        assert(whole.skip(at + 1) =~= tail);
        assert(split_lines(head) =~= seq![head]);
    }
}

/// A character other than a line feed, put at the end of a text, extends the
/// last line.
pub proof fn lemma_split_push_char(text: Seq<char>, c: char)
    requires
        c != '\n',
    ensures
        split_lines(text).len() >= 1,
        split_lines(text.push(c)) == split_lines(text).drop_last().push(
            split_lines(text).last().push(c),
        ),
    decreases text.len(),
{
    lemma_split_nonempty(text);
    lemma_first_break(text);
    lemma_first_break_concat(text, seq![c]);
    assert(text.push(c) =~= text + seq![c]);
    assert(first_break(seq![c]) == 1) by {
        assert(seq![c].len() == 1 && seq![c][0] == c);
        assert(seq![c].drop_first().len() == 0);
        assert(first_break(seq![c].drop_first()) == 0);
    }
    let at = first_break(text);
    let longer = text.push(c);
    if at < text.len() {
        assert(longer.take(at) =~= text.take(at));
        assert(longer.skip(at + 1) =~= text.skip(at + 1).push(c));
        lemma_split_push_char(text.skip(at + 1), c);
        let rest = split_lines(text.skip(at + 1));
        assert(split_lines(longer) =~= (seq![text.take(at)] + rest).drop_last().push(
            rest.last().push(c),
        ));
    } else {
        assert(first_break(longer) == longer.len());
        assert(split_lines(text) =~= seq![text]);
        assert(split_lines(longer) =~= seq![text].drop_last().push(text.push(c)));
    }
}

/// A line feed put at the end of a text opens a new, empty line.
pub proof fn lemma_split_push_break(text: Seq<char>)
    ensures
        split_lines(text.push('\n')) == split_lines(text).push(Seq::empty()),
{
    lemma_split_at_break(text, Seq::empty());
    assert(text.push('\n') =~= text + seq!['\n'] + Seq::<char>::empty());
    assert(split_lines(Seq::<char>::empty()) =~= seq![Seq::<char>::empty()]);
    assert(split_lines(text) + seq![Seq::<char>::empty()] =~= split_lines(text).push(
        Seq::empty(),
    ));
}

/// The entries of two runs of lines in a row are the entries of the first
/// followed by those of the second.
pub proof fn lemma_entries_concat(front: Seq<Seq<char>>, back: Seq<Seq<char>>)
    ensures
        entries_of(front + back) == entries_of(front) + entries_of(back),
    decreases back.len(),
{
    if back.len() == 0 {
        assert(front + back =~= front);
        assert(entries_of(front) + entries_of(back) =~= entries_of(front));
    } else {
        assert((front + back).drop_last() =~= front + back.drop_last());
        assert((front + back).last() == back.last());
        lemma_entries_concat(front, back.drop_last());
        let entry = trim_returns(back.last());
        if entry.len() != 0 {
            assert((entries_of(front) + entries_of(back.drop_last())).push(entry) =~= entries_of(
                front,
            ) + entries_of(back.drop_last()).push(entry));
        }
    }
}

/// A carriage return at the end of a text adds no entry and changes none.
pub proof fn lemma_decoded_push_return(text: Seq<char>)
    ensures
        decoded(text.push('\r')) == decoded(text),
{
    lemma_split_push_char(text, '\r');
    let lines = split_lines(text);
    let last = lines.last();
    let longer = lines.drop_last().push(last.push('\r'));
    assert(longer.drop_last() =~= lines.drop_last());
    assert(last.push('\r').drop_last() =~= last);
    assert(trim_returns(last.push('\r')) == trim_returns(last));
}

/// A line feed between two texts separates the entries of the one from the
/// entries of the other.
pub proof fn lemma_decoded_at_break(head: Seq<char>, tail: Seq<char>)
    ensures
        decoded(head + seq!['\n'] + tail) == decoded(head) + decoded(tail),
{
    lemma_split_at_break(head, tail);
    lemma_entries_concat(split_lines(head), split_lines(tail));
}

/// The empty text holds no entry.
pub proof fn lemma_decoded_empty()
    ensures
        decoded(Seq::<char>::empty()) == Seq::<Seq<char>>::empty(),
{
    reveal_with_fuel(entries_of, 2);
    let lines = split_lines(Seq::<char>::empty());
    assert(lines =~= seq![Seq::<char>::empty()]);
    assert(decoded(Seq::<char>::empty()) =~= Seq::<Seq<char>>::empty());
}

/// An entry alone decodes to itself.
pub proof fn lemma_decoded_entry(entry: Seq<char>)
    requires
        is_entry(entry),
    ensures
        decoded(entry) == seq![entry],
{
    lemma_first_break(entry);
    reveal_with_fuel(entries_of, 2);
    let lines = split_lines(entry);
    assert(lines =~= seq![entry]);
    assert(decoded(entry) =~= seq![entry]);
}

/// A run of line ends between two texts separates their entries. An empty
/// run does so only after an empty text.
pub proof fn lemma_decoded_across_run(head: Seq<char>, run: Seq<char>, tail: Seq<char>)
    requires
        is_break_run(run),
        run.len() > 0 || head.len() == 0,
    ensures
        decoded(head + run + tail) == decoded(head) + decoded(tail),
    decreases run.len(),
{
    lemma_decoded_empty();
    let none = Seq::<char>::empty();
    if run.len() == 0 {
        assert(head =~= none);
        assert(head + run + tail =~= tail);
        assert(decoded(head) + decoded(tail) =~= decoded(tail));
    } else if run[0] == '\n' {
        let rest = run.skip(1);
        assert forall|i: int| 0 <= i < rest.len() implies (#[trigger] rest[i] == '\n' || (rest[i]
            == '\r' && i + 1 < rest.len() && rest[i + 1] == '\n')) by {
            assert(rest[i] == run[i + 1]);
        }
        assert(head + run + tail =~= head + seq!['\n'] + (none + rest + tail));
        lemma_decoded_at_break(head, none + rest + tail);
        lemma_decoded_across_run(none, rest, tail);
        assert(decoded(none) + decoded(tail) =~= decoded(tail));
    } else {
        assert(run[0] == '\r' && run[1] == '\n');
        let rest = run.skip(2);
        assert forall|i: int| 0 <= i < rest.len() implies (#[trigger] rest[i] == '\n' || (rest[i]
            == '\r' && i + 1 < rest.len() && rest[i + 1] == '\n')) by {
            assert(rest[i] == run[i + 2]);
        }
        assert(head + run + tail =~= head.push('\r') + seq!['\n'] + (none + rest + tail));
        lemma_decoded_at_break(head.push('\r'), none + rest + tail);
        lemma_decoded_push_return(head);
        lemma_decoded_across_run(none, rest, tail);
        assert(decoded(none) + decoded(tail) =~= decoded(tail));
    }
}

/// Entries woven with runs of line ends decode to the entries.
pub proof fn lemma_decoded_weave(entries: Seq<Seq<char>>, runs: Seq<Seq<char>>)
    requires
        all_entries(entries),
        separates(runs, entries),
    ensures
        decoded(weave(entries, runs)) == entries,
    decreases entries.len(),
{
    if entries.len() == 0 {
        lemma_decoded_empty();
        assert(entries =~= Seq::<Seq<char>>::empty());
    } else if entries.len() == 1 {
        assert(is_entry(entries[0]));
        lemma_decoded_entry(entries[0]);
        assert(entries =~= seq![entries[0]]);
    } else {
        let front = entries.drop_last();
        let front_runs = runs.drop_last();
        assert(all_entries(front)) by {
            assert forall|i: int| 0 <= i < front.len() implies is_entry(#[trigger] front[i]) by {
                assert(front[i] == entries[i]);
            }
        }
        assert(separates(front_runs, front)) by {
            assert forall|i: int| 0 <= i < front_runs.len() implies is_break_run(
                #[trigger] front_runs[i],
            ) && front_runs[i].len() > 0 by {
                assert(front_runs[i] == runs[i]);
            }
        }
        lemma_decoded_weave(front, front_runs);
        let last = entries.last();
        assert(is_entry(last));
        assert(is_break_run(runs.last()) && runs.last().len() > 0);
        lemma_decoded_across_run(weave(front, front_runs), runs.last(), last);
        lemma_decoded_entry(last);
        assert(front + seq![last] =~= entries);
    }
}

/// Joining is weaving with single line feeds.
pub proof fn lemma_join_is_weave(entries: Seq<Seq<char>>) -> (runs: Seq<Seq<char>>)
    ensures
        separates(runs, entries),
        weave(entries, runs) == join_lines(entries),
    decreases entries.len(),
{
    if entries.len() <= 1 {
        Seq::empty()
    } else {
        let front_runs = lemma_join_is_weave(entries.drop_last());
        let runs = front_runs.push(seq!['\n']);
        assert(runs.drop_last() =~= front_runs);
        assert(is_break_run(seq!['\n']));
        runs
    }
}

/// A line is the only line of itself.
pub proof fn lemma_split_line(line: Seq<char>)
    requires
        is_line(line),
    ensures
        split_lines(line) == seq![line],
{
    lemma_first_break(line);
}

/// Every line of a text is a line.
pub proof fn lemma_split_gives_lines(text: Seq<char>)
    ensures
        forall|i: int| 0 <= i < split_lines(text).len() ==> is_line(#[trigger] split_lines(text)[i]),
    decreases text.len(),
{
    lemma_first_break(text);
    let at = first_break(text);
    if 0 <= at < text.len() {
        let rest = text.skip(at + 1);
        lemma_split_gives_lines(rest);
        assert(is_line(text.take(at)));
        assert forall|i: int| 0 <= i < split_lines(text).len() implies is_line(
            #[trigger] split_lines(text)[i],
        ) by {
            if i > 0 {
                assert(split_lines(text)[i] == split_lines(rest)[i - 1]);
            }
        }
    } else {
        assert(is_line(text));
    }
}

/// A line holds no carriage return with a line feed after it, so it is its
/// own form with line feeds alone.
pub proof fn lemma_unix_line(line: Seq<char>)
    requires
        is_line(line),
    ensures
        unix_line_ends(line) == line,
    decreases line.len(),
{
    if line.len() > 0 {
        let rest = line.drop_first();
        assert(is_line(rest)) by {
            assert forall|i: int| 0 <= i < rest.len() implies rest[i] != '\n' by {
                assert(rest[i] == line[i + 1]);
            }
        }
        lemma_unix_line(rest);
        assert(seq![line[0]] + rest =~= line);
    }
}

/// The line without the one carriage return that ends it, if one does.
pub open spec fn without_last_return(line: Seq<char>) -> Seq<char> {
    if line.len() > 0 && line.last() == '\r' {
        line.drop_last()
    } else {
        line
    }
}

/// In a text that begins with a line and a line feed, only the carriage
/// return that ends the line is taken out of the line.
pub proof fn lemma_unix_first_line(line: Seq<char>, rest: Seq<char>)
    requires
        is_line(line),
    ensures
        unix_line_ends(line + seq!['\n'] + rest) == without_last_return(line) + seq!['\n']
            + unix_line_ends(rest),
    decreases line.len(),
{
    let whole = line + seq!['\n'] + rest;
    if line.len() == 0 {
        assert(whole.drop_first() =~= rest);
        assert(whole[0] == '\n');
        assert(unix_line_ends(whole) =~= without_last_return(line) + seq!['\n'] + unix_line_ends(
            rest,
        ));
    } else if line.len() == 1 && line[0] == '\r' {
        assert(whole[0] == '\r' && whole[1] == '\n');
        assert(whole.skip(2) =~= rest);
        assert(without_last_return(line) =~= Seq::<char>::empty());
        assert(unix_line_ends(whole) =~= without_last_return(line) + seq!['\n'] + unix_line_ends(
            rest,
        ));
    } else {
        let tail = line.drop_first();
        assert(is_line(tail)) by {
            assert forall|i: int| 0 <= i < tail.len() implies tail[i] != '\n' by {
                assert(tail[i] == line[i + 1]);
            }
        }
        assert(whole[0] == line[0]);
        if line.len() >= 2 {
            assert(whole[1] == line[1]);
        } else {
            assert(whole[1] == '\n');
        }
        assert(!(whole[0] == '\r' && whole[1] == '\n'));
        assert(whole.drop_first() =~= tail + seq!['\n'] + rest);
        lemma_unix_first_line(tail, rest);
        if tail.len() > 0 {
            assert(tail.last() == line.last());
            assert(seq![line[0]] + without_last_return(tail) =~= without_last_return(line));
        } else {
            assert(seq![line[0]] + without_last_return(tail) =~= without_last_return(line));
        }
        assert(unix_line_ends(whole) =~= without_last_return(line) + seq!['\n'] + unix_line_ends(
            rest,
        ));
    }
}

/// A line and the same line without the carriage return at its end hold the
/// same entry, or none.
pub proof fn lemma_decoded_without_last_return(line: Seq<char>)
    requires
        is_line(line),
    ensures
        decoded(without_last_return(line)) == decoded(line),
{
    let shorter = without_last_return(line);
    assert(is_line(shorter));
    lemma_split_line(line);
    lemma_split_line(shorter);
    assert(trim_returns(shorter) == trim_returns(line));
    reveal_with_fuel(entries_of, 2);
}

/// Replacing each carriage return and line feed in a row by the line feed
/// alone changes no entry.
pub proof fn lemma_decoded_unix_line_ends(text: Seq<char>)
    ensures
        decoded(unix_line_ends(text)) == decoded(text),
    decreases text.len(),
{
    lemma_first_break(text);
    let at = first_break(text);
    if 0 <= at < text.len() {
        let line = text.take(at);
        let rest = text.skip(at + 1);
        assert(is_line(line));
        assert(text =~= line + seq!['\n'] + rest);
        lemma_unix_first_line(line, rest);
        lemma_decoded_at_break(without_last_return(line), unix_line_ends(rest));
        lemma_decoded_at_break(line, rest);
        lemma_decoded_without_last_return(line);
        lemma_decoded_unix_line_ends(rest);
    } else {
        assert(is_line(text));
        lemma_unix_line(text);
    }
}

/// Lines that are joined and split again are the same lines, where there is
/// at least one.
pub proof fn lemma_split_join(lines: Seq<Seq<char>>)
    requires
        lines.len() >= 1,
        forall|i: int| 0 <= i < lines.len() ==> is_line(#[trigger] lines[i]),
    ensures
        split_lines(join_lines(lines)) == lines,
    decreases lines.len(),
{
    if lines.len() == 1 {
        lemma_split_line(lines[0]);
        assert(lines =~= seq![lines[0]]);
    } else {
        let front = lines.drop_last();
        assert forall|i: int| 0 <= i < front.len() implies is_line(#[trigger] front[i]) by {
            assert(front[i] == lines[i]);
        }
        lemma_split_join(front);
        assert(is_line(lines.last()));
        lemma_split_line(lines.last());
        lemma_split_at_break(join_lines(front), lines.last());
        assert(front + seq![lines.last()] =~= lines);
    }
}

/// The lines that are not empty hold the same entries as all lines, and are
/// lines where all are.
pub proof fn lemma_entries_nonblank(lines: Seq<Seq<char>>)
    ensures
        entries_of(nonblank(lines)) == entries_of(lines),
        (forall|i: int| 0 <= i < lines.len() ==> is_line(#[trigger] lines[i])) ==> (forall|i: int|
            0 <= i < nonblank(lines).len() ==> is_line(#[trigger] nonblank(lines)[i])),
    decreases lines.len(),
{
    if lines.len() > 0 {
        let front = lines.drop_last();
        lemma_entries_nonblank(front);
        if lines.last().len() != 0 {
            assert(nonblank(lines).drop_last() =~= nonblank(front));
            assert(nonblank(lines).last() == lines.last());
        }
        if forall|i: int| 0 <= i < lines.len() ==> is_line(#[trigger] lines[i]) {
            assert forall|i: int| 0 <= i < front.len() implies is_line(#[trigger] front[i]) by {
                assert(front[i] == lines[i]);
            }
            assert forall|i: int| 0 <= i < nonblank(lines).len() implies is_line(
                #[trigger] nonblank(lines)[i],
            ) by {
                if lines.last().len() != 0 && i == nonblank(lines).len() - 1 {
                    assert(is_line(lines[lines.len() - 1]));
                } else {
                    assert(nonblank(lines)[i] == nonblank(front)[i]);
                }
            }
        }
    }
}

/// Taking the blank lines out of a text changes no entry.
pub proof fn lemma_decoded_without_blank_lines(text: Seq<char>)
    ensures
        decoded(without_blank_lines(text)) == decoded(text),
{
    let lines = split_lines(text);
    let kept = nonblank(lines);
    lemma_split_gives_lines(text);
    lemma_entries_nonblank(lines);
    if kept.len() == 0 {
        lemma_decoded_empty();
        assert(join_lines(kept) =~= Seq::<char>::empty());
    } else {
        lemma_split_join(kept);
    }
}

} // verus!
