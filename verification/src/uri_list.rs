//! The wire format of a drag-and-drop transfer: a list of URIs as text, one
//! entry per line.
//!
//! Outgoing text joins the entries with a single line feed and has no dangling
//! separator. Incoming text may end its lines with a line feed or with a
//! carriage return and a line feed, and may hold blank lines between entries:
//! the carriage returns that end a line are no part of its entry.

use crate::text::chars_of;
use crate::uri_list_lemmas::{
    lemma_decoded_across_run, lemma_decoded_empty, lemma_decoded_unix_line_ends,
    lemma_decoded_weave, lemma_decoded_without_blank_lines, lemma_join_is_weave,
    lemma_split_push_break, lemma_split_push_char,
};
use vstd::prelude::*;

verus! {

/// The entries joined by single line feeds; the empty text for no entries.
pub open spec fn join_lines(entries: Seq<Seq<char>>) -> Seq<char>
    decreases entries.len(),
{
    if entries.len() == 0 {
        Seq::empty()
    } else if entries.len() == 1 {
        entries[0]
    } else {
        join_lines(entries.drop_last()) + seq!['\n'] + entries.last()
    }
}

/// The position of the first line feed in `text`, or its length if it has none.
pub open spec fn first_break(text: Seq<char>) -> int
    decreases text.len(),
{
    if text.len() == 0 || text[0] == '\n' {
        0
    } else {
        1 + first_break(text.drop_first())
    }
}

/// The lines of `text`: what stands between its line feeds. A text without a
/// line feed is one line, and so is the empty text.
pub open spec fn split_lines(text: Seq<char>) -> Seq<Seq<char>>
    decreases text.len(),
{
    let at = first_break(text);
    if 0 <= at < text.len() {
        seq![text.take(at)] + split_lines(text.skip(at + 1))
    } else {
        seq![text]
    }
}

/// The line without the carriage returns that end it.
pub open spec fn trim_returns(line: Seq<char>) -> Seq<char>
    decreases line.len(),
{
    if line.len() > 0 && line.last() == '\r' {
        trim_returns(line.drop_last())
    } else {
        line
    }
}

/// The lines that hold an entry, each without the carriage returns at its
/// end, in their order. Lines of which nothing is left are left out.
pub open spec fn entries_of(lines: Seq<Seq<char>>) -> Seq<Seq<char>>
    decreases lines.len(),
{
    if lines.len() == 0 {
        Seq::empty()
    } else {
        let before = entries_of(lines.drop_last());
        let entry = trim_returns(lines.last());
        if entry.len() == 0 {
            before
        } else {
            before.push(entry)
        }
    }
}

/// The entries that a received text holds.
pub open spec fn decoded(text: Seq<char>) -> Seq<Seq<char>> {
    entries_of(split_lines(text))
}

/// What can stand as one entry of a list: a text that is not empty, holds no
/// line feed and does not end in a carriage return. Every URI is one.
pub open spec fn is_entry(entry: Seq<char>) -> bool {
    &&& entry.len() > 0
    &&& forall|i: int| 0 <= i < entry.len() ==> entry[i] != '\n'
    &&& entry.last() != '\r'
}

/// Every member of `entries` can stand as an entry.
pub open spec fn all_entries(entries: Seq<Seq<char>>) -> bool {
    forall|i: int| 0 <= i < entries.len() ==> is_entry(#[trigger] entries[i])
}

/// A run of line ends: any number of line feeds, each of which may have a
/// carriage return before it.
pub open spec fn is_break_run(run: Seq<char>) -> bool {
    forall|i: int|
        0 <= i < run.len() ==> (#[trigger] run[i] == '\n' || (run[i] == '\r' && i + 1 < run.len()
            && run[i + 1] == '\n'))
}

/// The entries with `runs[i]` between entry `i` and entry `i + 1`.
pub open spec fn weave(entries: Seq<Seq<char>>, runs: Seq<Seq<char>>) -> Seq<char>
    decreases entries.len(),
{
    if entries.len() == 0 {
        Seq::empty()
    } else if entries.len() == 1 {
        entries[0]
    } else {
        weave(entries.drop_last(), runs.drop_last()) + runs.last() + entries.last()
    }
}

/// Whether `runs` can separate `entries`: one run between each two
/// neighbours, none of them empty.
pub open spec fn separates(runs: Seq<Seq<char>>, entries: Seq<Seq<char>>) -> bool {
    &&& entries.len() == 0 ==> runs.len() == 0
    &&& entries.len() > 0 ==> runs.len() == entries.len() - 1
    &&& forall|i: int|
        0 <= i < runs.len() ==> is_break_run(#[trigger] runs[i]) && runs[i].len() > 0
}

/// A line: a text that holds no line feed.
pub open spec fn is_line(line: Seq<char>) -> bool {
    forall|i: int| 0 <= i < line.len() ==> line[i] != '\n'
}

/// `text` with every carriage return and line feed in a row replaced by the
/// line feed alone.
pub open spec fn unix_line_ends(text: Seq<char>) -> Seq<char>
    decreases text.len(),
{
    if text.len() == 0 {
        text
    } else if text.len() >= 2 && text[0] == '\r' && text[1] == '\n' {
        seq!['\n'] + unix_line_ends(text.skip(2))
    } else {
        seq![text[0]] + unix_line_ends(text.drop_first())
    }
}

/// The members of `lines` that are not empty, in their order.
pub open spec fn nonblank(lines: Seq<Seq<char>>) -> Seq<Seq<char>>
    decreases lines.len(),
{
    if lines.len() == 0 {
        Seq::empty()
    } else if lines.last().len() == 0 {
        nonblank(lines.drop_last())
    } else {
        nonblank(lines.drop_last()).push(lines.last())
    }
}

/// `text` without its blank lines: the lines that are left, joined by single
/// line feeds.
pub open spec fn without_blank_lines(text: Seq<char>) -> Seq<char> {
    join_lines(nonblank(split_lines(text)))
}

/// The clean form of `text`: every carriage return and line feed in a row
/// replaced by the line feed alone, and then every blank line taken out.
pub open spec fn cleaned(text: Seq<char>) -> Seq<char> {
    without_blank_lines(unix_line_ends(text))
}

/// The text that carries `uris`, or `None` where that text would be empty:
/// a transfer never carries a payload of length zero.
pub fn encode(uris: &Vec<String>) -> (payload: Option<String>)
    ensures
        payload is None <==> join_lines(uris.deep_view()).len() == 0,
        payload matches Some(text) ==> text@ == join_lines(uris.deep_view()),
        uris.len() == 0 ==> payload is None,
{
    let mut text = String::new();
    let mut i: usize = 0;
    while i < uris.len()
        invariant
            0 <= i <= uris.len(),
            text@ == join_lines(uris.deep_view().take(i as int)),
        decreases uris.len() - i,
    {
        proof {
            reveal_strlit("\n");
            let done = uris.deep_view().take(i as int);
            let next = uris.deep_view().take(i + 1);
            assert(next.drop_last() =~= done);
            assert(next.last() == uris[i as int]@);
            assert("\n"@ =~= seq!['\n']);
        }
        if i > 0 {
            text.append("\n");
        }
        text.append(uris[i].as_str());
        proof {
            if i == 0 {
                assert(Seq::<char>::empty() + uris[0]@ =~= uris[0]@);
            }
        }
        i += 1;
    }
    assert(uris.deep_view().take(uris.len() as int) =~= uris.deep_view());
    if text.as_str().is_empty() {
        None
    } else {
        Some(text)
    }
}

/// Where the line `chars[start..end]` ends once the carriage returns at its
/// end are taken off.
fn entry_end(chars: &Vec<char>, start: usize, end: usize) -> (stop: usize)
    requires
        start <= end <= chars.len(),
    ensures
        start <= stop <= end,
        chars@.subrange(start as int, stop as int) == trim_returns(
            chars@.subrange(start as int, end as int),
        ),
{
    let mut stop = end;
    while stop > start && chars[stop - 1] == '\r'
        invariant
            start <= stop <= end <= chars.len(),
            trim_returns(chars@.subrange(start as int, stop as int)) == trim_returns(
                chars@.subrange(start as int, end as int),
            ),
        decreases stop,
    {
        assert(chars@.subrange(start as int, stop as int).drop_last() =~= chars@.subrange(
            start as int,
            stop - 1,
        ));
        stop -= 1;
    }
    stop
}

/// The entries that the received `text` holds, in their order: its lines,
/// each without the carriage returns at its end, the blank ones left out.
pub fn decode(text: &str) -> (entries: Vec<String>)
    ensures
        entries.deep_view() == decoded(text@),
{
    let chars = chars_of(text);
    let n = chars.len();
    let mut entries: Vec<String> = Vec::new();
    let mut start: usize = 0;
    let mut i: usize = 0;
    proof {
        assert(text@.take(0) =~= Seq::<char>::empty());
        assert(split_lines(Seq::<char>::empty()) =~= seq![Seq::<char>::empty()]);
        assert(text@.subrange(0, 0) =~= Seq::<char>::empty());
        assert(split_lines(text@.take(0)).drop_last() =~= Seq::<Seq<char>>::empty());
        assert(entries.deep_view() =~= Seq::<Seq<char>>::empty());
    }
    while i < n
        invariant
            chars@ == text@,
            n == chars.len(),
            0 <= start <= i <= n,
            split_lines(text@.take(i as int)).len() >= 1,
            split_lines(text@.take(i as int)).last() == text@.subrange(start as int, i as int),
            entries.deep_view() == entries_of(split_lines(text@.take(i as int)).drop_last()),
        decreases n - i,
    {
        let ghost seen = text@.take(i as int);
        let ghost lines = split_lines(seen);
        proof {
            assert(text@.take(i + 1) =~= seen.push(text@[i as int]));
        }
        if chars[i] == '\n' {
            let line_end = entry_end(&chars, start, i);
            proof {
                lemma_split_push_break(seen);
                assert(lines.push(Seq::empty()).drop_last() =~= lines);
                assert(lines =~= lines.drop_last().push(lines.last()));
                assert(text@.subrange(i + 1, i + 1) =~= Seq::<char>::empty());
            }
            if line_end > start {
                let entry = text.substring_char(start, line_end).to_owned();
                let ghost before = entries.deep_view();
                entries.push(entry);
                assert(entries.deep_view() =~= before.push(entry@));
            }
            start = i + 1;
        } else {
            proof {
                lemma_split_push_char(seen, text@[i as int]);
                let longer = lines.drop_last().push(lines.last().push(text@[i as int]));
                assert(longer.drop_last() =~= lines.drop_last());
                assert(text@.subrange(start as int, i + 1) =~= lines.last().push(
                    text@[i as int],
                ));
            }
        }
        i += 1;
    }
    let line_end = entry_end(&chars, start, n);
    proof {
        assert(text@.take(n as int) =~= text@);
        let lines = split_lines(text@);
        assert(lines =~= lines.drop_last().push(lines.last()));
    }
    if line_end > start {
        let entry = text.substring_char(start, line_end).to_owned();
        let ghost before = entries.deep_view();
        entries.push(entry);
        assert(entries.deep_view() =~= before.push(entry@));
    }
    entries
}

/// A list of entries that is not empty is carried by a text that is not
/// empty, and what that text decodes to is the list itself: the same
/// entries in the same order.
pub proof fn law_round_trip(entries: Seq<Seq<char>>)
    requires
        entries.len() > 0,
        all_entries(entries),
    ensures
        join_lines(entries).len() > 0,
        decoded(join_lines(entries)) == entries,
{
    let runs = lemma_join_is_weave(entries);
    lemma_decoded_weave(entries, runs);
}

/// A text whose entries are separated by any mix of line feeds, carriage
/// returns with line feeds and blank lines, before the first entry and after
/// the last one too, decodes to the same entries as the text that joins them
/// with single line feeds.
pub proof fn law_newline_tolerance(
    entries: Seq<Seq<char>>,
    runs: Seq<Seq<char>>,
    lead: Seq<char>,
    trail: Seq<char>,
)
    requires
        all_entries(entries),
        separates(runs, entries),
        is_break_run(lead),
        is_break_run(trail),
    ensures
        decoded(lead + weave(entries, runs) + trail) == entries,
        decoded(lead + weave(entries, runs) + trail) == decoded(join_lines(entries)),
{
    let none = Seq::<char>::empty();
    let body = weave(entries, runs);
    lemma_decoded_weave(entries, runs);
    lemma_decoded_empty();
    let clean = lemma_join_is_weave(entries);
    lemma_decoded_weave(entries, clean);
    // The run before the first entry.
    lemma_decoded_across_run(none, lead, body + trail);
    assert(none + lead + (body + trail) =~= lead + body + trail);
    assert(decoded(none) + decoded(body + trail) =~= decoded(body + trail));
    // The run after the last entry.
    if trail.len() == 0 {
        assert(body + trail =~= body);
    } else if entries.len() == 0 {
        assert(body =~= none);
        lemma_decoded_across_run(none, trail, none);
        assert(none + trail + none =~= body + trail);
        assert(decoded(none) + decoded(none) =~= decoded(none));
    } else {
        lemma_decoded_across_run(body, trail, none);
        assert(body + trail + none =~= body + trail);
        assert(decoded(body) + decoded(none) =~= decoded(body));
    }
}

/// Any text at all decodes to the same entries as its clean form: a carriage
/// return before a line feed never becomes part of an entry, and a blank
/// line never yields one.
pub proof fn law_decodes_like_cleaned(text: Seq<char>)
    ensures
        decoded(cleaned(text)) == decoded(text),
{
    lemma_decoded_unix_line_ends(text);
    lemma_decoded_without_blank_lines(unix_line_ends(text));
}

} // verus!
