//! Framing of the lookup's output: one record per line.
//!
//! A line ends at a line feed, or at a carriage return directly before a line
//! feed. The terminator belongs to no line, and the last line needs none.

use vstd::prelude::*;

verus! {

/// The line feed.
pub const LINE_FEED: u8 = 10;

/// The carriage return.
pub const CARRIAGE_RETURN: u8 = 13;

/// The contents of a sequence of byte vectors, in the same order.
pub open spec fn bytes_of(lines: Seq<Vec<u8>>) -> Seq<Seq<u8>> {
    Seq::new(lines.len(), |i: int| lines[i]@)
}

/// The index of the first line feed at or after `from`, or the length of the
/// text where there is none.
pub open spec fn line_end(text: Seq<u8>, from: int) -> int
    decreases text.len() - from,
{
    if from < 0 || from >= text.len() {
        text.len() as int
    } else if text[from] == LINE_FEED {
        from
    } else {
        line_end(text, from + 1)
    }
}

/// A terminated line without the carriage return that stood before its line
/// feed.
pub open spec fn without_return(line: Seq<u8>) -> Seq<u8> {
    if line.len() > 0 && line.last() == CARRIAGE_RETURN {
        line.drop_last()
    } else {
        line
    }
}

/// The lines of the text that starts at `from`.
pub open spec fn lines_from(text: Seq<u8>, from: int) -> Seq<Seq<u8>>
    decreases text.len() - from,
{
    if from < 0 || from >= text.len() {
        Seq::empty()
    } else {
        let end = line_end(text, from);
        if end < text.len() {
            proof {
                lemma_line_end(text, from);
            }
            seq![without_return(text.subrange(from, end))] + lines_from(text, end + 1)
        } else {
            seq![text.subrange(from, end)]
        }
    }
}

/// The lines of a text.
pub open spec fn lines_of(text: Seq<u8>) -> Seq<Seq<u8>> {
    lines_from(text, 0)
}

/// The end of a line lies between its start and the end of the text, on a
/// line feed unless it is the end of the text, and after no other line feed.
pub proof fn lemma_line_end(text: Seq<u8>, from: int)
    requires
        0 <= from <= text.len(),
    ensures
        from <= line_end(text, from) <= text.len(),
        line_end(text, from) < text.len() ==> text[line_end(text, from)] == LINE_FEED,
        forall|j: int| from <= j < line_end(text, from) ==> text[j] != LINE_FEED,
    decreases text.len() - from,
{
    if from < text.len() && text[from] != LINE_FEED {
        lemma_line_end(text, from + 1);
    }
}

/// A line ends where a later part of it ends.
proof fn lemma_line_end_skips(text: Seq<u8>, from: int, upto: int)
    requires
        0 <= from <= upto <= text.len(),
        forall|j: int| from <= j < upto ==> text[j] != LINE_FEED,
    ensures
        line_end(text, from) == line_end(text, upto),
    decreases upto - from,
{
    if from < upto {
        lemma_line_end_skips(text, from + 1, upto);
    }
}

/// No line holds a line feed.
pub proof fn lemma_lines_hold_no_line_feed(text: Seq<u8>, from: int)
    requires
        0 <= from <= text.len(),
    ensures
        forall|i: int, j: int|
            0 <= i < lines_from(text, from).len() && 0 <= j < lines_from(text, from)[i].len()
                ==> lines_from(text, from)[i][j] != LINE_FEED,
    decreases text.len() - from,
{
    if from < text.len() {
        let end = line_end(text, from);
        lemma_line_end(text, from);
        let whole = text.subrange(from, end);
        assert(forall|j: int| 0 <= j < whole.len() ==> whole[j] == text[from + j]);
        if end < text.len() {
            lemma_lines_hold_no_line_feed(text, end + 1);
            let head = without_return(whole);
            let rest = lines_from(text, end + 1);
            assert(forall|j: int| 0 <= j < head.len() ==> head[j] == whole[j]);
            assert forall|i: int, j: int|
                0 <= i < lines_from(text, from).len() && 0 <= j < lines_from(text, from)[i].len()
                implies lines_from(text, from)[i][j] != LINE_FEED by {
                if i > 0 {
                    assert(lines_from(text, from)[i] == rest[i - 1]);
                }
            }
        }
    }
}

/// The bytes of `text` from `from` up to `to`, copied.
fn copy_range(text: &[u8], from: usize, to: usize) -> (part: Vec<u8>)
    requires
        from <= to <= text@.len(),
    ensures
        part@ == text@.subrange(from as int, to as int),
{
    let mut part: Vec<u8> = Vec::new();
    let mut i: usize = from;
    while i < to
        invariant
            from <= i <= to <= text@.len(),
            part@ == text@.subrange(from as int, i as int),
        decreases to - i,
    {
        part.push(text[i]);
        assert(part@ =~= text@.subrange(from as int, i + 1));
        i += 1;
    }
    part
}

/// Splits a text into its lines.
pub fn split_lines(text: &[u8]) -> (lines: Vec<Vec<u8>>)
    ensures
        bytes_of(lines@) == lines_of(text@),
{
    let mut lines: Vec<Vec<u8>> = Vec::new();
    let mut start: usize = 0;
    let mut i: usize = 0;
    assert(bytes_of(lines@) =~= Seq::<Seq<u8>>::empty());
    while i < text.len()
        invariant
            start <= i <= text@.len(),
            forall|j: int| start <= j < i ==> text@[j] != LINE_FEED,
            lines_of(text@) == bytes_of(lines@) + lines_from(text@, start as int),
        decreases text@.len() - i,
    {
        if text[i] == LINE_FEED {
            let end = if i > start && text[i - 1] == CARRIAGE_RETURN { i - 1 } else { i };
            let line = copy_range(text, start, end);
            proof {
                lemma_line_end_skips(text@, start as int, i as int);
                assert(line_end(text@, start as int) == i);
                let whole = text@.subrange(start as int, i as int);
                assert(line@ =~= without_return(whole));
                assert(bytes_of(lines@.push(line)) =~= bytes_of(lines@) + seq![line@]);
            }
            lines.push(line);
            start = i + 1;
        }
        i += 1;
    }
    if start < text.len() {
        let line = copy_range(text, start, text.len());
        proof {
            lemma_line_end_skips(text@, start as int, i as int);
            assert(bytes_of(lines@.push(line)) =~= bytes_of(lines@) + seq![line@]);
        }
        lines.push(line);
    } else {
        assert(bytes_of(lines@) + lines_from(text@, start as int) =~= bytes_of(lines@));
    }
    lines
}

} // verus!
