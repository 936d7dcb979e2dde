//! Migration scripts: the lines of a script without its comments.
//!
//! A script is cut into lines at every line feed; a carriage return just
//! before the line feed belongs to the line ending. A line that begins with
//! two dashes is a comment and is dropped. Every other line is kept and ends
//! in a single line feed.

use vstd::prelude::*;

verus! {

pub const LINE_FEED: u8 = 0x0a;

pub const CARRIAGE_RETURN: u8 = 0x0d;

pub const DASH: u8 = 0x2d;

/// Where the line that starts at `start` ends: at the next line feed, or at
/// the end of the text.
pub open spec fn line_end(text: Seq<u8>, start: int) -> int
    decreases text.len() - start,
{
    if start < 0 || start >= text.len() {
        text.len() as int
    } else if text[start] == LINE_FEED {
        start
    } else {
        line_end(text, start + 1)
    }
}

/// The line that starts at `start` and ends at `end`, without the carriage
/// return that belongs to its line ending.
pub open spec fn line_content(text: Seq<u8>, start: int, end: int) -> Seq<u8> {
    if start < end < text.len() && text[end - 1] == CARRIAGE_RETURN {
        text.subrange(start, end - 1)
    } else {
        text.subrange(start, end)
    }
}

/// Whether a line is a comment.
pub open spec fn is_comment(line: Seq<u8>) -> bool {
    line.len() >= 2 && line[0] == DASH && line[1] == DASH
}

/// The lines of `text` from `start` on that are no comments, each ending in
/// a line feed.
pub open spec fn without_comments_from(text: Seq<u8>, start: int) -> Seq<u8>
    decreases text.len() - start,
    via without_comments_decreases
{
    if start < 0 || start >= text.len() {
        Seq::empty()
    } else {
        let end = line_end(text, start);
        let line = line_content(text, start, end);
        let rest = if end < text.len() {
            without_comments_from(text, end + 1)
        } else {
            Seq::empty()
        };
        if is_comment(line) {
            rest
        } else {
            line.push(LINE_FEED) + rest
        }
    }
}

#[via_fn]
proof fn without_comments_decreases(text: Seq<u8>, start: int) {
    if 0 <= start < text.len() {
        lemma_line_end(text, start);
    }
}

/// The lines of `text` that are no comments, each ending in a line feed.
pub open spec fn without_comments(text: Seq<u8>) -> Seq<u8> {
    without_comments_from(text, 0)
}

/// The line that starts at `start` ends within the text, at a line feed or
/// at the end, and holds no line feed.
pub proof fn lemma_line_end(text: Seq<u8>, start: int)
    requires
        0 <= start <= text.len(),
    ensures
        start <= line_end(text, start) <= text.len(),
        line_end(text, start) < text.len() ==> text[line_end(text, start)] == LINE_FEED,
        forall|j: int| start <= j < line_end(text, start) ==> text[j] != LINE_FEED,
    decreases text.len() - start,
{
    if start < text.len() && text[start] != LINE_FEED {
        lemma_line_end(text, start + 1);
    }
}

/// Finds where the line that starts at `start` ends.
pub fn find_line_end(text: &[u8], start: usize) -> (end: usize)
    requires
        start <= text.len(),
    ensures
        end == line_end(text@, start as int),
        start <= end <= text.len(),
{
    let mut i: usize = start;
    while i < text.len() && text[i] != LINE_FEED
        invariant
            start <= i <= text.len(),
            line_end(text@, start as int) == line_end(text@, i as int),
        decreases text.len() - i,
    {
        i = i + 1;
    }
    i
}

/// Removes the comment lines of a script. Every line that stays ends in a
/// single line feed, whatever its ending was.
pub fn strip_comments(script: &[u8]) -> (out: Vec<u8>)
    ensures
        out@ == without_comments(script@),
{
    let n = script.len();
    let mut out: Vec<u8> = Vec::new();
    let mut start: usize = 0;
    while start < n
        invariant
            n == script@.len(),
            out@ + without_comments_from(script@, start as int) == without_comments(script@),
        decreases n - start,
    {
        let end = find_line_end(script, start);
        let stop: usize = if start < end && end < n && script[end - 1] == CARRIAGE_RETURN {
            end - 1
        } else {
            end
        };
        let ghost line = line_content(script@, start as int, end as int);
        let ghost before = out@;
        assert(line == script@.subrange(start as int, stop as int));
        let comment = stop - start >= 2 && script[start] == DASH && script[start + 1] == DASH;
        assert(comment == is_comment(line));
        if !comment {
            let mut j: usize = start;
            while j < stop
                invariant
                    start <= j <= stop <= n,
                    n == script@.len(),
                    out@ == before + script@.subrange(start as int, j as int),
                decreases stop - j,
            {
                out.push(script[j]);
                proof {
                    assert(script@.subrange(start as int, j as int).push(script@[j as int])
                        =~= script@.subrange(start as int, j as int + 1));
                }
                j = j + 1;
            }
            out.push(LINE_FEED);
            proof {
                let rest = without_comments_from(script@, end as int + 1);
                assert(out@ + rest =~= before + (line.push(LINE_FEED) + rest));
                assert(out@ + Seq::<u8>::empty() =~= before + (line.push(LINE_FEED)
                    + Seq::<u8>::empty()));
            }
        }
        if end == n {
            start = n;
        } else {
            start = end + 1;
        }
    }
    assert(out@ + Seq::<u8>::empty() =~= out@);
    out
}

} // verus!
