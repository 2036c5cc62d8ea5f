//! Print pagination: a document of `L` lines is printed as
//! `L / LINES_PER_PAGE + 1` pages, page `p` covering the line range
//! `[LINES_PER_PAGE * p, LINES_PER_PAGE * (p + 1))`, clamped to the
//! lines that actually exist.

use vstd::prelude::*;

verus! {

/// Number of document lines rendered on one printed page.
pub const LINES_PER_PAGE: usize = 40;

/// Number of pages needed for a document of `total_lines` lines.
///
/// A document always yields at least one page: an empty document
/// prints as a single blank page, and a document whose line count is
/// an exact multiple of the page size gets a trailing blank page.
pub fn page_count(total_lines: usize) -> (count: usize)
    ensures
        count == total_lines as int / (LINES_PER_PAGE as int) + 1,
{
    total_lines / LINES_PER_PAGE + 1
}

/// First line of page `page`.
pub open spec fn page_start(page: int) -> int {
    LINES_PER_PAGE as int * page
}

/// One past the last existing line of page `page` in a document of
/// `total_lines` lines: the nominal end of the page's line range,
/// clamped to the lines that exist.
pub open spec fn page_end(page: int, total_lines: int) -> int {
    if LINES_PER_PAGE as int * (page + 1) <= total_lines {
        LINES_PER_PAGE as int * (page + 1)
    } else {
        total_lines
    }
}

/// The range of existing lines that page `page` renders, as
/// `[start, end)`. The final page of a document whose line count is an
/// exact multiple of the page size gets the empty range: it renders
/// blank rather than failing.
pub fn page_bounds(page: usize, total_lines: usize) -> (bounds: (usize, usize))
    requires
        page < total_lines as int / (LINES_PER_PAGE as int) + 1,
    ensures
        bounds.0 == page_start(page as int),
        bounds.1 == page_end(page as int, total_lines as int),
        bounds.0 <= bounds.1 <= total_lines,
{
    proof {
        assert(LINES_PER_PAGE as int * page <= LINES_PER_PAGE as int * (total_lines as int
            / LINES_PER_PAGE as int)) by (nonlinear_arith)
            requires
                page <= total_lines as int / (LINES_PER_PAGE as int),
        ;
        assert(LINES_PER_PAGE as int * (total_lines as int / LINES_PER_PAGE as int)
            <= total_lines);
    }
    let start: usize = LINES_PER_PAGE * page;
    let end: usize = if total_lines - start >= LINES_PER_PAGE {
        start + LINES_PER_PAGE
    } else {
        total_lines
    };
    (start, end)
}

/// The lines of `lines` that page `page` renders, in document order.
pub fn page_lines(lines: &Vec<String>, page: usize) -> (out: Vec<String>)
    requires
        page < lines@.len() as int / (LINES_PER_PAGE as int) + 1,
    ensures
        out@ == lines@.subrange(page_start(page as int), page_end(page as int, lines@.len() as int)),
{
    let (start, end) = page_bounds(page, lines.len());
    let mut out: Vec<String> = Vec::new();
    let mut j: usize = start;
    while j < end
        invariant
            start <= j <= end <= lines@.len(),
            out@ == lines@.subrange(start as int, j as int),
        decreases end - j,
    {
        out.push(lines[j].clone());
        proof {
            assert(out@ =~= lines@.subrange(start as int, j + 1));
        }
        j = j + 1;
    }
    proof {
        assert(out@ =~= lines@.subrange(start as int, end as int));
    }
    out
}

/// Number of newline characters in `s`.
pub open spec fn newline_count(s: Seq<char>) -> nat
    decreases s.len(),
{
    if s.len() == 0 {
        0
    } else {
        newline_count(s.drop_last()) + if s.last() == '\n' {
            1nat
        } else {
            0nat
        }
    }
}

/// Number of document lines in `text`, counted as the text surface
/// does: one more than the number of newline characters, so an empty
/// text is one (empty) line and a trailing newline opens a final
/// empty line.
pub fn line_count(text: &str) -> (count: usize)
    requires
        text@.len() < usize::MAX,
    ensures
        count == newline_count(text@) + 1,
{
    proof {
        lemma_newline_count_le_len(text@);
    }
    let n = text.unicode_len();
    let mut newlines: usize = 0;
    let mut i: usize = 0;
    while i < n
        invariant
            i <= n == text@.len() < usize::MAX,
            newlines == newline_count(text@.take(i as int)),
            newlines <= i,
        decreases n - i,
    {
        let c = text.get_char(i);
        proof {
            assert(text@.take(i + 1).drop_last() =~= text@.take(i as int));
            assert(text@.take(i + 1).last() == text@[i as int]);
        }
        if c == '\n' {
            newlines = newlines + 1;
        }
        i = i + 1;
    }
    proof {
        assert(text@.take(n as int) =~= text@);
    }
    newlines + 1
}

/// The newline count of a text never exceeds its length.
proof fn lemma_newline_count_le_len(s: Seq<char>)
    ensures
        newline_count(s) <= s.len(),
    decreases s.len(),
{
    if s.len() > 0 {
        lemma_newline_count_le_len(s.drop_last());
    }
}

} // verus!
