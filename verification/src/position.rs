//! Position resolution: maps a byte offset into UTF-8 source text to a
//! 1-based line number and a 0-based column, where the column counts UTF-16
//! code units from the start of the line, the unit in which the host
//! ecosystem's strings are indexed.

use vstd::prelude::*;

verus! {

/// How many UTF-16 code units the character whose UTF-8 encoding starts
/// with (or continues through) byte `b` contributes at that byte: lead
/// bytes of 1-, 2- and 3-byte sequences encode characters of one UTF-16
/// unit, lead bytes of 4-byte sequences encode characters of two, and
/// continuation bytes contribute nothing.
pub open spec fn utf16_units(b: u8) -> int {
    if b < 0x80 {
        1
    } else if b < 0xC0 {
        0
    } else if b < 0xF0 {
        1
    } else {
        2
    }
}

/// The UTF-16 width of a run of UTF-8 bytes: the sum of the per-byte
/// contributions.
pub open spec fn utf16_width(s: Seq<u8>) -> int
    decreases s.len(),
{
    if s.len() == 0 {
        0
    } else {
        utf16_width(s.drop_last()) + utf16_units(s.last())
    }
}

/// The number of line-feed bytes in `s`.
pub open spec fn newline_count(s: Seq<u8>) -> int
    decreases s.len(),
{
    if s.len() == 0 {
        0
    } else {
        newline_count(s.drop_last()) + if s.last() == 10u8 {
            1int
        } else {
            0int
        }
    }
}

/// The 1-based line on which byte offset `lo` of `s` falls: one more than
/// the number of line feeds strictly before it.
pub open spec fn line_spec(s: Seq<u8>, lo: int) -> int
    recommends
        0 <= lo <= s.len(),
{
    1 + newline_count(s.subrange(0, lo))
}

/// The offset of the first byte of the line that byte offset `lo` falls on:
/// the offset just after the last line feed strictly before `lo`, or 0.
pub open spec fn line_start(s: Seq<u8>, lo: int) -> int
    decreases lo,
{
    if lo <= 0 {
        0
    } else if s[lo - 1] == 10u8 {
        lo
    } else {
        line_start(s, lo - 1)
    }
}

/// The 0-based column of byte offset `lo` of `s`, in UTF-16 code units
/// counted from the start of its line.
pub open spec fn col_spec(s: Seq<u8>, lo: int) -> int
    recommends
        0 <= lo <= s.len(),
{
    utf16_width(s.subrange(line_start(s, lo), lo))
}

pub proof fn lemma_newline_count_bounds(s: Seq<u8>)
    ensures
        0 <= newline_count(s) <= s.len(),
    decreases s.len(),
{
    if s.len() > 0 {
        lemma_newline_count_bounds(s.drop_last());
    }
}

pub proof fn lemma_utf16_width_bounds(s: Seq<u8>)
    ensures
        0 <= utf16_width(s) <= 2 * s.len(),
    decreases s.len(),
{
    if s.len() > 0 {
        lemma_utf16_width_bounds(s.drop_last());
    }
}

pub proof fn lemma_line_start_bounds(s: Seq<u8>, lo: int)
    requires
        0 <= lo,
    ensures
        0 <= line_start(s, lo) <= lo,
    decreases lo,
{
    if lo > 0 && s[lo - 1] != 10u8 {
        lemma_line_start_bounds(s, lo - 1);
    }
}

/// One byte forward: how the line number changes.
proof fn lemma_line_step(s: Seq<u8>, i: int)
    requires
        0 <= i < s.len(),
    ensures
        line_spec(s, i + 1) == line_spec(s, i) + if s[i] == 10u8 {
            1int
        } else {
            0int
        },
{
    assert(s.subrange(0, i + 1).drop_last() =~= s.subrange(0, i));
    assert(s.subrange(0, i + 1).last() == s[i]);
}

/// One byte forward: how the column changes. Passing a line feed resets
/// the column to zero; any other byte adds its UTF-16 contribution.
proof fn lemma_col_step(s: Seq<u8>, i: int)
    requires
        0 <= i < s.len(),
    ensures
        s[i] == 10u8 ==> col_spec(s, i + 1) == 0,
        s[i] != 10u8 ==> col_spec(s, i + 1) == col_spec(s, i) + utf16_units(s[i]),
{
    if s[i] == 10u8 {
        assert(line_start(s, i + 1) == i + 1);
        assert(s.subrange(i + 1, i + 1).len() == 0);
    } else {
        assert(line_start(s, i + 1) == line_start(s, i));
        lemma_line_start_bounds(s, i);
        let ls = line_start(s, i);
        assert(s.subrange(ls, i + 1).drop_last() =~= s.subrange(ls, i));
        assert(s.subrange(ls, i + 1).last() == s[i]);
    }
}

/// The column of an offset is the UTF-16 width of the bytes between the
/// start of its line and the offset; in particular, a declaration that
/// starts its line is reported at column zero.
pub proof fn lemma_column_from_line_start(s: Seq<u8>, lo: int)
    requires
        0 <= lo <= s.len(),
    ensures
        col_spec(s, lo) == utf16_width(s.subrange(line_start(s, lo), lo)),
        line_start(s, lo) == lo ==> col_spec(s, lo) == 0,
{
    if line_start(s, lo) == lo {
        assert(s.subrange(lo, lo).len() == 0);
    }
}

/// Resolve byte offset `lo` of `source` to its 1-based line and 0-based
/// UTF-16 column.
pub fn position_of(source: &Vec<u8>, lo: usize) -> (r: (usize, usize))
    requires
        lo <= source@.len(),
        source@.len() < usize::MAX / 2,
    ensures
        r.0 == line_spec(source@, lo as int),
        r.1 == col_spec(source@, lo as int),
{
    let ghost s = source@;
    let mut line: usize = 1;
    let mut col: usize = 0;
    let mut i: usize = 0;
    proof {
        assert(s.subrange(0, 0).len() == 0);
        assert(line_start(s, 0) == 0);
    }
    while i < lo
        invariant
            i <= lo,
            lo <= s.len(),
            s.len() < usize::MAX / 2,
            s == source@,
            line == line_spec(s, i as int),
            col == col_spec(s, i as int),
        decreases lo - i,
    {
        proof {
            lemma_line_step(s, i as int);
            lemma_col_step(s, i as int);
            lemma_newline_count_bounds(s.subrange(0, i + 1));
            lemma_line_start_bounds(s, i + 1);
            lemma_utf16_width_bounds(s.subrange(line_start(s, i + 1), i + 1));
            assert(s.subrange(0, i + 1).len() == i + 1);
            assert(s.subrange(line_start(s, i + 1), i + 1).len() <= s.len());
        }
        let b = source[i];
        if b == 10u8 {
            line = line + 1;
            col = 0;
        } else {
            let u: usize = if b < 0x80 {
                1
            } else if b < 0xC0 {
                0
            } else if b < 0xF0 {
                1
            } else {
                2
            };
            col = col + u;
        }
        i = i + 1;
    }
    (line, col)
}

} // verus!
