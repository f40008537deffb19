//! Position arithmetic on raw text: turning a line and column, as an
//! embedded engine reports them, into a byte offset that a diagnostic
//! label can use.

use vstd::prelude::*;

verus! {

/// The newline byte.
pub const NEWLINE: u8 = 10;

/// The index of the first newline in `c`, or `c.len()` when there is
/// none.
pub open spec fn first_newline(c: Seq<u8>) -> int
    decreases c.len(),
{
    if c.len() == 0 {
        0
    } else if c[0] == NEWLINE {
        0
    } else {
        1 + first_newline(c.skip(1))
    }
}

/// The first newline of `c` lies inside `c`, or just past it when there
/// is none.
pub proof fn lemma_first_newline_bounds(c: Seq<u8>)
    ensures
        0 <= first_newline(c) <= c.len(),
    decreases c.len(),
{
    if c.len() != 0 && c[0] != NEWLINE {
        lemma_first_newline_bounds(c.skip(1));
    }
}

/// The byte offset of the given line and column in `c`: the lengths of
/// the first `line` lines, each with its newline, plus `column`. When the
/// text ends before that line, the lengths of all its lines; when the
/// text is empty, zero.
pub open spec fn spec_offset(c: Seq<u8>, line: int, column: int) -> int
    decreases c.len(),
    via spec_offset_decreases
{
    if c.len() == 0 {
        0
    } else if line == 0 {
        column
    } else {
        let p = first_newline(c);
        if p >= c.len() {
            c.len() as int + 1
        } else {
            p + 1 + spec_offset(c.skip(p + 1), line - 1, column)
        }
    }
}

#[via_fn]
proof fn spec_offset_decreases(c: Seq<u8>, line: int, column: int) {
    lemma_first_newline_bounds(c);
}

/// The index of the first newline at or after `from`, or the length of
/// the text when there is none.
fn find_newline(content: &Vec<u8>, from: usize) -> (r: usize)
    requires
        from <= content@.len(),
    ensures
        from <= r <= content@.len(),
        r - from == first_newline(content@.skip(from as int)),
    decreases content@.len() - from,
{
    if from == content.len() {
        proof {
            assert(content@.skip(from as int) =~= Seq::<u8>::empty());
        }
        return from;
    }
    proof {
        assert(content@.skip(from as int)[0] == content@[from as int]);
    }
    if content[from] == NEWLINE {
        from
    } else {
        let r = find_newline(content, from + 1);
        proof {
            assert(content@.skip(from as int).skip(1) =~= content@.skip(from as int + 1));
        }
        r
    }
}

/// The byte offset of the given line and column in `content`, counting a
/// newline byte at the end of each line skipped; with fewer lines than
/// asked for, the offset just past all of them.
pub fn get_offset(content: &Vec<u8>, line: usize, column: usize) -> (r: usize)
    requires
        content@.len() + column + 1 <= usize::MAX,
    ensures
        r as int == spec_offset(content@, line as int, column as int),
{
    let mut rest_start: usize = 0;
    let mut remaining = line;
    let mut acc: usize = 0;
    proof {
        assert(content@.skip(0) =~= content@);
    }
    loop
        invariant
            rest_start <= content@.len(),
            content@.len() + column + 1 <= usize::MAX,
            acc <= rest_start,
            spec_offset(content@, line as int, column as int) == acc + spec_offset(
                content@.skip(rest_start as int),
                remaining as int,
                column as int,
            ),
        decreases remaining,
    {
        if rest_start == content.len() {
            proof {
                assert(content@.skip(rest_start as int) =~= Seq::<u8>::empty());
            }
            return acc;
        }
        if remaining == 0 {
            return acc + column;
        }
        let p = find_newline(content, rest_start);
        if p == content.len() {
            return acc + (p - rest_start) + 1;
        }
        proof {
            assert(content@.skip(rest_start as int).skip(p - rest_start + 1) =~= content@.skip(
                p as int + 1,
            ));
        }
        acc = acc + (p - rest_start) + 1;
        rest_start = p + 1;
        remaining = remaining - 1;
    }
}

} // verus!
