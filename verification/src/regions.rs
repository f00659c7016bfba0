//! Finding fillable gaps in the reactor ASCII art: places where core markers
//! can be drawn, looked for in the middle band of the art.

use vstd::prelude::*;

verus! {

/// One line's scan from column `x` on, with the cursor state: whether it
/// stands inside drawn content, and where the current candidate gap started.
/// A non-space entered from outside starts content; a space after content
/// opens a candidate gap at that column; a gap is recorded when content
/// resumes and the gap is between four and twenty-nine columns wide.
pub open spec fn spec_scan(
    line: Seq<char>,
    y: usize,
    x: int,
    inside: bool,
    start: usize,
) -> Seq<(usize, usize)>
    decreases line.len() - x,
{
    if x < 0 || x >= line.len() {
        Seq::empty()
    } else {
        let c = line[x];
        if !inside && c != ' ' {
            spec_scan(line, y, x + 1, true, start)
        } else if inside && c == ' ' {
            spec_scan(line, y, x + 1, false, x as usize)
        } else if !inside && c != ' ' && start > 0 {
            let width: int = if x > start {
                x - start
            } else {
                0
            };
            if width > 3 && width < 30 {
                seq![(start, y)] + spec_scan(line, y, x + 1, true, 0)
            } else {
                spec_scan(line, y, x + 1, true, 0)
            }
        } else {
            spec_scan(line, y, x + 1, inside, start)
        }
    }
}

/// The regions one line contributes: its whole scan, unless the line is too
/// short to hold a region.
pub open spec fn spec_line_regions(line: Seq<char>, y: usize) -> Seq<(usize, usize)> {
    if line.len() < 10 {
        Seq::empty()
    } else {
        spec_scan(line, y, 0, false, 0)
    }
}

/// The regions of the lines in `[from, to)`, in line order.
pub open spec fn spec_fillable_regions(lines: Seq<Seq<char>>, from: int, to: int) -> Seq<
    (usize, usize),
>
    decreases to - from,
{
    if from < 0 || from >= to {
        Seq::empty()
    } else {
        spec_line_regions(lines[from], from as usize) + spec_fillable_regions(lines, from + 1, to)
    }
}

/// Appending one more line's regions at the top end of the range.
proof fn lemma_fillable_regions_snoc(lines: Seq<Seq<char>>, from: int, to: int)
    requires
        0 <= from <= to,
    ensures
        spec_fillable_regions(lines, from, to + 1) == spec_fillable_regions(lines, from, to)
            + spec_line_regions(lines[to], to as usize),
    decreases to - from,
{
    if from == to {
        assert(spec_fillable_regions(lines, from, to) =~= Seq::<(usize, usize)>::empty());
        assert(spec_fillable_regions(lines, to + 1, to + 1) =~= Seq::<(usize, usize)>::empty());
        assert(spec_fillable_regions(lines, from, to + 1) =~= spec_line_regions(
            lines[to],
            to as usize,
        ));
    } else {
        lemma_fillable_regions_snoc(lines, from + 1, to);
        assert(spec_fillable_regions(lines, from, to + 1) =~= spec_fillable_regions(lines, from, to)
            + spec_line_regions(lines[to], to as usize));
    }
}

/// Find the gaps in the middle band of the art (between a quarter and three
/// quarters of its height) where extra markers could be drawn, as `(column,
/// line)` pairs.
pub fn find_fillable_regions(lines: &Vec<String>) -> (regions: Vec<(usize, usize)>)
    requires
        lines@.len() * 3 <= usize::MAX,
    ensures
        regions@ == spec_fillable_regions(
            lines.deep_view(),
            lines@.len() as int / 4,
            lines@.len() as int * 3 / 4,
        ),
{
    let mut regions: Vec<(usize, usize)> = Vec::new();
    let core_start_line = lines.len() / 4;
    let core_end_line = lines.len() * 3 / 4;
    let ghost deep = lines.deep_view();
    let mut y = core_start_line;
    while y < core_end_line
        invariant
            lines@.len() * 3 <= usize::MAX,
            deep == lines.deep_view(),
            deep.len() == lines@.len(),
            core_start_line == lines@.len() / 4,
            core_end_line == lines@.len() * 3 / 4,
            core_end_line <= lines@.len(),
            core_start_line <= y <= core_end_line,
            regions@ == spec_fillable_regions(deep, core_start_line as int, y as int),
        decreases core_end_line - y,
    {
        let line: &String = &lines[y];
        proof {
            assert(deep[y as int] == line@);
        }
        let len = line.as_str().unicode_len();
        if len >= 10 {
            let mut inside = false;
            let mut start: usize = 0;
            let mut x: usize = 0;
            let ghost base = regions@;
            while x < len
                invariant
                    len == line@.len(),
                    x <= len,
                    base + spec_scan(line@, y, 0, false, 0) == regions@ + spec_scan(
                        line@,
                        y,
                        x as int,
                        inside,
                        start,
                    ),
                decreases len - x,
            {
                let c = line.as_str().get_char(x);
                let ghost pre_regions = regions@;
                let ghost pre_inside = inside;
                let ghost pre_start = start;
                if !inside && c != ' ' {
                    inside = true;
                } else if inside && c == ' ' {
                    start = x;
                    inside = false;
                } else if !inside && c != ' ' && start > 0 {
                    let region_width = if x > start {
                        x - start
                    } else {
                        0
                    };
                    if region_width > 3 && region_width < 30 {
                        regions.push((start, y));
                    }
                    inside = true;
                    start = 0;
                }
                proof {
                    assert(regions@ =~= pre_regions + (regions@.subrange(
                        pre_regions.len() as int,
                        regions@.len() as int,
                    )));
                    assert(pre_regions + spec_scan(line@, y, x as int, pre_inside, pre_start)
                        =~= regions@ + spec_scan(line@, y, x + 1 as int, inside, start));
                }
                x = x + 1;
            }
            proof {
                assert(spec_scan(line@, y, len as int, inside, start) =~= Seq::<
                    (usize, usize),
                >::empty());
                assert(regions@ =~= base + spec_scan(line@, y, 0, false, 0));
                lemma_fillable_regions_snoc(deep, core_start_line as int, y as int);
            }
        } else {
            proof {
                lemma_fillable_regions_snoc(deep, core_start_line as int, y as int);
            }
        }
        y = y + 1;
    }
    regions
}

} // verus!
