//! Placement of cells in a rectangle of the terminal: rows of given heights
//! stacked from the top, equal columns side by side, two columns that fill
//! independently, and a grid. All positions are 16-bit cell coordinates, as
//! the terminal's are.

use vstd::prelude::*;

verus! {

/// A rectangle of terminal cells.
#[derive(Debug, Clone, Copy, PartialEq, Eq, Structural)]
pub struct Area {
    pub x: u16,
    pub y: u16,
    pub width: u16,
    pub height: u16,
}

pub open spec fn min_int(a: int, b: int) -> int {
    if a <= b {
        a
    } else {
        b
    }
}

/// The sum of the first `n` heights.
pub open spec fn prefix_sum(h: Seq<u16>, n: int) -> int
    decreases n,
{
    if n <= 0 {
        0
    } else {
        prefix_sum(h, n - 1) + h[n - 1]
    }
}

/// Row `i` of a stack: it starts below the rows before it and is cut at
/// the bottom of the area.
pub open spec fn stacked_row(area: Area, h: Seq<u16>, i: int) -> Area {
    Area {
        x: area.x,
        y: (area.y + prefix_sum(h, i)) as u16,
        width: area.width,
        height: min_int(h[i] as int, area.height - prefix_sum(h, i)) as u16,
    }
}

/// Placing row `i` of a stack, when it starts inside the area, stays
/// within 16-bit coordinates.
pub open spec fn stack_step_fits(area: Area, h: Seq<u16>, i: int) -> bool {
    prefix_sum(h, i) < area.height ==> area.y + prefix_sum(h, i) <= u16::MAX && prefix_sum(h, i) + h[i]
        <= u16::MAX
}

/// The width of each of `count` equal columns: the area's width divided by
/// the count taken in 16 bits.
pub open spec fn column_width(area: Area, count: nat) -> int {
    (area.width / (count as u16)) as int
}

/// Column `i` of a row of `count` equal columns of the given height.
pub open spec fn row_cell(area: Area, count: nat, height: u16, i: int) -> Area {
    Area {
        x: (area.x + (i as u16) * column_width(area, count)) as u16,
        y: area.y,
        width: column_width(area, count) as u16,
        height,
    }
}

/// Column `i` of the row starts within 16-bit coordinates.
pub open spec fn row_cell_fits(area: Area, count: nat, i: int) -> bool {
    area.x + (i as u16) * column_width(area, count) <= u16::MAX
}

/// The count is not a multiple of 2^16 (which would divide by zero) and
/// every column starts within 16-bit coordinates.
pub open spec fn row_fits(area: Area, count: nat) -> bool {
    &&& (count as u16) != 0
    &&& forall|i: int| 0 <= i < count ==> #[trigger] row_cell_fits(area, count, i)
}

/// `count` equal columns side by side across the area, each of the given
/// height.
pub fn row_cells(area: Area, count: usize, height: u16) -> (r: Vec<Area>)
    requires
        row_fits(area, count as nat),
    ensures
        r@.len() == count,
        forall|i: int| 0 <= i < count ==> #[trigger] r@[i] == row_cell(area, count as nat, height, i),
{
    let n: u16 = #[verifier::truncate] (count as u16);
    let width: u16 = area.width / n;
    let mut out: Vec<Area> = Vec::new();
    let mut i: usize = 0;
    while i < count
        invariant
            i <= count,
            out@.len() == i,
            n == count as u16,
            width == column_width(area, count as nat),
            row_fits(area, count as nat),
            forall|j: int| 0 <= j < i ==> #[trigger] out@[j] == row_cell(area, count as nat, height, j),
        decreases count - i,
    {
        assert(row_cell_fits(area, count as nat, i as int));
        let k: u16 = #[verifier::truncate] (i as u16);
        let dx: u16 = k * width;
        out.push(Area { x: area.x + dx, y: area.y, width, height });
        i += 1;
    }
    out
}

/// How far down its column cell `i` of two columns starts: the heights of
/// the cells before it in the same column, the even cells on the left and
/// the odd cells on the right.
pub open spec fn column_offset(h: Seq<u16>, i: int) -> int
    decreases i,
{
    if i < 2 {
        0
    } else {
        column_offset(h, i - 2) + h[i - 2]
    }
}

/// Cell `i` of two columns: even cells on the left half, odd cells on the
/// right half, each cut at the bottom of the area.
pub open spec fn two_column_cell(area: Area, h: Seq<u16>, i: int) -> Area {
    Area {
        x: if i % 2 == 0 {
            area.x
        } else {
            (area.x + area.width / 2) as u16
        },
        y: (area.y + column_offset(h, i)) as u16,
        width: (area.width / 2) as u16,
        height: min_int(h[i] as int, area.height - column_offset(h, i)) as u16,
    }
}

/// Cell `i` of two columns starts inside the area and within 16-bit
/// coordinates, and its column's offset after it fits in 16 bits.
pub open spec fn two_column_step_fits(area: Area, h: Seq<u16>, i: int) -> bool {
    &&& column_offset(h, i) <= area.height
    &&& area.y + column_offset(h, i) <= u16::MAX
    &&& column_offset(h, i) + h[i] <= u16::MAX
    &&& i % 2 == 1 ==> area.x + area.width / 2 <= u16::MAX
}

pub open spec fn two_columns_fit(area: Area, h: Seq<u16>) -> bool {
    forall|i: int| 0 <= i < h.len() ==> #[trigger] two_column_step_fits(area, h, i)
}

/// Cells of the given heights placed alternately in a left and a right
/// column, each column filled from the top.
pub fn two_column_cells(area: Area, heights: &Vec<u16>) -> (r: Vec<Area>)
    requires
        two_columns_fit(area, heights@),
    ensures
        r@.len() == heights@.len(),
        forall|i: int| 0 <= i < heights@.len() ==> #[trigger] r@[i] == two_column_cell(area, heights@, i),
{
    let width: u16 = area.width / 2;
    let mut left: u16 = 0;
    let mut right: u16 = 0;
    let mut out: Vec<Area> = Vec::new();
    let mut i: usize = 0;
    while i < heights.len()
        invariant
            i <= heights@.len(),
            out@.len() == i,
            width == area.width / 2,
            two_columns_fit(area, heights@),
            i % 2 == 0 ==> left == column_offset(heights@, i as int) && right == column_offset(
                heights@,
                i + 1,
            ),
            i % 2 == 1 ==> right == column_offset(heights@, i as int) && left == column_offset(
                heights@,
                i + 1,
            ),
            forall|j: int| 0 <= j < i ==> #[trigger] out@[j] == two_column_cell(area, heights@, j),
        decreases heights@.len() - i,
    {
        assert(two_column_step_fits(area, heights@, i as int));
        assert(column_offset(heights@, i + 2) == column_offset(heights@, i as int) + heights@[i as int]);
        let h = heights[i];
        if i % 2 == 0 {
            let room = area.height - left;
            let height = if h < room {
                h
            } else {
                room
            };
            out.push(Area { x: area.x, y: area.y + left, width, height });
            left = left + h;
        } else {
            let room = area.height - right;
            let height = if h < room {
                h
            } else {
                room
            };
            out.push(Area { x: area.x + width, y: area.y + right, width, height });
            right = right + h;
        }
        i += 1;
    }
    out
}

/// The number of rows of a grid of `count` cells in `columns` columns, the
/// count taken in 16 bits.
pub open spec fn grid_rows(count: nat, columns: u16) -> int {
    ((count as u16) + columns - 1) / (columns as int)
}

/// The height of a grid row: the area's height shared by the rows, at
/// least one row.
pub open spec fn grid_row_height(area: Area, count: nat, columns: u16) -> int {
    (area.height as int) / (if grid_rows(count, columns) > 1 {
        grid_rows(count, columns)
    } else {
        1
    })
}

/// Cell `i` of the grid: row `i / columns`, column `i % columns` (the index
/// taken in 16 bits), every cell of the same size.
pub open spec fn grid_cell(area: Area, count: nat, columns: u16, i: int) -> Area {
    Area {
        x: (area.x + ((i as u16) % columns) * (area.width / columns)) as u16,
        y: (area.y + ((i as u16) / columns) * grid_row_height(area, count, columns)) as u16,
        width: (area.width / columns) as u16,
        height: grid_row_height(area, count, columns) as u16,
    }
}

/// Cell `i` of the grid starts within 16-bit coordinates.
pub open spec fn grid_cell_fits(area: Area, count: nat, columns: u16, i: int) -> bool {
    &&& area.x + ((i as u16) % columns) * (area.width / columns) <= u16::MAX
    &&& area.y + ((i as u16) / columns) * grid_row_height(area, count, columns) <= u16::MAX
}

/// There are columns, the count of rows can be computed in 16 bits, and
/// every cell starts within 16-bit coordinates.
pub open spec fn grid_fits(area: Area, count: nat, columns: u16) -> bool {
    &&& columns > 0
    &&& (count as u16) + columns <= u16::MAX
    &&& forall|i: int| 0 <= i < count ==> #[trigger] grid_cell_fits(area, count, columns, i)
}

/// `count` cells in a grid of `columns` columns filling the area row by
/// row.
pub fn grid_cells(area: Area, count: usize, columns: u16) -> (r: Vec<Area>)
    requires
        grid_fits(area, count as nat, columns),
    ensures
        r@.len() == count,
        forall|i: int| 0 <= i < count ==> #[trigger] r@[i] == grid_cell(area, count as nat, columns, i),
{
    let n: u16 = #[verifier::truncate] (count as u16);
    let width: u16 = area.width / columns;
    let rows: u16 = (n + columns - 1) / columns;
    let row_height: u16 = area.height / if rows > 1 {
        rows
    } else {
        1
    };
    let mut out: Vec<Area> = Vec::new();
    let mut i: usize = 0;
    while i < count
        invariant
            i <= count,
            out@.len() == i,
            columns > 0,
            width == area.width / columns,
            row_height == grid_row_height(area, count as nat, columns),
            grid_fits(area, count as nat, columns),
            forall|j: int| 0 <= j < i ==> #[trigger] out@[j] == grid_cell(area, count as nat, columns, j),
        decreases count - i,
    {
        assert(grid_cell_fits(area, count as nat, columns, i as int));
        let k: u16 = #[verifier::truncate] (i as u16);
        let row: u16 = k / columns;
        let col: u16 = k % columns;
        let dx: u16 = col * width;
        let dy: u16 = row * row_height;
        out.push(Area { x: area.x + dx, y: area.y + dy, width, height: row_height });
        i += 1;
    }
    out
}

/// Line `i` of a column of one-line cells.
pub open spec fn line_cell(area: Area, i: int) -> Area {
    Area { x: area.x, y: (area.y + i) as u16, width: area.width, height: 1 }
}

/// The number of one-line cells of `count` that fit in the area's height.
pub open spec fn line_count(area: Area, count: nat) -> int {
    min_int(count as int, area.height as int)
}

/// Every line placed starts within 16-bit coordinates.
pub open spec fn lines_fit(area: Area, count: nat) -> bool {
    line_count(area, count) == 0 || area.y + line_count(area, count) - 1 <= u16::MAX
}

/// One-line cells going down from the top of the area, as many of `count`
/// as there are lines in it.
pub fn line_cells(area: Area, count: usize) -> (r: Vec<Area>)
    requires
        lines_fit(area, count as nat),
    ensures
        r@.len() == line_count(area, count as nat),
        forall|i: int| 0 <= i < r@.len() ==> #[trigger] r@[i] == line_cell(area, i),
{
    let mut out: Vec<Area> = Vec::new();
    let mut i: usize = 0;
    while i < count && i < area.height as usize
        invariant
            i <= line_count(area, count as nat),
            out@.len() == i,
            lines_fit(area, count as nat),
            forall|j: int| 0 <= j < i ==> #[trigger] out@[j] == line_cell(area, j),
        decreases count - i,
    {
        let k: u16 = i as u16;
        out.push(Area { x: area.x, y: area.y + k, width: area.width, height: 1 });
        i += 1;
    }
    out
}

/// Line `i` of a grid of one-line cells in `columns` columns: row
/// `i / columns` and column `i % columns`, the index taken in 16 bits.
pub open spec fn grid_line(area: Area, columns: u16, i: int) -> Area {
    Area {
        x: (area.x + ((i as u16) % columns) * (area.width / columns)) as u16,
        y: (area.y + (i as u16) / columns) as u16,
        width: (area.width / columns) as u16,
        height: 1,
    }
}

/// Line `i` of the grid, when its row is inside the area, starts within
/// 16-bit coordinates.
pub open spec fn grid_line_fits(area: Area, columns: u16, i: int) -> bool {
    ((i as u16) / columns) < area.height ==> area.x + ((i as u16) % columns) * (area.width / columns)
        <= u16::MAX && area.y + (i as u16) / columns <= u16::MAX
}

/// There are columns, the count of rows of the grid can be computed in 16
/// bits, and every line placed starts within 16-bit coordinates.
pub open spec fn grid_lines_fit(area: Area, count: nat, columns: u16) -> bool {
    &&& columns > 0
    &&& (count as u16) + columns <= u16::MAX
    &&& forall|i: int| 0 <= i < count ==> #[trigger] grid_line_fits(area, columns, i)
}

/// One-line cells of `count` in a grid of `columns` columns, row by row,
/// up to the first whose row is at or below the bottom of the area.
pub fn grid_lines(area: Area, count: usize, columns: u16) -> (r: Vec<Area>)
    requires
        grid_lines_fit(area, count as nat, columns),
    ensures
        r@.len() <= count,
        forall|i: int| 0 <= i < r@.len() ==> #[trigger] ((i as u16) / columns) < area.height,
        forall|i: int| 0 <= i < r@.len() ==> #[trigger] r@[i] == grid_line(area, columns, i),
        r@.len() < count ==> ((r@.len() as u16) / columns) >= area.height,
{
    let width: u16 = area.width / columns;
    let mut out: Vec<Area> = Vec::new();
    let mut i: usize = 0;
    while i < count
        invariant
            i <= count,
            out@.len() == i,
            columns > 0,
            width == area.width / columns,
            grid_lines_fit(area, count as nat, columns),
            forall|j: int| 0 <= j < i ==> #[trigger] ((j as u16) / columns) < area.height,
            forall|j: int| 0 <= j < i ==> #[trigger] out@[j] == grid_line(area, columns, j),
        decreases count - i,
    {
        let k: u16 = #[verifier::truncate] (i as u16);
        let row: u16 = k / columns;
        if row >= area.height {
            return out;
        }
        assert(grid_line_fits(area, columns, i as int));
        let col: u16 = k % columns;
        let dx: u16 = col * width;
        out.push(Area { x: area.x + dx, y: area.y + row, width, height: 1 });
        i += 1;
    }
    out
}

/// A row of a stack that starts inside the area ends inside it: it is cut
/// at the bottom.
pub proof fn lemma_stacked_row_inside(area: Area, h: Seq<u16>, i: int)
    requires
        0 <= i < h.len(),
        prefix_sum(h, i) < area.height,
        area.y + area.height <= u16::MAX,
    ensures
        stacked_row(area, h, i).y >= area.y,
        stacked_row(area, h, i).y + stacked_row(area, h, i).height <= area.y + area.height,
{
    lemma_prefix_sum_nonneg(h, i);
}

proof fn lemma_prefix_sum_nonneg(h: Seq<u16>, n: int)
    ensures
        prefix_sum(h, n) >= 0,
    decreases n,
{
    if n > 0 {
        lemma_prefix_sum_nonneg(h, n - 1);
    }
}

proof fn lemma_column_offset_nonneg(h: Seq<u16>, i: int)
    ensures
        column_offset(h, i) >= 0,
    decreases i,
{
    if i >= 2 {
        lemma_column_offset_nonneg(h, i - 2);
    }
}

/// A cell of two columns that starts inside the area ends inside it.
pub proof fn lemma_two_column_cell_inside(area: Area, h: Seq<u16>, i: int)
    requires
        0 <= i < h.len(),
        column_offset(h, i) <= area.height,
        area.y + area.height <= u16::MAX,
    ensures
        two_column_cell(area, h, i).y >= area.y,
        two_column_cell(area, h, i).y + two_column_cell(area, h, i).height <= area.y + area.height,
{
    lemma_column_offset_nonneg(h, i);
}

} // verus!
