//! The geometry of a frame: whether the field is big enough to play on,
//! the background grid and the net, in cell coordinates with the row
//! count running upwards from the bottom of the field.

use vstd::prelude::*;

verus! {

/// The narrowest field that is drawn.
pub const MIN_WIDTH: u16 = 10;

/// The lowest field that is drawn.
pub const MIN_HEIGHT: u16 = 7;

/// Whether a field of this size is big enough to play on.
pub fn fits_play_area(width: u16, height: u16) -> (fits: bool)
    ensures
        fits == (width >= MIN_WIDTH && height >= MIN_HEIGHT),
{
    width >= MIN_WIDTH && height >= MIN_HEIGHT
}

/// The number of grid columns: every other column, from the first.
pub open spec fn grid_columns(width: u16) -> nat {
    (width as nat + 1) / 2
}

/// The number of grid rows: every other row, from the top.
pub open spec fn grid_rows(height: u16) -> nat {
    (height as nat + 1) / 2
}

/// The point of the background grid in grid row `r` and grid column `c`:
/// column `2 c`, and row `2 r` counted from the top, expressed counted
/// from the bottom.
pub open spec fn grid_point(height: u16, r: int, c: int) -> (u16, u16) {
    ((2 * c) as u16, (height - 1 - 2 * r) as u16)
}

proof fn lemma_index_in_rows(r: int, c: int, rows: int, cols: int)
    by (nonlinear_arith)
    requires
        0 <= r < rows,
        0 <= c < cols,
    ensures
        0 <= r * cols + c < rows * cols,
        r * cols + c < (r + 1) * cols,
        r * cols <= r * cols + c,
{
}

proof fn lemma_next_row(r: int, cols: int)
    by (nonlinear_arith)
    requires
        0 <= r,
        0 <= cols,
    ensures
        r * cols + cols == (r + 1) * cols,
        0 <= r * cols,
{
}

/// The background grid: a point on every other column of every other
/// row, row by row from the top, each row from the left.
pub fn background_grid(width: u16, height: u16) -> (grid: Vec<(u16, u16)>)
    ensures
        grid@.len() == grid_rows(height) * grid_columns(width),
        forall|r: int, c: int|
            0 <= r < grid_rows(height) && 0 <= c < grid_columns(width) ==> #[trigger] grid@[r
                * grid_columns(width) + c] == grid_point(height, r, c),
        forall|k: int|
            0 <= k < grid@.len() ==> (#[trigger] grid@[k]).0 < width && grid@[k].1 < height,
{
    let ghost cols = grid_columns(width) as int;
    let mut grid: Vec<(u16, u16)> = Vec::new();
    let mut y: u32 = 0;
    let ghost mut r: int = 0;
    while y < height as u32
        invariant
            cols == grid_columns(width),
            y == 2 * r,
            0 <= r <= grid_rows(height),
            grid@.len() == r * cols,
            forall|k: int| 0 <= k < grid@.len() ==> (#[trigger] grid@[k]).0 < width && grid@[k].1 < height,
            forall|r2: int, c: int|
                0 <= r2 < r && 0 <= c < cols ==> #[trigger] grid@[r2 * cols + c] == grid_point(
                    height,
                    r2,
                    c,
                ),
        decreases height as int + 2 - y,
    {
        let row = (height as u32 - 1 - y) as u16;
        let mut x: u32 = 0;
        let ghost mut c: int = 0;
        proof {
            lemma_next_row(r, cols);
        }
        while x < width as u32
            invariant
                cols == grid_columns(width),
                y == 2 * r,
                y < height,
                row == height - 1 - y,
                0 <= r < grid_rows(height),
                x == 2 * c,
                0 <= c <= cols,
                0 <= r * cols,
                grid@.len() == r * cols + c,
                forall|k: int| 0 <= k < grid@.len() ==> (#[trigger] grid@[k]).0 < width && grid@[k].1 < height,
                forall|r2: int, c2: int|
                    0 <= r2 < r && 0 <= c2 < cols ==> #[trigger] grid@[r2 * cols + c2]
                        == grid_point(height, r2, c2),
                forall|c2: int| 0 <= c2 < c ==> #[trigger] grid@[r * cols + c2] == grid_point(height, r, c2),
            decreases width as int + 2 - x,
        {
            let ghost before = grid@;
            grid.push((x as u16, row));
            proof {
                assert forall|r2: int, c2: int|
                    0 <= r2 < r && 0 <= c2 < cols implies #[trigger] grid@[r2 * cols + c2]
                    == grid_point(height, r2, c2) by {
                    lemma_index_in_rows(r2, c2, r, cols);
                    assert(grid@[r2 * cols + c2] == before[r2 * cols + c2]);
                }
                assert forall|c2: int| 0 <= c2 < c + 1 implies #[trigger] grid@[r * cols + c2]
                    == grid_point(height, r, c2) by {
                    if c2 < c {
                        assert(grid@[r * cols + c2] == before[r * cols + c2]);
                    }
                }
                c = c + 1;
            }
            x = x + 2;
        }
        proof {
            lemma_next_row(r, cols);
            r = r + 1;
        }
        y = y + 2;
    }
    grid
}

/// The grid's point in grid row `r` and column `c` stands in the `2 c`-th
/// column and `2 r` rows below the top, inside the field; neighbouring grid
/// points are two cells apart.
pub proof fn lemma_grid_spacing(width: u16, height: u16, r: int, c: int)
    requires
        0 <= r < grid_rows(height),
        0 <= c < grid_columns(width),
    ensures
        grid_point(height, r, c).0 == 2 * c,
        grid_point(height, r, c).0 < width,
        grid_point(height, r, c).1 + 2 * r == height - 1,
        grid_point(height, r, c).1 < height,
        c + 1 < grid_columns(width) ==> grid_point(height, r, c + 1).0 == grid_point(height, r, c).0
            + 2,
        r + 1 < grid_rows(height) ==> grid_point(height, r + 1, c).1 + 2 == grid_point(
            height,
            r,
            c,
        ).1,
        2 * grid_columns(width) >= width,
        2 * grid_rows(height) >= height,
{
}

/// The net: the row of every other cell from the top, expressed counted
/// from the bottom.
pub fn net_rows(height: u16) -> (rows: Vec<u16>)
    ensures
        rows@.len() == grid_rows(height),
        forall|k: int| 0 <= k < rows@.len() ==> #[trigger] rows@[k] == height - 1 - 2 * k,
        forall|k: int| 0 <= k < rows@.len() ==> #[trigger] rows@[k] < height,
{
    let mut rows: Vec<u16> = Vec::new();
    let mut row: u16 = 0;
    while row < height
        invariant
            row <= height,
            rows@.len() == (row as nat + 1) / 2,
            forall|k: int| 0 <= k < rows@.len() ==> #[trigger] rows@[k] == height - 1 - 2 * k,
        decreases height - row,
    {
        if row % 2 == 0 {
            rows.push(height - 1 - row);
        }
        row = row + 1;
    }
    rows
}

} // verus!
