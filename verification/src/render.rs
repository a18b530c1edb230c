//! The renderer's glyph mapping: each terminal character cell shows a pair
//! of vertically adjacent grid cells as a full, upper-half, lower-half or
//! blank block.

use vstd::prelude::*;
use crate::grid::GameData;

verus! {

/// What one terminal character cell shows for its pair of grid cells.
#[derive(Clone, Copy, Debug, PartialEq, Eq, Structural)]
pub enum Glyph {
    /// Both cells of the pair are alive: a full block.
    Full,
    /// Only the even (upper) cell is alive: an upper half block.
    Upper,
    /// Only the odd (lower) cell is alive: a lower half block.
    Lower,
    /// Neither cell is alive: a blank.
    Blank,
}

/// The glyph a pair of cells maps to.
pub open spec fn glyph_for(upper_alive: bool, lower_alive: bool) -> Glyph {
    if upper_alive && lower_alive {
        Glyph::Full
    } else if upper_alive {
        Glyph::Upper
    } else if lower_alive {
        Glyph::Lower
    } else {
        Glyph::Blank
    }
}

/// Maps one pair of stored cell values to its glyph; any nonzero value
/// counts as alive.
pub fn cell_pair_glyph(upper: i32, lower: i32) -> (g: Glyph)
    ensures
        g == glyph_for(upper != 0, lower != 0),
{
    if upper != 0 && lower != 0 {
        Glyph::Full
    } else if upper != 0 {
        Glyph::Upper
    } else if lower != 0 {
        Glyph::Lower
    } else {
        Glyph::Blank
    }
}

/// Computes the full frame to draw: one glyph per terminal character cell,
/// where `frame[x][r]` shows the grid cells `(x, 2r)` and `(x, 2r + 1)`.
/// Every character cell of the visible area is produced, so drawing the
/// frame is a full redraw.
pub fn render_gol(gd: &GameData) -> (frame: Vec<Vec<Glyph>>)
    requires
        gd.wf(),
    ensures
        frame@.len() == gd.width as int,
        forall|x: int| 0 <= x < gd.width ==> (#[trigger] frame@[x])@.len() == gd.height as int / 2,
        forall|x: int, r: int|
            0 <= x < gd.width && 0 <= r < gd.height as int / 2 ==> #[trigger] frame@[x]@[r]
                == glyph_for(gd.alive(x, 2 * r), gd.alive(x, 2 * r + 1)),
{
    let rows: usize = gd.height / 2;
    let mut frame: Vec<Vec<Glyph>> = Vec::new();
    let mut x: usize = 0;
    while x < gd.width
        invariant
            gd.wf(),
            rows == gd.height as int / 2,
            x <= gd.width,
            frame@.len() == x as int,
            forall|a: int| 0 <= a < x ==> (#[trigger] frame@[a])@.len() == rows as int,
            forall|a: int, r: int|
                0 <= a < x && 0 <= r < rows ==> #[trigger] frame@[a]@[r] == glyph_for(
                    gd.alive(a, 2 * r),
                    gd.alive(a, 2 * r + 1),
                ),
        decreases gd.width - x,
    {
        let mut column: Vec<Glyph> = Vec::new();
        let mut r: usize = 0;
        while r < rows
            invariant
                gd.wf(),
                rows == gd.height as int / 2,
                x < gd.width,
                r <= rows,
                column@.len() == r as int,
                forall|c: int|
                    0 <= c < r ==> #[trigger] column@[c] == glyph_for(
                        gd.alive(x as int, 2 * c),
                        gd.alive(x as int, 2 * c + 1),
                    ),
            decreases rows - r,
        {
            let upper: i32 = gd.board[x][2 * r];
            let lower: i32 = gd.board[x][2 * r + 1];
            column.push(cell_pair_glyph(upper, lower));
            r = r + 1;
        }
        frame.push(column);
        x = x + 1;
    }
    frame
}

} // verus!
