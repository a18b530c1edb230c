//! The rule engine: Moore-neighbor counting and the generation step, with
//! the laws the classic rule obeys.

use vstd::prelude::*;
use crate::grid::GameData;

verus! {

/// What one position adds to a neighbor count: one when the cell is alive,
/// nothing when it is dead or outside the grid.
pub open spec fn live_contrib(gd: GameData, i: int, j: int) -> nat {
    if gd.alive(i, j) {
        1nat
    } else {
        0nat
    }
}

/// The number of live cells among the eight Moore neighbors of `(i, j)`
/// that lie inside `[0, width) x [0, height)`. Edges are hard boundaries:
/// there is no wraparound.
pub open spec fn neighbor_count(gd: GameData, i: int, j: int) -> nat {
    live_contrib(gd, i - 1, j - 1) + live_contrib(gd, i - 1, j) + live_contrib(gd, i - 1, j + 1)
        + live_contrib(gd, i, j - 1) + live_contrib(gd, i, j + 1) + live_contrib(gd, i + 1, j - 1)
        + live_contrib(gd, i + 1, j) + live_contrib(gd, i + 1, j + 1)
}

/// The classic rule: a live cell survives with two or three live neighbors,
/// a dead cell is born with exactly three, every other cell is dead next.
pub open spec fn next_alive(gd: GameData, i: int, j: int) -> bool {
    if gd.alive(i, j) {
        neighbor_count(gd, i, j) == 2 || neighbor_count(gd, i, j) == 3
    } else {
        neighbor_count(gd, i, j) == 3
    }
}

/// The value stored in the next generation: the neighbor count for a cell
/// that comes out alive (a cosmetic marker; any nonzero value means alive),
/// zero for one that comes out dead.
pub open spec fn next_value(gd: GameData, i: int, j: int) -> int {
    if next_alive(gd, i, j) {
        neighbor_count(gd, i, j) as int
    } else {
        0
    }
}

/// Counts the live Moore neighbors of `(row, col)`, never looking outside
/// the grid.
pub fn count_neighbors(gd: &GameData, row: usize, col: usize) -> (count: i32)
    requires
        gd.wf(),
        row < gd.width,
        col < gd.height,
    ensures
        count == neighbor_count(*gd, row as int, col as int),
{
    let mut count: i32 = 0;
    if row > 0 && col > 0 && gd.board[row - 1][col - 1] != 0 {
        count = count + 1;
    }
    if row > 0 && gd.board[row - 1][col] != 0 {
        count = count + 1;
    }
    if row > 0 && col + 1 < gd.height && gd.board[row - 1][col + 1] != 0 {
        count = count + 1;
    }
    if col > 0 && gd.board[row][col - 1] != 0 {
        count = count + 1;
    }
    if col + 1 < gd.height && gd.board[row][col + 1] != 0 {
        count = count + 1;
    }
    if row + 1 < gd.width && col > 0 && gd.board[row + 1][col - 1] != 0 {
        count = count + 1;
    }
    if row + 1 < gd.width && gd.board[row + 1][col] != 0 {
        count = count + 1;
    }
    if row + 1 < gd.width && col + 1 < gd.height && gd.board[row + 1][col + 1] != 0 {
        count = count + 1;
    }
    count
}

/// Computes the whole next generation into a fresh buffer, reading only the
/// frozen current one.
fn next_board(gd: &GameData) -> (b: Vec<Vec<i32>>)
    requires
        gd.wf(),
    ensures
        b@.len() == gd.width as int,
        forall|i: int| 0 <= i < gd.width ==> (#[trigger] b@[i])@.len() == gd.height as int,
        forall|i: int, j: int|
            0 <= i < gd.width && 0 <= j < gd.height ==> #[trigger] b@[i]@[j] == next_value(*gd, i, j),
{
    let mut b: Vec<Vec<i32>> = Vec::new();
    let mut i: usize = 0;
    while i < gd.width
        invariant
            gd.wf(),
            i <= gd.width,
            b@.len() == i as int,
            forall|a: int| 0 <= a < i ==> (#[trigger] b@[a])@.len() == gd.height as int,
            forall|a: int, j: int|
                0 <= a < i && 0 <= j < gd.height ==> #[trigger] b@[a]@[j] == next_value(*gd, a, j),
        decreases gd.width - i,
    {
        let mut column: Vec<i32> = Vec::new();
        let mut j: usize = 0;
        while j < gd.height
            invariant
                gd.wf(),
                i < gd.width,
                j <= gd.height,
                column@.len() == j as int,
                forall|c: int| 0 <= c < j ==> #[trigger] column@[c] == next_value(*gd, i as int, c),
            decreases gd.height - j,
        {
            let n_alive: i32 = count_neighbors(gd, i, j);
            let cur: i32 = gd.board[i][j];
            let v: i32 = if cur != 0 && (n_alive == 2 || n_alive == 3) {
                n_alive
            } else if cur == 0 && n_alive == 3 {
                n_alive
            } else {
                0
            };
            column.push(v);
            j = j + 1;
        }
        b.push(column);
        i = i + 1;
    }
    b
}

/// Advances the grid by one generation in place: every cell of the new
/// board holds exactly the value the rule assigns it from the old board,
/// computed against a frozen snapshot, and the dimensions and session flags
/// are untouched. The outcome is a function of the old grid alone.
pub fn calculate_gol(gd: &mut GameData)
    requires
        old(gd).wf(),
    ensures
        final(gd).wf(),
        final(gd).width == old(gd).width,
        final(gd).height == old(gd).height,
        final(gd).game_running == old(gd).game_running,
        final(gd).reload == old(gd).reload,
        final(gd).color == old(gd).color,
        forall|i: int, j: int|
            0 <= i < old(gd).width && 0 <= j < old(gd).height
                ==> #[trigger] final(gd).board@[i]@[j] == next_value(*old(gd), i, j),
{
    let tmp: Vec<Vec<i32>> = next_board(gd);
    gd.board = tmp;
}

/// A cell with exactly three live Moore neighbors is alive in the next
/// generation, whatever its current state: the birth and survival cases
/// overlap at three.
pub proof fn lemma_three_neighbors_lives(gd: GameData, i: int, j: int)
    requires
        neighbor_count(gd, i, j) == 3,
    ensures
        next_alive(gd, i, j),
{
}

/// A cell with zero, one, or four or more live Moore neighbors is dead in
/// the next generation, whatever its current state.
pub proof fn lemma_starved_or_crowded_dies(gd: GameData, i: int, j: int)
    requires
        neighbor_count(gd, i, j) == 0 || neighbor_count(gd, i, j) == 1 || neighbor_count(gd, i, j)
            >= 4,
    ensures
        !next_alive(gd, i, j),
{
}

/// A position outside `[0, width) x [0, height)` contributes nothing to any
/// neighbor count: the grid's edges are hard boundaries.
pub proof fn lemma_outside_cells_not_counted(gd: GameData, i: int, j: int)
    requires
        !(0 <= i < gd.width && 0 <= j < gd.height),
    ensures
        live_contrib(gd, i, j) == 0,
{
}

/// No cell sees more than eight live neighbors; a cell on an edge of the
/// grid sees at most five, and one in a corner at most three.
pub proof fn lemma_neighbor_count_bounds(gd: GameData, i: int, j: int)
    ensures
        neighbor_count(gd, i, j) <= 8,
        i == 0 || i + 1 == gd.width ==> neighbor_count(gd, i, j) <= 5,
        j == 0 || j + 1 == gd.height ==> neighbor_count(gd, i, j) <= 5,
        (i == 0 || i + 1 == gd.width) && (j == 0 || j + 1 == gd.height) ==> neighbor_count(
            gd,
            i,
            j,
        ) <= 3,
{
}

/// Two grids of the same dimensions with the same live-cell pattern step to
/// the same next generation, cell for cell and stored value for stored
/// value: the rule depends on nothing but the current grid.
pub proof fn lemma_step_deterministic(a: GameData, b: GameData)
    requires
        a.width == b.width,
        a.height == b.height,
        forall|i: int, j: int|
            0 <= i < a.width && 0 <= j < a.height ==> (a.alive(i, j) <==> b.alive(i, j)),
    ensures
        forall|i: int, j: int| #[trigger] next_alive(a, i, j) == next_alive(b, i, j),
        forall|i: int, j: int| #[trigger] next_value(a, i, j) == next_value(b, i, j),
{
    assert forall|i: int, j: int| a.alive(i, j) == b.alive(i, j) by {
        if 0 <= i < a.width && 0 <= j < a.height {
            assert(a.alive(i, j) <==> b.alive(i, j));
        }
    }
    assert forall|i: int, j: int| #[trigger] neighbor_count(a, i, j) == neighbor_count(b, i, j) by {
        assert(a.alive(i - 1, j - 1) == b.alive(i - 1, j - 1));
        assert(a.alive(i - 1, j) == b.alive(i - 1, j));
        assert(a.alive(i - 1, j + 1) == b.alive(i - 1, j + 1));
        assert(a.alive(i, j - 1) == b.alive(i, j - 1));
        assert(a.alive(i, j + 1) == b.alive(i, j + 1));
        assert(a.alive(i + 1, j - 1) == b.alive(i + 1, j - 1));
        assert(a.alive(i + 1, j) == b.alive(i + 1, j));
        assert(a.alive(i + 1, j + 1) == b.alive(i + 1, j + 1));
    }
    assert forall|i: int, j: int| #[trigger] next_alive(a, i, j) == next_alive(b, i, j) by {
        assert(neighbor_count(a, i, j) == neighbor_count(b, i, j));
        assert(a.alive(i, j) == b.alive(i, j));
    }
}

} // verus!
