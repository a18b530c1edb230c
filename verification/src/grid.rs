//! The grid model: the cell matrix with its dimensions and session flags,
//! and the operations that create or replace it.

use vstd::prelude::*;

verus! {

/// The display colors the renderer cycles through.
#[derive(Clone, Copy, Debug, PartialEq, Eq, Structural)]
pub enum Color {
    Cyan,
    Pink,
    Green,
    White,
}

/// The whole session state. The board is indexed `board[x][y]` with `x` a
/// terminal column and `y` a logical row; a cell holding `0` is dead and any
/// nonzero (always positive) value means alive.
pub struct GameData {
    pub width: usize,
    pub height: usize,
    pub board: Vec<Vec<i32>>,
    pub game_running: bool,
    pub reload: bool,
    pub color: Color,
}

impl GameData {
    /// Shape invariant: the board is exactly `width` columns of `height`
    /// cells each, and every stored cell value is non-negative.
    pub open spec fn wf(self) -> bool {
        &&& self.board@.len() == self.width as int
        &&& forall|i: int| 0 <= i < self.width ==> (#[trigger] self.board@[i])@.len() == self.height as int
        &&& forall|i: int, j: int|
                0 <= i < self.width && 0 <= j < self.height ==> #[trigger] self.board@[i]@[j] >= 0
    }

    /// A cell is alive exactly when it lies inside the grid and stores a
    /// nonzero value; every position outside the grid counts as dead.
    pub open spec fn alive(self, i: int, j: int) -> bool {
        &&& 0 <= i < self.width
        &&& 0 <= j < self.height
        &&& self.board@[i]@[j] != 0
    }
}

/// Relies on rand::random: draws one boolean from the thread-local
/// generator. Nothing is promised of the outcome.
#[verifier::external_body]
fn random_cell_alive() -> bool {
    rand::random()
}

/// The grid a reseed must produce from the given terminal size: `width`
/// columns of `2 * height` cells (two logical rows per character row),
/// running, with no reseed pending, every cell either dead or freshly alive
/// with marker value `1`.
pub open spec fn freshly_seeded(gd: GameData, term_width: u16, term_height: u16) -> bool {
    &&& gd.wf()
    &&& gd.width == term_width as usize
    &&& gd.height == 2 * (term_height as usize)
    &&& gd.game_running
    &&& !gd.reload
    &&& forall|i: int, j: int|
            0 <= i < gd.width && 0 <= j < gd.height
                ==> (#[trigger] gd.board@[i]@[j]) == 0 || gd.board@[i]@[j] == 1
}

/// Builds a fresh grid for the given terminal size: each cell is seeded
/// alive or dead independently at random, the session is set running, and
/// the palette selection is carried over when one is supplied (else the
/// first palette entry is used).
pub fn init_random(term_width: u16, term_height: u16, old_color: Option<Color>) -> (gd: GameData)
    ensures
        freshly_seeded(gd, term_width, term_height),
        gd.color == (match old_color {
            Option::Some(c) => c,
            Option::None => Color::Cyan,
        }),
{
    let w: usize = term_width as usize;
    let h: usize = (term_height as usize) * 2;
    let mut board: Vec<Vec<i32>> = Vec::new();
    let mut i: usize = 0;
    while i < w
        invariant
            i <= w,
            board@.len() == i as int,
            forall|a: int| 0 <= a < i ==> (#[trigger] board@[a])@.len() == h as int,
            forall|a: int, b: int|
                0 <= a < i && 0 <= b < h ==> (#[trigger] board@[a]@[b]) == 0 || board@[a]@[b] == 1,
        decreases w - i,
    {
        let mut column: Vec<i32> = Vec::new();
        let mut j: usize = 0;
        while j < h
            invariant
                j <= h,
                column@.len() == j as int,
                forall|b: int| 0 <= b < j ==> (#[trigger] column@[b]) == 0 || column@[b] == 1,
            decreases h - j,
        {
            let v: i32 = if random_cell_alive() {
                1
            } else {
                0
            };
            column.push(v);
            j = j + 1;
        }
        board.push(column);
        i = i + 1;
    }
    GameData {
        width: w,
        height: h,
        board,
        game_running: true,
        reload: false,
        color: match old_color {
            Option::Some(c) => c,
            Option::None => Color::Cyan,
        },
    }
}

/// Whether the grid must be replaced before the next generation runs: a
/// reload was requested, or the terminal size no longer matches the grid's
/// recorded dimensions.
pub open spec fn reseed_due(gd: GameData, term_width: u16, term_height: u16) -> bool {
    gd.reload || gd.width != term_width as usize || gd.height != 2 * (term_height as usize)
}

/// Decides whether the grid must be replaced for the given terminal size.
pub fn needs_reseed(gd: &GameData, term_width: u16, term_height: u16) -> (b: bool)
    ensures
        b == reseed_due(*gd, term_width, term_height),
{
    gd.reload || gd.width != term_width as usize || gd.height != 2 * (term_height as usize)
}

/// Replaces the grid wholesale when a reload is pending or the terminal
/// size has changed, carrying the palette selection over; otherwise leaves
/// it untouched. A due reseed always rebuilds the whole matrix rather than
/// resizing it in place.
pub fn reseed_if_needed(gd: &mut GameData, term_width: u16, term_height: u16)
    requires
        old(gd).wf(),
    ensures
        final(gd).wf(),
        final(gd).color == old(gd).color,
        reseed_due(*old(gd), term_width, term_height)
            ==> freshly_seeded(*final(gd), term_width, term_height),
        !reseed_due(*old(gd), term_width, term_height) ==> *final(gd) == *old(gd),
{
    if needs_reseed(gd, term_width, term_height) {
        let c: Color = gd.color;
        *gd = init_random(term_width, term_height, Option::Some(c));
    }
}

} // verus!
