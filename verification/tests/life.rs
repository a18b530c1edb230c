use term_life::engine::calculate_gol;
use term_life::engine::count_neighbors;
use term_life::grid::init_random;
use term_life::grid::needs_reseed;
use term_life::grid::reseed_if_needed;
use term_life::grid::Color;
use term_life::grid::GameData;
use term_life::input::handle_keys;
use term_life::input::next_color;
use term_life::input::KeyInput;
use term_life::render::cell_pair_glyph;
use term_life::render::render_gol;
use term_life::render::Glyph;

fn grid_from(board: Vec<Vec<i32>>) -> GameData {
    let width: usize = board.len();
    let height: usize = if width > 0 { board[0].len() } else { 0 };
    GameData {
        width,
        height,
        board,
        game_running: true,
        reload: false,
        color: Color::Cyan,
    }
}

#[test]
fn neighbor_counts_on_a_small_grid() {
    // x -> columns, y -> rows; alive cells: (0,0), (1,1), (2,2).
    let gd = grid_from(vec![vec![1, 0, 0], vec![0, 1, 0], vec![0, 0, 1]]);
    assert_eq!(count_neighbors(&gd, 0, 0), 1);
    assert_eq!(count_neighbors(&gd, 1, 1), 2);
    assert_eq!(count_neighbors(&gd, 2, 2), 1);
    assert_eq!(count_neighbors(&gd, 2, 0), 1);
    assert_eq!(count_neighbors(&gd, 0, 2), 1);
    assert_eq!(count_neighbors(&gd, 1, 0), 2);
}

#[test]
fn neighbor_count_treats_any_nonzero_value_as_alive() {
    let gd = grid_from(vec![vec![0, 7], vec![3, 0]]);
    assert_eq!(count_neighbors(&gd, 0, 0), 2);
    assert_eq!(count_neighbors(&gd, 1, 1), 2);
}

#[test]
fn blinker_oscillates_and_stores_neighbor_counts() {
    // A blinker filling the middle column flips to the middle row and back.
    let mut gd = grid_from(vec![vec![0, 0, 0], vec![1, 1, 1], vec![0, 0, 0]]);
    calculate_gol(&mut gd);
    // Born cells store 3 (their neighbor count), the survivor stores 2.
    assert_eq!(gd.board, vec![vec![0, 3, 0], vec![0, 2, 0], vec![0, 3, 0]]);
    calculate_gol(&mut gd);
    // One more step flips it back to the vertical line.
    assert_eq!(gd.board, vec![vec![0, 0, 0], vec![3, 2, 3], vec![0, 0, 0]]);
}

#[test]
fn birth_on_exactly_three_neighbors() {
    // Dead center cell with exactly three live neighbors comes alive.
    let mut gd = grid_from(vec![vec![1, 1, 0], vec![1, 0, 0], vec![0, 0, 0]]);
    calculate_gol(&mut gd);
    assert_ne!(gd.board[1][1], 0);
}

#[test]
fn lonely_and_crowded_cells_die() {
    // Two live cells far apart: each has at most one live neighbor.
    let mut gd = grid_from(vec![vec![1, 0, 0], vec![0, 0, 0], vec![0, 0, 1]]);
    calculate_gol(&mut gd);
    for x in 0..3 {
        for y in 0..3 {
            assert_eq!(gd.board[x][y], 0);
        }
    }
}

#[test]
fn lone_center_cell_leaves_an_empty_grid() {
    // A 3x3 grid with only the center alive: the center had zero live
    // neighbors, so the next generation is entirely dead.
    let mut gd = grid_from(vec![vec![0, 0, 0], vec![0, 1, 0], vec![0, 0, 0]]);
    calculate_gol(&mut gd);
    for x in 0..3 {
        for y in 0..3 {
            assert_eq!(gd.board[x][y], 0);
        }
    }
}

#[test]
fn full_three_by_three_keeps_only_its_corners() {
    // Corners see 3 neighbors and live; edge midpoints see 5 and die; the
    // center sees 8 and dies. No count ever looks outside the grid.
    let mut gd = grid_from(vec![vec![1, 1, 1], vec![1, 1, 1], vec![1, 1, 1]]);
    calculate_gol(&mut gd);
    assert_eq!(gd.board, vec![vec![3, 0, 3], vec![0, 0, 0], vec![3, 0, 3]]);
}

#[test]
fn step_is_deterministic() {
    let board = vec![vec![0, 1, 0, 1], vec![1, 1, 0, 0], vec![0, 0, 1, 1]];
    let mut a = grid_from(board.clone());
    let mut b = grid_from(board);
    calculate_gol(&mut a);
    calculate_gol(&mut b);
    assert_eq!(a.board, b.board);
}

#[test]
fn step_keeps_dimensions_and_flags() {
    let mut gd = grid_from(vec![vec![1, 0], vec![0, 1], vec![1, 1]]);
    gd.color = Color::Green;
    calculate_gol(&mut gd);
    assert_eq!(gd.width, 3);
    assert_eq!(gd.height, 2);
    assert_eq!(gd.board.len(), 3);
    assert!(gd.board.iter().all(|col| col.len() == 2));
    assert!(gd.game_running);
    assert!(!gd.reload);
    assert_eq!(gd.color, Color::Green);
}

#[test]
fn reseed_matches_terminal_size_and_seeds_zero_or_one() {
    let gd = init_random(5, 3, None);
    assert_eq!(gd.width, 5);
    assert_eq!(gd.height, 6);
    assert_eq!(gd.board.len(), 5);
    for col in &gd.board {
        assert_eq!(col.len(), 6);
        for &v in col {
            assert!(v == 0 || v == 1);
        }
    }
    assert!(gd.game_running);
    assert!(!gd.reload);
    assert_eq!(gd.color, Color::Cyan);
}

#[test]
fn reseed_carries_the_palette_selection_over() {
    let gd = init_random(2, 2, Some(Color::Green));
    assert_eq!(gd.color, Color::Green);
}

#[test]
fn glyph_mapping_for_each_cell_pair() {
    assert_eq!(cell_pair_glyph(1, 1), Glyph::Full);
    assert_eq!(cell_pair_glyph(1, 0), Glyph::Upper);
    assert_eq!(cell_pair_glyph(0, 1), Glyph::Lower);
    assert_eq!(cell_pair_glyph(0, 0), Glyph::Blank);
    assert_eq!(cell_pair_glyph(2, 5), Glyph::Full);
}

#[test]
fn render_maps_a_single_column_pair() {
    let both = render_gol(&grid_from(vec![vec![1, 1]]));
    assert_eq!(both, vec![vec![Glyph::Full]]);
    let upper = render_gol(&grid_from(vec![vec![1, 0]]));
    assert_eq!(upper, vec![vec![Glyph::Upper]]);
    let lower = render_gol(&grid_from(vec![vec![0, 1]]));
    assert_eq!(lower, vec![vec![Glyph::Lower]]);
    let neither = render_gol(&grid_from(vec![vec![0, 0]]));
    assert_eq!(neither, vec![vec![Glyph::Blank]]);
}

#[test]
fn render_covers_the_whole_frame() {
    let gd = grid_from(vec![vec![1, 1, 0, 0], vec![0, 1, 1, 0]]);
    let frame = render_gol(&gd);
    assert_eq!(
        frame,
        vec![vec![Glyph::Full, Glyph::Blank], vec![Glyph::Lower, Glyph::Upper]]
    );
}

#[test]
fn resize_is_noticed_and_reload_forces_a_reseed() {
    let gd = grid_from(vec![vec![0; 4]; 3]);
    // Grid is 3 wide and 4 tall, so it matches a 3x2 terminal exactly.
    assert!(!needs_reseed(&gd, 3, 2));
    assert!(needs_reseed(&gd, 4, 2));
    assert!(needs_reseed(&gd, 3, 3));
    let mut reloading = grid_from(vec![vec![0; 4]; 3]);
    reloading.reload = true;
    assert!(needs_reseed(&reloading, 3, 2));
}

#[test]
fn reseed_if_needed_replaces_the_grid_wholesale() {
    let mut gd = grid_from(vec![vec![9; 4]; 3]);
    gd.color = Color::White;
    gd.reload = true;
    reseed_if_needed(&mut gd, 2, 1);
    assert_eq!(gd.width, 2);
    assert_eq!(gd.height, 2);
    assert!(!gd.reload);
    assert!(gd.game_running);
    assert_eq!(gd.color, Color::White);
    for col in &gd.board {
        for &v in col {
            assert!(v == 0 || v == 1);
        }
    }
}

#[test]
fn reseed_if_needed_leaves_a_matching_grid_alone() {
    let mut gd = grid_from(vec![vec![7, 0, 1, 0], vec![0, 2, 0, 3]]);
    let before = gd.board.clone();
    reseed_if_needed(&mut gd, 2, 2);
    assert_eq!(gd.board, before);
    assert_eq!(gd.width, 2);
    assert_eq!(gd.height, 4);
}

#[test]
fn quit_key_stops_the_session() {
    let mut gd = grid_from(vec![vec![1, 0]]);
    handle_keys(&mut gd, Some(KeyInput::Quit));
    assert!(!gd.game_running);
    assert!(!gd.reload);
    assert_eq!(gd.color, Color::Cyan);
}

#[test]
fn reload_key_requests_a_reseed() {
    let mut gd = grid_from(vec![vec![1, 0]]);
    handle_keys(&mut gd, Some(KeyInput::Reload));
    assert!(gd.reload);
    assert!(gd.game_running);
}

#[test]
fn palette_key_cycles_and_wraps() {
    let mut gd = grid_from(vec![vec![1, 0]]);
    handle_keys(&mut gd, Some(KeyInput::CycleColor));
    assert_eq!(gd.color, Color::Pink);
    handle_keys(&mut gd, Some(KeyInput::CycleColor));
    assert_eq!(gd.color, Color::Green);
    handle_keys(&mut gd, Some(KeyInput::CycleColor));
    assert_eq!(gd.color, Color::White);
    handle_keys(&mut gd, Some(KeyInput::CycleColor));
    assert_eq!(gd.color, Color::Cyan);
    assert_eq!(next_color(Color::Pink), Color::Green);
}

#[test]
fn other_keys_and_no_key_change_nothing() {
    let mut gd = grid_from(vec![vec![1, 0], vec![0, 1]]);
    let before = gd.board.clone();
    handle_keys(&mut gd, Some(KeyInput::Other));
    handle_keys(&mut gd, None);
    assert_eq!(gd.board, before);
    assert!(gd.game_running);
    assert!(!gd.reload);
    assert_eq!(gd.color, Color::Cyan);
}
