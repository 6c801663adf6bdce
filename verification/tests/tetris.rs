use easyx::color::Color;
use easyx::keycode::KeyCode;
use easyx::tetris::{
    Block, Direction, GameState, Grid, Tetromino, GRID_HEIGHT, GRID_WIDTH,
};

fn block(shape: Tetromino, x: i32, y: i32, rotation: usize) -> Block {
    Block { shape, x, y, rotation }
}

#[test]
fn rotate_coords_maps_the_four_quarter_turns() {
    let b = block(Tetromino::T, 0, 0, 0);
    assert_eq!(b.rotate_coords(1, 2), (1, 2));
    let b = block(Tetromino::T, 0, 0, 1);
    assert_eq!(b.rotate_coords(1, 2), (1, 1));
    let b = block(Tetromino::T, 0, 0, 2);
    assert_eq!(b.rotate_coords(1, 2), (2, 1));
    let b = block(Tetromino::T, 0, 0, 3);
    assert_eq!(b.rotate_coords(1, 2), (2, 2));
}

#[test]
fn shapes_match_the_stencils() {
    let i = Tetromino::I.shapes();
    assert_eq!(i[1], [true, true, true, true]);
    assert_eq!(i[0], [false, false, false, false]);
    let o = Tetromino::O.shapes();
    assert_eq!(o[1], [false, true, true, false]);
    assert_eq!(o[2], [false, true, true, false]);
    let t = Tetromino::T.shapes();
    assert_eq!(t[1], [false, true, false, false]);
    assert_eq!(t[2], [true, true, true, false]);
    for shape in [
        Tetromino::I,
        Tetromino::O,
        Tetromino::T,
        Tetromino::L,
        Tetromino::J,
        Tetromino::S,
        Tetromino::Z,
    ] {
        let arr = shape.shapes();
        for y in 0..4 {
            for x in 0..4 {
                assert_eq!(arr[y][x], shape.cell(x, y));
            }
        }
    }
}

#[test]
fn shape_colors() {
    assert_eq!(Tetromino::I.color().as_colorref(), 0xAAAA00);
    assert_eq!(Tetromino::O.color().as_colorref(), 0x55FFFF);
    assert_eq!(Tetromino::T.color().as_colorref(), 0xAA00AA);
    assert_eq!(Tetromino::L.color().as_colorref(), 0xFFA500);
    assert_eq!(Tetromino::J.color().as_colorref(), 0xAA0000);
    assert_eq!(Tetromino::S.color().as_colorref(), 0x00AA00);
    assert_eq!(Tetromino::Z.color().as_colorref(), 0x0000AA);
}

#[test]
fn random_shapes_vary() {
    let mut seen = [false; 7];
    for _ in 0..200 {
        let idx = match Tetromino::random() {
            Tetromino::I => 0,
            Tetromino::O => 1,
            Tetromino::T => 2,
            Tetromino::L => 3,
            Tetromino::J => 4,
            Tetromino::S => 5,
            Tetromino::Z => 6,
        };
        seen[idx] = true;
    }
    assert!(seen.iter().filter(|s| **s).count() >= 2);
}

#[test]
fn collision_against_the_walls_and_floor() {
    let g = Grid::new();
    // the O piece occupies stencil columns 1..=2, rows 1..=2
    let b = block(Tetromino::O, 3, 0, 0);
    assert!(!b.check_collision(&g));
    let left_out = block(Tetromino::O, -2, 0, 0);
    assert!(left_out.check_collision(&g));
    let left_edge = block(Tetromino::O, -1, 0, 0);
    assert!(!left_edge.check_collision(&g));
    let right_out = block(Tetromino::O, GRID_WIDTH as i32 - 2, 0, 0);
    assert!(right_out.check_collision(&g));
    let floor_out = block(Tetromino::O, 3, GRID_HEIGHT as i32 - 2, 0);
    assert!(floor_out.check_collision(&g));
    let above_top = block(Tetromino::O, 3, -2, 0);
    assert!(!above_top.check_collision(&g));
}

#[test]
fn collision_against_locked_cells() {
    let mut st = GameState::new(0);
    st.current_block = block(Tetromino::O, 3, GRID_HEIGHT as i32 - 3, 0);
    st.lock_block();
    // the locked square fills cells (4..=5, 18..=19)
    assert!(st.grid.get(4, 18).is_some());
    assert!(st.grid.get(5, 19).is_some());
    assert!(st.grid.get(3, 18).is_none());
    let overlapping = block(Tetromino::O, 3, GRID_HEIGHT as i32 - 3, 0);
    assert!(overlapping.check_collision(&st.grid));
    let beside = block(Tetromino::O, 0, GRID_HEIGHT as i32 - 3, 0);
    assert!(!beside.check_collision(&st.grid));
}

#[test]
fn move_block_steps_and_refuses_collisions() {
    let g = Grid::new();
    let mut b = block(Tetromino::O, 3, 0, 0);
    assert!(b.move_block(Direction::Left, &g));
    assert_eq!(b.x, 2);
    assert!(b.move_block(Direction::Right, &g));
    assert_eq!(b.x, 3);
    assert!(b.move_block(Direction::Down, &g));
    assert_eq!(b.y, 1);
    // walk to the left wall: stencil column 1 must stay at grid column 0
    let mut b = block(Tetromino::O, -1, 0, 0);
    assert!(!b.move_block(Direction::Left, &g));
    assert_eq!(b.x, -1);
    assert_eq!(b.y, 0);
}

#[test]
fn rotation_turns_and_kicks() {
    let g = Grid::new();
    // the I piece lying in stencil row 1 turns upright
    let mut b = block(Tetromino::I, 3, 0, 0);
    b.rotate(Direction::Right, &g);
    assert_eq!(b.rotation, 1);
    assert_eq!(b.x, 3);
    let mut b = block(Tetromino::I, 3, 0, 1);
    b.rotate(Direction::Left, &g);
    assert_eq!(b.rotation, 0);
    // an upright I near the right wall kicks left when turning over:
    // turned at x = 7 it would stick out, so the kick searches sideways
    let mut b = block(Tetromino::I, 7, 4, 1);
    assert!(!b.check_collision(&g));
    b.rotate(Direction::Right, &g);
    assert_eq!(b.rotation, 2);
    assert_eq!(b.x, 6);
    // a down move never rotates
    let mut b = block(Tetromino::T, 3, 0, 0);
    b.rotate(Direction::Down, &g);
    assert_eq!(b.rotation, 0);
}

#[test]
fn lock_block_paints_covered_cells_with_the_shape_color() {
    let mut st = GameState::new(0);
    st.current_block = block(Tetromino::T, 0, 0, 0);
    st.lock_block();
    // T stencil: (1,1) and (0..=2, 2)
    assert_eq!(st.grid.get(1, 1), Some(Tetromino::T.color()));
    assert_eq!(st.grid.get(0, 2), Some(Tetromino::T.color()));
    assert_eq!(st.grid.get(1, 2), Some(Tetromino::T.color()));
    assert_eq!(st.grid.get(2, 2), Some(Tetromino::T.color()));
    assert_eq!(st.grid.get(0, 1), None);
    assert_eq!(st.grid.get(3, 2), None);
    assert_eq!(st.score, 0);
}

fn fill_row(st: &mut GameState, y: usize) {
    for x in 0..GRID_WIDTH {
        st.grid.set(x, y, Some(Color::white()));
    }
}

#[test]
fn clear_lines_scores_and_speeds_up() {
    let mut st = GameState::new(0);
    assert_eq!(st.drop_interval, 1000);
    fill_row(&mut st, GRID_HEIGHT - 1);
    // a marker above the full row must fall one row with the clear
    st.current_block = block(Tetromino::O, 3, GRID_HEIGHT as i32 - 4, 0);
    st.lock_block();
    // the marker square sits in rows 17 and 18
    assert!(st.grid.get(4, GRID_HEIGHT - 3).is_some());
    st.clear_lines();
    assert_eq!(st.score, 100);
    assert_eq!(st.drop_interval, 950);
    // the full bottom row is gone and the marker fell one row
    assert!(st.grid.get(0, GRID_HEIGHT - 1).is_none());
    assert!(st.grid.get(4, GRID_HEIGHT - 1).is_some());
    assert!(st.grid.get(4, GRID_HEIGHT - 2).is_some());
    assert!(st.grid.get(4, GRID_HEIGHT - 3).is_none());
}

#[test]
fn clear_lines_without_full_rows_changes_nothing() {
    let mut st = GameState::new(0);
    st.current_block = block(Tetromino::O, 3, GRID_HEIGHT as i32 - 3, 0);
    st.lock_block();
    st.clear_lines();
    assert_eq!(st.score, 0);
    assert_eq!(st.drop_interval, 1000);
    assert!(st.grid.get(4, GRID_HEIGHT - 1).is_some());
}

#[test]
fn drop_interval_never_goes_below_its_floor() {
    let mut st = GameState::new(0);
    st.drop_interval = 120;
    fill_row(&mut st, GRID_HEIGHT - 1);
    st.clear_lines();
    assert_eq!(st.drop_interval, 100);
    fill_row(&mut st, GRID_HEIGHT - 1);
    st.clear_lines();
    assert_eq!(st.drop_interval, 100);
}

#[test]
fn spawn_places_the_next_shape_at_the_top() {
    let mut st = GameState::new(0);
    let next = st.next_block;
    assert!(st.spawn_new_block());
    assert_eq!(st.current_block.shape, next);
    assert_eq!(st.current_block.x, (GRID_WIDTH / 2 - 2) as i32);
    assert_eq!(st.current_block.y, 0);
    assert_eq!(st.current_block.rotation, 0);
    assert!(!st.game_over);
}

#[test]
fn spawn_into_a_blocked_top_ends_the_game() {
    let mut st = GameState::new(0);
    // wall off the two spawn rows completely
    fill_row(&mut st, 1);
    fill_row(&mut st, 2);
    assert!(!st.spawn_new_block());
    assert!(st.game_over);
}

#[test]
fn update_waits_for_the_drop_interval() {
    let mut st = GameState::new(1000);
    let y0 = st.current_block.y;
    st.update(1500);
    assert_eq!(st.current_block.y, y0);
    assert_eq!(st.last_drop_time, 1000);
    st.update(2001);
    assert_eq!(st.current_block.y, y0 + 1);
    assert_eq!(st.last_drop_time, 2001);
}

#[test]
fn update_does_nothing_after_game_over() {
    let mut st = GameState::new(0);
    st.game_over = true;
    let y0 = st.current_block.y;
    st.update(5000);
    assert_eq!(st.current_block.y, y0);
    assert_eq!(st.last_drop_time, 0);
}

#[test]
fn update_locks_a_grounded_piece_and_spawns_the_next() {
    let mut st = GameState::new(0);
    st.current_block = block(Tetromino::O, 3, GRID_HEIGHT as i32 - 3, 0);
    let next = st.next_block;
    st.update(2000);
    // the square could fall no further: it locked and the next spawned
    assert!(st.grid.get(4, GRID_HEIGHT - 1).is_some());
    assert!(st.grid.get(5, GRID_HEIGHT - 2).is_some());
    assert_eq!(st.current_block.shape, next);
    assert_eq!(st.current_block.y, 0);
    assert_eq!(st.last_drop_time, 2000);
}

#[test]
fn keys_move_and_turn_the_piece() {
    let mut st = GameState::new(0);
    st.current_block = block(Tetromino::O, 3, 0, 0);
    assert!(!st.apply_key(KeyCode::Left));
    assert_eq!(st.current_block.x, 2);
    assert!(!st.apply_key(KeyCode::Right));
    assert_eq!(st.current_block.x, 3);
    assert!(!st.apply_key(KeyCode::Down));
    assert_eq!(st.current_block.y, 1);
    st.current_block = block(Tetromino::I, 3, 0, 0);
    assert!(!st.apply_key(KeyCode::Up));
    assert_eq!(st.current_block.rotation, 1);
    let before = st.current_block;
    assert!(!st.apply_key(KeyCode::A));
    assert_eq!(st.current_block, before);
}

#[test]
fn space_drops_the_piece_to_the_floor() {
    let mut st = GameState::new(0);
    st.current_block = block(Tetromino::O, 3, 0, 0);
    assert!(!st.apply_key(KeyCode::Space));
    // the square's lowest stencil row is 2, so it rests at y = 17
    assert_eq!(st.current_block.y, GRID_HEIGHT as i32 - 3);
    assert_eq!(st.current_block.x, 3);
}

#[test]
fn escape_asks_to_quit_and_changes_nothing() {
    let mut st = GameState::new(0);
    let before = st.current_block;
    assert!(st.apply_key(KeyCode::Escape));
    assert_eq!(st.current_block, before);
    assert!(!st.game_over);
}

#[test]
fn new_game_starts_empty_and_running() {
    let st = GameState::new(42);
    for y in 0..GRID_HEIGHT {
        for x in 0..GRID_WIDTH {
            assert!(st.grid.get(x, y).is_none());
        }
    }
    assert_eq!(st.score, 0);
    assert!(!st.game_over);
    assert_eq!(st.last_drop_time, 42);
    assert_eq!(st.drop_interval, 1000);
    assert_eq!(st.current_block.y, 0);
    assert_eq!(st.current_block.rotation, 0);
}
