use rtetris::game_state::{
    CommandError, GameState, FIELD_HEIGHT, FIELD_WIDTH, HARD_DROP_INTERVAL,
    LEVEL_ONE_DROP_INTERVAL, SOFT_DROP_INTERVAL,
};
use rtetris::tetronimoe::{BlockType, Direction, Figure, Point};

const W: usize = FIELD_WIDTH as usize;
const H: usize = FIELD_HEIGHT as usize;

fn empty_field() -> Vec<bool> {
    vec![false; W * H]
}

fn fill_row(field: &mut Vec<bool>, y: usize) {
    for x in 0..W {
        field[x + y * W] = true;
    }
}

fn occupied_count(field: &[bool]) -> usize {
    field.iter().filter(|b| **b).count()
}

/// A fresh game whose current figure is a square and next is a line piece.
fn fresh() -> GameState {
    GameState::init_with_rolls(0, 6)
}

#[test]
fn new_game_starts_empty() {
    let s = fresh();
    assert!(!s.is_paused);
    assert_eq!(s.current_score, 0);
    assert_eq!(s.best_score, 0);
    assert_eq!(s.level, 1);
    assert_eq!(s.progress_to_next_level, 0);
    assert_eq!(occupied_count(&s.get_field_as_array()), 0);
    assert_eq!(s.get_field_as_array().len(), W * H);
    assert_eq!(s.current_figure.block_type, BlockType::Square);
    assert_eq!(s.next_figure.block_type, BlockType::LinePiece);
    assert_eq!(s.current_figure.center, Point { x: 5, y: 2 });
    assert_eq!(s.drop_interval, LEVEL_ONE_DROP_INTERVAL);
    assert_eq!(s.next_gravity_tick, 60);
}

#[test]
fn random_game_starts_fresh() {
    let s = GameState::init();
    assert_eq!(s.level, 1);
    assert_eq!(s.current_figure.center, Point { x: 5, y: 2 });
    assert_eq!(s.next_figure.direction, Direction::Up);
    assert!(!s.game_is_finished());
}

#[test]
fn count_filled_lines_counts_full_rows_only() {
    let mut s = fresh();
    let mut field = empty_field();
    fill_row(&mut field, 21);
    fill_row(&mut field, 19);
    for x in 0..W - 1 {
        field[x + 20 * W] = true;
    }
    s.store_field_from_array(field);
    assert_eq!(s.count_filled_lines(), 2);
}

#[test]
fn count_filled_lines_on_full_and_empty_field() {
    let mut s = fresh();
    assert_eq!(s.count_filled_lines(), 0);
    s.store_field_from_array(vec![true; W * H]);
    assert_eq!(s.count_filled_lines(), 22);
}

#[test]
fn clearing_a_row_shifts_rows_above_down() {
    let mut s = fresh();
    let mut field = empty_field();
    field[0] = true;
    field[3 + 5 * W] = true;
    fill_row(&mut field, 6);
    field[7 + 10 * W] = true;
    s.store_field_from_array(field.clone());
    s.clear_filled_lines();
    let after = s.get_field_as_array();
    assert_eq!(occupied_count(&after), occupied_count(&field) - W);
    for x in 0..W {
        assert!(!after[x]);
    }
    assert!(after[W]);
    assert!(after[3 + 6 * W]);
    assert!(after[7 + 10 * W]);
    assert_eq!(occupied_count(&after), 3);
}

#[test]
fn clearing_two_rows_collapses_both() {
    let mut s = fresh();
    let mut field = empty_field();
    fill_row(&mut field, 21);
    fill_row(&mut field, 19);
    field[2 + 20 * W] = true;
    field[4 + 18 * W] = true;
    s.store_field_from_array(field);
    s.clear_filled_lines();
    let after = s.get_field_as_array();
    assert_eq!(occupied_count(&after), 2);
    assert!(after[2 + 21 * W]);
    assert!(after[4 + 20 * W]);
}

#[test]
fn clearing_leaves_field_without_full_rows_unchanged() {
    let mut s = fresh();
    let mut field = empty_field();
    field[1 + 3 * W] = true;
    field[9 + 21 * W] = true;
    s.store_field_from_array(field.clone());
    s.clear_filled_lines();
    assert_eq!(s.get_field_as_array(), field);
}

#[test]
fn field_round_trip() {
    let mut s = fresh();
    let mut field = empty_field();
    for i in (0..W * H).step_by(7) {
        field[i] = true;
    }
    s.store_field_from_array(field.clone());
    assert_eq!(s.get_field_as_array(), field);
}

#[test]
fn rotate_then_rotate_back_restores_figure() {
    let mut s = fresh();
    s.current_figure = Figure::init(BlockType::TBlock, Direction::Up, Point { x: 5, y: 8 });
    s.rotate_clockwise();
    assert_eq!(s.current_figure.direction, Direction::Right);
    s.rotate_counter_clockwise();
    assert_eq!(s.current_figure.direction, Direction::Up);
    assert_eq!(s.current_figure.center, Point { x: 5, y: 8 });
    s.rotate_counter_clockwise();
    s.rotate_clockwise();
    assert_eq!(s.current_figure.direction, Direction::Up);
    assert_eq!(s.current_figure.center, Point { x: 5, y: 8 });
}

#[test]
fn rotation_rejected_above_top() {
    let mut s = fresh();
    s.current_figure = Figure::init(BlockType::LinePiece, Direction::Right, Point { x: 5, y: 0 });
    s.rotate_clockwise();
    assert_eq!(s.current_figure.direction, Direction::Right);
    assert_eq!(s.current_figure.center, Point { x: 5, y: 0 });
}

#[test]
fn rotation_two_cells_past_left_edge_is_rejected() {
    let mut s = fresh();
    s.current_figure = Figure::init(BlockType::LinePiece, Direction::Up, Point { x: 0, y: 5 });
    s.rotate_clockwise();
    assert_eq!(s.current_figure.direction, Direction::Up);
    assert_eq!(s.current_figure.center, Point { x: 0, y: 5 });
}

#[test]
fn rotation_one_cell_past_left_edge_shifts_right() {
    let mut s = fresh();
    s.current_figure = Figure::init(BlockType::LinePiece, Direction::Up, Point { x: 1, y: 5 });
    s.rotate_clockwise();
    assert_eq!(s.current_figure.direction, Direction::Right);
    assert_eq!(s.current_figure.center, Point { x: 2, y: 5 });
}

#[test]
fn rotation_left_correction_blocked_by_occupied_cell() {
    let mut s = fresh();
    let mut field = empty_field();
    field[3 + 5 * W] = true;
    s.store_field_from_array(field);
    s.current_figure = Figure::init(BlockType::LinePiece, Direction::Up, Point { x: 1, y: 5 });
    s.rotate_clockwise();
    assert_eq!(s.current_figure.direction, Direction::Up);
    assert_eq!(s.current_figure.center, Point { x: 1, y: 5 });
}

#[test]
fn rotation_one_cell_past_right_edge_shifts_left() {
    let mut s = fresh();
    s.current_figure = Figure::init(BlockType::LinePiece, Direction::Up, Point { x: 8, y: 5 });
    s.rotate_counter_clockwise();
    assert_eq!(s.current_figure.direction, Direction::Left);
    assert_eq!(s.current_figure.center, Point { x: 7, y: 5 });
}

#[test]
fn rotation_two_cells_past_right_edge_is_rejected() {
    let mut s = fresh();
    s.current_figure = Figure::init(BlockType::LinePiece, Direction::Up, Point { x: 9, y: 5 });
    s.rotate_counter_clockwise();
    assert_eq!(s.current_figure.direction, Direction::Up);
    assert_eq!(s.current_figure.center, Point { x: 9, y: 5 });
}

#[test]
fn shifts_respect_walls_and_blocks() {
    let mut s = fresh();
    s.current_figure = Figure::init(BlockType::Square, Direction::Up, Point { x: 0, y: 5 });
    s.left_shift();
    assert_eq!(s.current_figure.center, Point { x: 0, y: 5 });
    s.right_shift();
    assert_eq!(s.current_figure.center, Point { x: 1, y: 5 });
    let mut field = empty_field();
    field[3 + 5 * W] = true;
    s.store_field_from_array(field);
    s.right_shift();
    assert_eq!(s.current_figure.center, Point { x: 1, y: 5 });
}

#[test]
fn score_for_each_line_count() {
    let bases = [0u64, 40, 100, 300, 1200, 1200];
    for level in [1u32, 3] {
        for (lines, base) in bases.iter().enumerate() {
            let mut s = fresh();
            s.level = level;
            let mut field = empty_field();
            for k in 0..lines {
                fill_row(&mut field, H - 1 - k);
            }
            s.store_field_from_array(field);
            s.update_with_roll(0);
            assert_eq!(s.current_score, base * (level as u64 + 1));
        }
    }
}

#[test]
fn level_promotion_example() {
    let mut s = fresh();
    s.level = 1;
    s.progress_to_next_level = 3;
    let mut field = empty_field();
    fill_row(&mut field, 21);
    fill_row(&mut field, 20);
    s.store_field_from_array(field);
    s.update_with_roll(0);
    assert_eq!(s.level, 2);
    assert_eq!(s.progress_to_next_level, 0);
    assert_eq!(s.current_score, 200);
}

#[test]
fn at_most_one_promotion_per_tick() {
    let mut s = fresh();
    s.progress_to_next_level = 4;
    let mut field = empty_field();
    for y in 10..22 {
        fill_row(&mut field, y);
    }
    s.store_field_from_array(field);
    s.update_with_roll(0);
    assert_eq!(s.level, 2);
    assert_eq!(s.progress_to_next_level, 11);
}

#[test]
fn game_finished_needs_overlap_and_spawn_pivot() {
    let mut s = fresh();
    assert!(!s.game_is_finished());
    let mut field = empty_field();
    field[5 + 2 * W] = true;
    s.store_field_from_array(field);
    assert!(s.game_is_finished());
    s.current_figure.shift_down();
    assert!(s.current_figure.tiles.iter().any(|p| p.x == 5 && p.y == 2));
    assert!(!s.game_is_finished());
}

#[test]
fn paused_tick_changes_nothing() {
    let mut s = fresh();
    s.pause();
    assert!(s.is_paused);
    s.update_with_roll(3);
    assert_eq!(s.next_gravity_tick, 60);
    assert_eq!(s.current_figure.center, Point { x: 5, y: 2 });
    s.pause();
    assert!(!s.is_paused);
    s.update_with_roll(3);
    assert_eq!(s.next_gravity_tick, 59);
}

#[test]
fn hard_drop_moves_every_tick() {
    let mut s = fresh();
    s.set_hard_drop_gravity();
    assert_eq!(s.drop_interval, HARD_DROP_INTERVAL);
    assert_eq!(s.next_gravity_tick, 0);
    s.update_with_roll(0);
    assert_eq!(s.current_figure.center, Point { x: 5, y: 3 });
    s.update_with_roll(0);
    assert_eq!(s.current_figure.center, Point { x: 5, y: 4 });
    s.reset_gravity(LEVEL_ONE_DROP_INTERVAL);
    assert_eq!(s.drop_interval, 60);
    assert_eq!(s.next_gravity_tick, 60);
}

#[test]
fn soft_drop_waits_between_moves() {
    let mut s = fresh();
    s.set_soft_drop_gravity();
    assert_eq!(s.drop_interval, SOFT_DROP_INTERVAL);
    s.update_with_roll(0);
    assert_eq!(s.current_figure.center, Point { x: 5, y: 3 });
    assert_eq!(s.next_gravity_tick, 3);
    for _ in 0..3 {
        s.update_with_roll(0);
    }
    assert_eq!(s.current_figure.center, Point { x: 5, y: 3 });
    s.update_with_roll(0);
    assert_eq!(s.current_figure.center, Point { x: 5, y: 4 });
}

#[test]
fn landed_figure_locks_and_next_takes_over() {
    let mut s = fresh();
    s.current_figure = Figure::init(BlockType::Square, Direction::Up, Point { x: 0, y: 21 });
    s.update_with_roll(5);
    let field = s.get_field_as_array();
    assert!(field[0 + 21 * W]);
    assert!(field[1 + 21 * W]);
    assert!(field[0 + 20 * W]);
    assert!(field[1 + 20 * W]);
    assert_eq!(occupied_count(&field), 4);
    assert_eq!(s.current_figure.block_type, BlockType::LinePiece);
    assert_eq!(s.current_figure.center, Point { x: 5, y: 2 });
    assert_eq!(s.next_figure.block_type, BlockType::TBlock);
}

#[test]
fn locking_completes_and_clears_a_row() {
    let mut s = fresh();
    let mut field = empty_field();
    for x in 2..W {
        field[x + 21 * W] = true;
    }
    s.store_field_from_array(field);
    s.current_figure = Figure::init(BlockType::Square, Direction::Up, Point { x: 0, y: 21 });
    s.update_with_roll(0);
    let after = s.get_field_as_array();
    assert_eq!(occupied_count(&after), 2);
    assert!(after[0 + 21 * W]);
    assert!(after[1 + 21 * W]);
    assert_eq!(s.current_score, 80);
    assert_eq!(s.progress_to_next_level, 1);
}

#[test]
fn restart_keeps_best_score() {
    let mut s = fresh();
    s.current_score = 500;
    s.best_score = 200;
    s.level = 4;
    s.restart_with_rolls(1, 2);
    assert_eq!(s.best_score, 500);
    assert_eq!(s.current_score, 0);
    assert_eq!(s.level, 1);
    assert_eq!(s.current_figure.block_type, BlockType::Squiggle);
    assert_eq!(s.next_figure.block_type, BlockType::ReverseSquiggle);
    s.current_score = 100;
    s.restart();
    assert_eq!(s.best_score, 500);
    assert_eq!(occupied_count(&s.get_field_as_array()), 0);
}

#[test]
fn hold_is_unsupported() {
    let s = fresh();
    assert_eq!(s.hold(), Err(CommandError::Unsupported));
}

#[test]
fn update_can_advance_on_fresh_game() {
    let mut s = fresh();
    assert!(s.can_advance());
    s.update();
    assert_eq!(s.next_gravity_tick, 59);
    s.current_score = u64::MAX - 100;
    assert!(!s.can_advance());
}
