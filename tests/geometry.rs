use rtetris::collision_checker::{direction_is_clear, position_is_clear};
use rtetris::game_state::{FIELD_HEIGHT, FIELD_WIDTH};
use rtetris::tetronimoe::{BlockType, Direction, Figure, Point};

fn empty_field() -> Vec<bool> {
    vec![false; (FIELD_WIDTH * FIELD_HEIGHT) as usize]
}

fn coords(f: &Figure) -> Vec<(isize, isize)> {
    f.get_tiles().iter().map(|p| (p.x, p.y)).collect()
}

fn set(field: &mut Vec<bool>, x: usize, y: usize) {
    field[x + y * FIELD_WIDTH as usize] = true;
}

#[test]
fn clockwise_cycle() {
    assert_eq!(Direction::next_cw(Direction::Up), Direction::Right);
    assert_eq!(Direction::next_cw(Direction::Right), Direction::Down);
    assert_eq!(Direction::next_cw(Direction::Down), Direction::Left);
    assert_eq!(Direction::next_cw(Direction::Left), Direction::Up);
}

#[test]
fn counter_clockwise_cycle() {
    assert_eq!(Direction::next_ccw(Direction::Up), Direction::Left);
    assert_eq!(Direction::next_ccw(Direction::Left), Direction::Down);
    assert_eq!(Direction::next_ccw(Direction::Down), Direction::Right);
    assert_eq!(Direction::next_ccw(Direction::Right), Direction::Up);
}

#[test]
fn square_ignores_facing() {
    let c = Point { x: 4, y: 7 };
    for d in [Direction::Up, Direction::Right, Direction::Down, Direction::Left] {
        let f = Figure::init(BlockType::Square, d, c);
        assert_eq!(coords(&f), vec![(4, 7), (4, 6), (5, 6), (5, 7)]);
    }
}

#[test]
fn line_piece_tiles() {
    let f = Figure::init(BlockType::LinePiece, Direction::Up, Point { x: 5, y: 2 });
    assert_eq!(coords(&f), vec![(5, 2), (5, 1), (5, 3), (5, 4)]);
    let f = Figure::init(BlockType::LinePiece, Direction::Right, Point { x: 5, y: 2 });
    assert_eq!(coords(&f), vec![(5, 2), (6, 2), (4, 2), (3, 2)]);
}

#[test]
fn l_block_and_t_block_tiles() {
    let f = Figure::init(BlockType::LBlock, Direction::Up, Point { x: 3, y: 3 });
    assert_eq!(coords(&f), vec![(3, 3), (4, 3), (3, 2), (3, 1)]);
    let f = Figure::init(BlockType::ReverseLBlock, Direction::Down, Point { x: 3, y: 3 });
    assert_eq!(coords(&f), vec![(3, 3), (4, 3), (3, 4), (3, 5)]);
    let f = Figure::init(BlockType::TBlock, Direction::Left, Point { x: 3, y: 3 });
    assert_eq!(coords(&f), vec![(3, 3), (3, 4), (3, 2), (2, 3)]);
}

#[test]
fn squiggle_tiles() {
    let f = Figure::init(BlockType::Squiggle, Direction::Up, Point { x: 5, y: 5 });
    assert_eq!(coords(&f), vec![(5, 5), (5, 6), (4, 4), (4, 5)]);
    let f = Figure::init(BlockType::ReverseSquiggle, Direction::Right, Point { x: 5, y: 5 });
    assert_eq!(coords(&f), vec![(5, 5), (6, 5), (5, 4), (4, 4)]);
}

#[test]
fn every_shape_keeps_pivot_first() {
    let kinds = [
        BlockType::Square,
        BlockType::Squiggle,
        BlockType::ReverseSquiggle,
        BlockType::LBlock,
        BlockType::ReverseLBlock,
        BlockType::TBlock,
        BlockType::LinePiece,
    ];
    for k in kinds {
        for d in [Direction::Up, Direction::Right, Direction::Down, Direction::Left] {
            let f = Figure::init(k, d, Point { x: 5, y: 5 });
            assert_eq!(f.tiles.len(), 4);
            assert_eq!((f.tiles[0].x, f.tiles[0].y), (5, 5));
        }
    }
}

#[test]
fn rotation_advances_facing_and_recomputes_tiles() {
    let mut f = Figure::init(BlockType::TBlock, Direction::Up, Point { x: 5, y: 5 });
    f.rotate_cw();
    assert_eq!(f.direction, Direction::Right);
    assert_eq!(coords(&f), vec![(5, 5), (5, 4), (5, 6), (6, 5)]);
    f.rotate_ccw();
    f.rotate_ccw();
    assert_eq!(f.direction, Direction::Left);
    assert_eq!(coords(&f), vec![(5, 5), (5, 6), (5, 4), (4, 5)]);
}

#[test]
fn shifts_move_pivot_and_tiles() {
    let mut f = Figure::init(BlockType::Square, Direction::Up, Point { x: 5, y: 5 });
    f.shift_left();
    assert_eq!(f.center, Point { x: 4, y: 5 });
    f.shift_right();
    f.shift_right();
    assert_eq!(f.center, Point { x: 6, y: 5 });
    f.shift_down();
    assert_eq!(f.center, Point { x: 6, y: 6 });
    assert_eq!(coords(&f), vec![(6, 6), (6, 5), (7, 5), (7, 6)]);
}

#[test]
fn start_position_is_middle_of_third_row() {
    assert_eq!(Figure::get_start_position(), Point { x: 5, y: 2 });
}

#[test]
fn roll_picks_type_modulo_seven() {
    let expected = [
        BlockType::Square,
        BlockType::Squiggle,
        BlockType::ReverseSquiggle,
        BlockType::LBlock,
        BlockType::ReverseLBlock,
        BlockType::TBlock,
        BlockType::LinePiece,
    ];
    for r in 0..14u32 {
        let f = Figure::init_from_roll(r);
        assert_eq!(f.block_type, expected[(r % 7) as usize]);
        assert_eq!(f.direction, Direction::Up);
        assert_eq!(f.center, Point { x: 5, y: 2 });
    }
    assert_eq!(Figure::init_from_roll(u32::MAX).block_type, BlockType::LBlock);
}

#[test]
fn random_figure_spawns_facing_up() {
    for _ in 0..20 {
        let f = Figure::init_random();
        assert_eq!(f.direction, Direction::Up);
        assert_eq!(f.center, Point { x: 5, y: 2 });
        assert_eq!(f.tiles.len(), 4);
    }
}

#[test]
fn direction_clear_in_open_field() {
    let field = empty_field();
    let f = Figure::init(BlockType::TBlock, Direction::Up, Point { x: 5, y: 5 });
    assert!(direction_is_clear(&f, Direction::Left, &field));
    assert!(direction_is_clear(&f, Direction::Right, &field));
    assert!(direction_is_clear(&f, Direction::Down, &field));
}

#[test]
fn direction_blocked_at_left_edge() {
    let field = empty_field();
    let f = Figure::init(BlockType::LinePiece, Direction::Up, Point { x: 0, y: 5 });
    assert!(!direction_is_clear(&f, Direction::Left, &field));
    assert!(direction_is_clear(&f, Direction::Right, &field));
}

#[test]
fn direction_blocked_at_right_edge() {
    let field = empty_field();
    let f = Figure::init(BlockType::LinePiece, Direction::Up, Point { x: 9, y: 5 });
    assert!(!direction_is_clear(&f, Direction::Right, &field));
    assert!(direction_is_clear(&f, Direction::Left, &field));
}

#[test]
fn direction_blocked_at_bottom_edge() {
    let field = empty_field();
    let f = Figure::init(BlockType::Square, Direction::Up, Point { x: 4, y: 21 });
    assert!(!direction_is_clear(&f, Direction::Down, &field));
    let g = Figure::init(BlockType::Square, Direction::Up, Point { x: 4, y: 20 });
    assert!(direction_is_clear(&g, Direction::Down, &field));
}

#[test]
fn direction_blocked_at_top_edge() {
    let field = empty_field();
    let f = Figure::init(BlockType::LinePiece, Direction::Up, Point { x: 4, y: 1 });
    assert!(!direction_is_clear(&f, Direction::Up, &field));
    assert!(direction_is_clear(&f, Direction::Down, &field));
}

#[test]
fn direction_blocked_by_occupied_cell() {
    let mut field = empty_field();
    set(&mut field, 6, 3);
    let f = Figure::init(BlockType::Square, Direction::Up, Point { x: 4, y: 3 });
    assert!(!direction_is_clear(&f, Direction::Right, &field));
    assert!(direction_is_clear(&f, Direction::Left, &field));
    assert!(direction_is_clear(&f, Direction::Down, &field));
}

#[test]
fn direction_false_when_tile_off_field() {
    let field = empty_field();
    let f = Figure::init(BlockType::LinePiece, Direction::Right, Point { x: 0, y: 5 });
    assert!(!direction_is_clear(&f, Direction::Right, &field));
    assert!(!direction_is_clear(&f, Direction::Down, &field));
}

#[test]
fn position_clear_detects_overlap() {
    let mut field = empty_field();
    let f = Figure::init(BlockType::TBlock, Direction::Up, Point { x: 5, y: 2 });
    assert!(position_is_clear(&f, &field));
    set(&mut field, 5, 1);
    assert!(!position_is_clear(&f, &field));
}
