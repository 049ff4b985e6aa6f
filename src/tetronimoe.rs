use vstd::prelude::*;
use crate::game_state::FIELD_WIDTH;

verus! {

/// A facing of a figure, or a movement direction for collision checks.
#[derive(Copy, Clone, Debug, PartialEq, Eq, Structural)]
pub enum Direction {
    Up,
    Down,
    Left,
    Right,
}

/// Clockwise successor: Up -> Right -> Down -> Left -> Up.
pub open spec fn cw_of(d: Direction) -> Direction {
    match d {
        Direction::Up => Direction::Right,
        Direction::Right => Direction::Down,
        Direction::Down => Direction::Left,
        Direction::Left => Direction::Up,
    }
}

/// Counter-clockwise successor: Up -> Left -> Down -> Right -> Up.
pub open spec fn ccw_of(d: Direction) -> Direction {
    match d {
        Direction::Up => Direction::Left,
        Direction::Right => Direction::Up,
        Direction::Down => Direction::Right,
        Direction::Left => Direction::Down,
    }
}

impl Direction {
    pub fn next_ccw(current: Direction) -> (r: Direction)
        ensures
            r == ccw_of(current),
            cw_of(r) == current,
    {
        match current {
            Direction::Up => Direction::Left,
            Direction::Right => Direction::Up,
            Direction::Down => Direction::Right,
            _ => Direction::Down,
        }
    }

    pub fn next_cw(current: Direction) -> (r: Direction)
        ensures
            r == cw_of(current),
            ccw_of(r) == current,
    {
        match current {
            Direction::Up => Direction::Right,
            Direction::Right => Direction::Down,
            Direction::Down => Direction::Left,
            _ => Direction::Up,
        }
    }
}

/// The seven piece shapes.
#[derive(Copy, Clone, Debug, PartialEq, Eq, Structural)]
pub enum BlockType {
    Square,
    Squiggle,
    ReverseSquiggle,
    LBlock,
    ReverseLBlock,
    TBlock,
    LinePiece,
}

/// A cell coordinate; `y` grows downward. Not bounds-checked by itself.
#[derive(Copy, Clone, Debug, PartialEq, Eq, Structural)]
pub struct Point {
    pub x: isize,
    pub y: isize,
}

/// A pivot far enough from the integer limits that every tile offset
/// (at most two cells in each axis) stays representable.
pub open spec fn coord_ok(c: Point) -> bool {
    &&& isize::MIN + 2 <= c.x <= isize::MAX - 2
    &&& isize::MIN + 2 <= c.y <= isize::MAX - 2
}

/// The point `o` cells away from `c`.
pub open spec fn offset_point(c: Point, o: (int, int)) -> Point {
    Point { x: (c.x + o.0) as isize, y: (c.y + o.1) as isize }
}

/// Square: the pivot is the lower left cell; the shape ignores the facing.
pub open spec fn square_offsets() -> Seq<(int, int)> {
    seq![(0, 0), (0, -1), (1, -1), (1, 0)]
}

/// Squiggle: the pivot is the right cell of the lower row.
pub open spec fn squiggle_offsets(d: Direction) -> Seq<(int, int)> {
    match d {
        Direction::Up => seq![(0, 0), (0, 1), (-1, -1), (-1, 0)],
        Direction::Right => seq![(0, 0), (-1, 0), (1, -1), (0, -1)],
        Direction::Down => seq![(0, 0), (0, -1), (1, 1), (1, 0)],
        Direction::Left => seq![(0, 0), (1, 0), (-1, 1), (0, 1)],
    }
}

/// Reverse squiggle: the pivot is the left cell of the lower row.
pub open spec fn reverse_squiggle_offsets(d: Direction) -> Seq<(int, int)> {
    match d {
        Direction::Up => seq![(0, 0), (0, 1), (1, 0), (1, -1)],
        Direction::Right => seq![(0, 0), (1, 0), (0, -1), (-1, -1)],
        Direction::Down => seq![(0, 0), (0, -1), (-1, 0), (-1, 1)],
        Direction::Left => seq![(0, 0), (-1, 0), (0, 1), (1, 1)],
    }
}

/// L block: the pivot is the corner joining the bar and the foot.
pub open spec fn l_block_offsets(d: Direction) -> Seq<(int, int)> {
    match d {
        Direction::Up => seq![(0, 0), (1, 0), (0, -1), (0, -2)],
        Direction::Right => seq![(0, 0), (0, 1), (1, 0), (2, 0)],
        Direction::Down => seq![(0, 0), (-1, 0), (0, 1), (0, 2)],
        Direction::Left => seq![(0, 0), (0, -1), (-1, 0), (-2, 0)],
    }
}

/// Reverse L block: the pivot is the corner joining the bar and the foot.
pub open spec fn reverse_l_block_offsets(d: Direction) -> Seq<(int, int)> {
    match d {
        Direction::Up => seq![(0, 0), (-1, 0), (0, -1), (0, -2)],
        Direction::Right => seq![(0, 0), (0, -1), (1, 0), (2, 0)],
        Direction::Down => seq![(0, 0), (1, 0), (0, 1), (0, 2)],
        Direction::Left => seq![(0, 0), (0, 1), (-1, 0), (-2, 0)],
    }
}

/// T block: the pivot is the middle cell of the bar.
pub open spec fn t_block_offsets(d: Direction) -> Seq<(int, int)> {
    match d {
        Direction::Up => seq![(0, 0), (-1, 0), (1, 0), (0, -1)],
        Direction::Right => seq![(0, 0), (0, -1), (0, 1), (1, 0)],
        Direction::Down => seq![(0, 0), (1, 0), (-1, 0), (0, 1)],
        Direction::Left => seq![(0, 0), (0, 1), (0, -1), (-1, 0)],
    }
}

/// Line piece: the pivot is the second cell from the bottom when upright.
pub open spec fn line_piece_offsets(d: Direction) -> Seq<(int, int)> {
    match d {
        Direction::Up => seq![(0, 0), (0, -1), (0, 1), (0, 2)],
        Direction::Right => seq![(0, 0), (1, 0), (-1, 0), (-2, 0)],
        Direction::Down => seq![(0, 0), (0, 1), (0, -1), (0, -2)],
        Direction::Left => seq![(0, 0), (-1, 0), (1, 0), (2, 0)],
    }
}

/// The four offsets, relative to the pivot, of a piece in a facing.
/// The first offset is always the pivot itself.
pub open spec fn shape_offsets(t: BlockType, d: Direction) -> Seq<(int, int)> {
    match t {
        BlockType::Square => square_offsets(),
        BlockType::Squiggle => squiggle_offsets(d),
        BlockType::ReverseSquiggle => reverse_squiggle_offsets(d),
        BlockType::LBlock => l_block_offsets(d),
        BlockType::ReverseLBlock => reverse_l_block_offsets(d),
        BlockType::TBlock => t_block_offsets(d),
        BlockType::LinePiece => line_piece_offsets(d),
    }
}

/// The cells covered by the given offsets around a pivot.
pub open spec fn place(offs: Seq<(int, int)>, c: Point) -> Seq<Point> {
    offs.map_values(|o: (int, int)| offset_point(c, o))
}

/// The cells covered by a piece of type `t` facing `d` with pivot `c`.
pub open spec fn tiles_of(t: BlockType, d: Direction, c: Point) -> Seq<Point> {
    place(shape_offsets(t, d), c)
}

/// Every offset moves at most two cells along each axis.
pub proof fn lemma_offsets_small(t: BlockType, d: Direction)
    ensures
        shape_offsets(t, d).len() == 4,
        shape_offsets(t, d)[0] == (0int, 0int),
        forall|i: int|
            0 <= i < 4 ==> -2 <= #[trigger] shape_offsets(t, d)[i].0 <= 2 && -2
                <= shape_offsets(t, d)[i].1 <= 2,
{
}

/// The point `(dx, dy)` cells away from `c`.
fn offset(c: Point, dx: isize, dy: isize) -> (r: Point)
    requires
        coord_ok(c),
        -2 <= dx <= 2,
        -2 <= dy <= 2,
    ensures
        r == offset_point(c, (dx as int, dy as int)),
{
    Point { x: c.x + dx, y: c.y + dy }
}

/// The pivot at which every new figure appears: (width / 2, 2).
pub open spec fn spawn_point() -> Point {
    Point { x: (FIELD_WIDTH / 2) as isize, y: 2 }
}

/// The piece type picked by a random draw: the draw modulo seven, in the
/// order Square, Squiggle, ReverseSquiggle, LBlock, ReverseLBlock, TBlock,
/// LinePiece.
pub open spec fn block_type_of_roll(roll: u32) -> BlockType {
    let k = roll % 7;
    if k == 0 {
        BlockType::Square
    } else if k == 1 {
        BlockType::Squiggle
    } else if k == 2 {
        BlockType::ReverseSquiggle
    } else if k == 3 {
        BlockType::LBlock
    } else if k == 4 {
        BlockType::ReverseLBlock
    } else if k == 5 {
        BlockType::TBlock
    } else {
        BlockType::LinePiece
    }
}

/// Relies on rand::random, drawing from the thread-local generator; nothing
/// is assumed of the value drawn.
pub assume_specification<T>[ rand::random::<T> ]() -> (r: T)
    where
        rand::distributions::Standard: rand::distributions::Distribution<T>,
;

/// A falling piece. `tiles` is always derived from the type, facing and pivot.
#[derive(Clone, Debug)]
pub struct Figure {
    pub block_type: BlockType,
    pub direction: Direction,
    /// Center of rotation; one of the four tiles (see the offset tables).
    pub center: Point,
    pub tiles: Vec<Point>,
}

impl Figure {
    /// The tiles match the generator and the pivot is representable.
    pub open spec fn wf(&self) -> bool {
        &&& coord_ok(self.center)
        &&& self.tiles@ == tiles_of(self.block_type, self.direction, self.center)
    }

    /// The same piece with another facing and pivot.
    pub open spec fn moved(&self, d: Direction, c: Point) -> bool {
        &&& coord_ok(c)
        &&& self.direction == d
        &&& self.center == c
        &&& self.tiles@ == tiles_of(self.block_type, d, c)
    }

    pub fn init(block_type: BlockType, direction: Direction, center: Point) -> (r: Figure)
        requires
            coord_ok(center),
        ensures
            r.wf(),
            r.block_type == block_type,
            r.direction == direction,
            r.center == center,
    {
        let tiles = calculate_tiles_position(&block_type, &direction, center);
        Figure { block_type, direction, center, tiles }
    }

    /// A figure at the spawn point, facing up, whose type is picked by `roll`.
    pub fn init_from_roll(roll: u32) -> (r: Figure)
        ensures
            r.wf(),
            r.block_type == block_type_of_roll(roll),
            r.direction == Direction::Up,
            r.center == spawn_point(),
    {
        let k = roll % 7;
        let block_type = if k == 0 {
            BlockType::Square
        } else if k == 1 {
            BlockType::Squiggle
        } else if k == 2 {
            BlockType::ReverseSquiggle
        } else if k == 3 {
            BlockType::LBlock
        } else if k == 4 {
            BlockType::ReverseLBlock
        } else if k == 5 {
            BlockType::TBlock
        } else {
            BlockType::LinePiece
        };
        Figure::init(block_type, Direction::Up, Figure::get_start_position())
    }

    /// A figure of a uniformly random type at the spawn point, facing up.
    pub fn init_random() -> (r: Figure)
        ensures
            r.wf(),
            r.direction == Direction::Up,
            r.center == spawn_point(),
    {
        let roll: u32 = rand::random::<u32>();
        Figure::init_from_roll(roll)
    }

    /// Rotation is not SRS: the facing advances and the tiles are looked up again.
    pub fn rotate_cw(&mut self)
        requires
            old(self).wf(),
        ensures
            final(self).wf(),
            final(self).block_type == old(self).block_type,
            final(self).moved(cw_of(old(self).direction), old(self).center),
    {
        self.direction = Direction::next_cw(self.direction);
        self.tiles = calculate_tiles_position(&self.block_type, &self.direction, self.center);
    }

    pub fn rotate_ccw(&mut self)
        requires
            old(self).wf(),
        ensures
            final(self).wf(),
            final(self).block_type == old(self).block_type,
            final(self).moved(ccw_of(old(self).direction), old(self).center),
    {
        self.direction = Direction::next_ccw(self.direction);
        self.tiles = calculate_tiles_position(&self.block_type, &self.direction, self.center);
    }

    pub fn get_tiles(&self) -> (r: Vec<Point>)
        ensures
            r@ == self.tiles@,
    {
        self.tiles.clone()
    }

    pub fn shift_right(&mut self)
        requires
            old(self).wf(),
            old(self).center.x < isize::MAX - 2,
        ensures
            final(self).wf(),
            final(self).block_type == old(self).block_type,
            final(self).moved(
                old(self).direction,
                Point { x: (old(self).center.x + 1) as isize, y: old(self).center.y },
            ),
    {
        self.center.x = self.center.x + 1;
        self.tiles = calculate_tiles_position(&self.block_type, &self.direction, self.center);
    }

    pub fn shift_left(&mut self)
        requires
            old(self).wf(),
            old(self).center.x > isize::MIN + 2,
        ensures
            final(self).wf(),
            final(self).block_type == old(self).block_type,
            final(self).moved(
                old(self).direction,
                Point { x: (old(self).center.x - 1) as isize, y: old(self).center.y },
            ),
    {
        self.center.x = self.center.x - 1;
        self.tiles = calculate_tiles_position(&self.block_type, &self.direction, self.center);
    }

    pub fn shift_down(&mut self)
        requires
            old(self).wf(),
            old(self).center.y < isize::MAX - 2,
        ensures
            final(self).wf(),
            final(self).block_type == old(self).block_type,
            final(self).moved(
                old(self).direction,
                Point { x: old(self).center.x, y: (old(self).center.y + 1) as isize },
            ),
    {
        self.center.y = self.center.y + 1;
        self.tiles = calculate_tiles_position(&self.block_type, &self.direction, self.center);
    }

    pub fn get_start_position() -> (r: Point)
        ensures
            r == spawn_point(),
    {
        Point { x: (FIELD_WIDTH / 2) as isize, y: 2 }
    }
}

/// Generates the tiles of a piece: a total function of type, facing and pivot.
fn calculate_tiles_position(block_type: &BlockType, direction: &Direction, center: Point) -> (r:
    Vec<Point>)
    requires
        coord_ok(center),
    ensures
        r@ == tiles_of(*block_type, *direction, center),
{
    match block_type {
        BlockType::Square => {
            let r = vec![center, offset(center, 0, -1), offset(center, 1, -1), offset(center, 1, 0)];
            assert(r@ =~= place(square_offsets(), center));
            r
        },
        BlockType::Squiggle => get_squiggle_tiles(direction, center),
        BlockType::ReverseSquiggle => get_reverse_squiggle_tiles(direction, center),
        BlockType::LBlock => get_l_block_tiles(direction, center),
        BlockType::ReverseLBlock => get_reverse_l_block_tiles(direction, center),
        BlockType::TBlock => get_t_block_tiles(direction, center),
        BlockType::LinePiece => get_line_piece_tiles(direction, center),
    }
}

fn get_squiggle_tiles(direction: &Direction, center: Point) -> (r: Vec<Point>)
    requires
        coord_ok(center),
    ensures
        r@ == place(squiggle_offsets(*direction), center),
{
    let r = match direction {
        Direction::Up => vec![center, offset(center, 0, 1), offset(center, -1, -1), offset(center, -1, 0)],
        Direction::Right => vec![center, offset(center, -1, 0), offset(center, 1, -1), offset(center, 0, -1)],
        Direction::Down => vec![center, offset(center, 0, -1), offset(center, 1, 1), offset(center, 1, 0)],
        Direction::Left => vec![center, offset(center, 1, 0), offset(center, -1, 1), offset(center, 0, 1)],
    };
    assert(r@ =~= place(squiggle_offsets(*direction), center));
    r
}

fn get_reverse_squiggle_tiles(direction: &Direction, center: Point) -> (r: Vec<Point>)
    requires
        coord_ok(center),
    ensures
        r@ == place(reverse_squiggle_offsets(*direction), center),
{
    let r = match direction {
        Direction::Up => vec![center, offset(center, 0, 1), offset(center, 1, 0), offset(center, 1, -1)],
        Direction::Right => vec![center, offset(center, 1, 0), offset(center, 0, -1), offset(center, -1, -1)],
        Direction::Down => vec![center, offset(center, 0, -1), offset(center, -1, 0), offset(center, -1, 1)],
        Direction::Left => vec![center, offset(center, -1, 0), offset(center, 0, 1), offset(center, 1, 1)],
    };
    assert(r@ =~= place(reverse_squiggle_offsets(*direction), center));
    r
}

fn get_l_block_tiles(direction: &Direction, center: Point) -> (r: Vec<Point>)
    requires
        coord_ok(center),
    ensures
        r@ == place(l_block_offsets(*direction), center),
{
    let r = match direction {
        Direction::Up => vec![center, offset(center, 1, 0), offset(center, 0, -1), offset(center, 0, -2)],
        Direction::Right => vec![center, offset(center, 0, 1), offset(center, 1, 0), offset(center, 2, 0)],
        Direction::Down => vec![center, offset(center, -1, 0), offset(center, 0, 1), offset(center, 0, 2)],
        Direction::Left => vec![center, offset(center, 0, -1), offset(center, -1, 0), offset(center, -2, 0)],
    };
    assert(r@ =~= place(l_block_offsets(*direction), center));
    r
}

fn get_reverse_l_block_tiles(direction: &Direction, center: Point) -> (r: Vec<Point>)
    requires
        coord_ok(center),
    ensures
        r@ == place(reverse_l_block_offsets(*direction), center),
{
    let r = match direction {
        Direction::Up => vec![center, offset(center, -1, 0), offset(center, 0, -1), offset(center, 0, -2)],
        Direction::Right => vec![center, offset(center, 0, -1), offset(center, 1, 0), offset(center, 2, 0)],
        Direction::Down => vec![center, offset(center, 1, 0), offset(center, 0, 1), offset(center, 0, 2)],
        Direction::Left => vec![center, offset(center, 0, 1), offset(center, -1, 0), offset(center, -2, 0)],
    };
    assert(r@ =~= place(reverse_l_block_offsets(*direction), center));
    r
}

fn get_t_block_tiles(direction: &Direction, center: Point) -> (r: Vec<Point>)
    requires
        coord_ok(center),
    ensures
        r@ == place(t_block_offsets(*direction), center),
{
    let r = match direction {
        Direction::Up => vec![center, offset(center, -1, 0), offset(center, 1, 0), offset(center, 0, -1)],
        Direction::Right => vec![center, offset(center, 0, -1), offset(center, 0, 1), offset(center, 1, 0)],
        Direction::Down => vec![center, offset(center, 1, 0), offset(center, -1, 0), offset(center, 0, 1)],
        Direction::Left => vec![center, offset(center, 0, 1), offset(center, 0, -1), offset(center, -1, 0)],
    };
    assert(r@ =~= place(t_block_offsets(*direction), center));
    r
}

fn get_line_piece_tiles(direction: &Direction, center: Point) -> (r: Vec<Point>)
    requires
        coord_ok(center),
    ensures
        r@ == place(line_piece_offsets(*direction), center),
{
    let r = match direction {
        Direction::Up => vec![center, offset(center, 0, -1), offset(center, 0, 1), offset(center, 0, 2)],
        Direction::Right => vec![center, offset(center, 1, 0), offset(center, -1, 0), offset(center, -2, 0)],
        Direction::Down => vec![center, offset(center, 0, 1), offset(center, 0, -1), offset(center, 0, -2)],
        Direction::Left => vec![center, offset(center, -1, 0), offset(center, 1, 0), offset(center, 2, 0)],
    };
    assert(r@ =~= place(line_piece_offsets(*direction), center));
    r
}

} // verus!
