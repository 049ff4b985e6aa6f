use vstd::prelude::*;
use crate::tetronimoe::{Figure, Direction, Point};
use crate::game_state::{FIELD_WIDTH, FIELD_HEIGHT};

verus! {

/// Number of cells of the field.
pub open spec fn field_len() -> int {
    FIELD_WIDTH * FIELD_HEIGHT
}

/// The cell (x, y) lies on the field.
pub open spec fn in_field(x: int, y: int) -> bool {
    0 <= x < FIELD_WIDTH && 0 <= y < FIELD_HEIGHT
}

/// Row-major index of a cell: x + y * width.
pub open spec fn cell_index(x: int, y: int) -> int {
    x + y * FIELD_WIDTH
}

/// The cell (x, y) of a row-major field is occupied.
pub open spec fn occupied(f: Seq<bool>, x: int, y: int) -> bool {
    f[cell_index(x, y)]
}

/// The step a direction makes: Left x-1, Right x+1, Down y+1, Up y-1.
pub open spec fn step(d: Direction) -> (int, int) {
    match d {
        Direction::Left => (-1, 0),
        Direction::Right => (1, 0),
        Direction::Down => (0, 1),
        Direction::Up => (0, -1),
    }
}

/// The neighbor of `p` in direction `d` is on the field and empty.
pub open spec fn neighbor_free(f: Seq<bool>, p: Point, d: Direction) -> bool {
    let nx = p.x + step(d).0;
    let ny = p.y + step(d).1;
    in_field(nx, ny) && !occupied(f, nx, ny)
}

/// Every tile can move one cell in direction `d`.
pub open spec fn direction_clear(tiles: Seq<Point>, d: Direction, f: Seq<bool>) -> bool {
    forall|i: int| 0 <= i < tiles.len() ==> #[trigger] neighbor_free(f, tiles[i], d)
}

/// Every tile lies on the field.
pub open spec fn tiles_in_field(tiles: Seq<Point>) -> bool {
    forall|i: int| 0 <= i < tiles.len() ==> #[trigger] in_field(tiles[i].x as int, tiles[i].y as int)
}

/// No tile covers an occupied cell.
pub open spec fn position_clear(tiles: Seq<Point>, f: Seq<bool>) -> bool {
    forall|i: int| 0 <= i < tiles.len() ==> !#[trigger] occupied(f, tiles[i].x as int, tiles[i].y as int)
}

/// Index of the neighbor of `p` in direction `d`, if that neighbor is on the field.
fn neighbor_index(p: Point, d: Direction) -> (r: Option<usize>)
    ensures
        r.is_some() <==> in_field(p.x + step(d).0, p.y + step(d).1),
        r.is_some() ==> r.unwrap() as int == cell_index(p.x + step(d).0, p.y + step(d).1),
{
    let w = FIELD_WIDTH as isize;
    let h = FIELD_HEIGHT as isize;
    if p.x < -1 || p.x > w || p.y < -1 || p.y > h {
        return Option::None;
    }
    let (nx, ny) = match d {
        Direction::Left => (p.x - 1, p.y),
        Direction::Right => (p.x + 1, p.y),
        Direction::Down => (p.x, p.y + 1),
        Direction::Up => (p.x, p.y - 1),
    };
    if 0 <= nx && nx < w && 0 <= ny && ny < h {
        Option::Some((nx + ny * w) as usize)
    } else {
        Option::None
    }
}

/// Whether every tile of `figure` can move one cell in `direction`: false as
/// soon as a neighbor cell is off the field or occupied.
pub fn direction_is_clear(figure: &Figure, direction: Direction, field: &Vec<bool>) -> (r: bool)
    requires
        field@.len() == field_len(),
    ensures
        r == direction_clear(figure.tiles@, direction, field@),
{
    let mut i: usize = 0;
    while i < figure.tiles.len()
        invariant
            field@.len() == field_len(),
            i <= figure.tiles@.len(),
            forall|j: int| 0 <= j < i ==> #[trigger] neighbor_free(field@, figure.tiles@[j], direction),
        decreases figure.tiles@.len() - i,
    {
        let point = figure.tiles[i];
        match neighbor_index(point, direction) {
            Option::None => {
                assert(!neighbor_free(field@, figure.tiles@[i as int], direction));
                return false;
            },
            Option::Some(idx) => {
                if field[idx] {
                    assert(!neighbor_free(field@, figure.tiles@[i as int], direction));
                    return false;
                }
            },
        }
        i = i + 1;
    }
    true
}

/// Whether no tile of `figure` covers an occupied cell. The tiles must lie on
/// the field.
pub fn position_is_clear(figure: &Figure, field: &Vec<bool>) -> (r: bool)
    requires
        field@.len() == field_len(),
        tiles_in_field(figure.tiles@),
    ensures
        r == position_clear(figure.tiles@, field@),
{
    let mut i: usize = 0;
    while i < figure.tiles.len()
        invariant
            field@.len() == field_len(),
            tiles_in_field(figure.tiles@),
            i <= figure.tiles@.len(),
            forall|j: int|
                0 <= j < i ==> !#[trigger] occupied(field@, figure.tiles@[j].x as int, figure.tiles@[j].y as int),
        decreases figure.tiles@.len() - i,
    {
        let point = figure.tiles[i];
        assert(in_field(point.x as int, point.y as int));
        let w = FIELD_WIDTH as isize;
        assert(0 <= point.y < FIELD_HEIGHT);
        let idx = (point.x + point.y * w) as usize;
        if field[idx] {
            assert(occupied(field@, figure.tiles@[i as int].x as int, figure.tiles@[i as int].y as int));
            return false;
        }
        i = i + 1;
    }
    true
}

} // verus!
