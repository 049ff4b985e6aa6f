use vstd::prelude::*;
use crate::collision_checker::{
    field_len, in_field, cell_index, direction_clear, position_clear, tiles_in_field,
    direction_is_clear, position_is_clear,
};
use crate::tetronimoe::{
    Point, Figure, Direction, BlockType, tiles_of, spawn_point, block_type_of_roll, coord_ok,
    lemma_offsets_small, cw_of, ccw_of,
};

verus! {

/// Number of columns of the field.
pub const FIELD_WIDTH: u32 = 10;

/// Number of rows of the field.
pub const FIELD_HEIGHT: u32 = 22;

/// Row `y` of the field has all of its cells occupied.
pub open spec fn row_full(f: Seq<bool>, y: int) -> bool {
    forall|x: int| 0 <= x < FIELD_WIDTH ==> #[trigger] f[x + y * FIELD_WIDTH]
}

/// Number of full rows among rows `0 .. n`.
pub open spec fn full_rows(f: Seq<bool>, n: int) -> int
    decreases n,
{
    if n <= 0 {
        0
    } else {
        full_rows(f, n - 1) + if row_full(f, n - 1) { 1int } else { 0int }
    }
}

/// The field after removing row `i`: rows `0 .. i` each move down by one,
/// row 0 becomes empty and rows below `i` stay.
pub open spec fn collapse_row(f: Seq<bool>, i: int) -> Seq<bool> {
    Seq::new(
        f.len(),
        |k: int|
            if k >= (i + 1) * FIELD_WIDTH {
                f[k]
            } else if k < FIELD_WIDTH {
                false
            } else {
                f[k - FIELD_WIDTH]
            },
    )
}

/// Clearing scans rows from `i` to the bottom, removing each row that is
/// full when the scan reaches it.
pub open spec fn clear_from(f: Seq<bool>, i: int) -> Seq<bool>
    decreases FIELD_HEIGHT - i,
{
    if i >= FIELD_HEIGHT {
        f
    } else if row_full(f, i) {
        clear_from(collapse_row(f, i), i + 1)
    } else {
        clear_from(f, i + 1)
    }
}

/// The field after all full rows are cleared, scanning from the top row.
pub open spec fn cleared_field(f: Seq<bool>) -> Seq<bool> {
    clear_from(f, 0)
}

/// Whether row `row` of `field` is full.
fn line_is_full(field: &Vec<bool>, row: u32) -> (r: bool)
    requires
        field@.len() == field_len(),
        row < FIELD_HEIGHT,
    ensures
        r == row_full(field@, row as int),
{
    let mut j: u32 = 0;
    while j < FIELD_WIDTH
        invariant
            field@.len() == field_len(),
            row < FIELD_HEIGHT,
            j <= FIELD_WIDTH,
            forall|x: int| 0 <= x < j ==> #[trigger] field@[x + row * FIELD_WIDTH],
        decreases FIELD_WIDTH - j,
    {
        if !field[(j + row * FIELD_WIDTH) as usize] {
            return false;
        }
        j = j + 1;
    }
    true
}

/// Counts the full rows of a row-major field.
fn count_full_rows(field: &Vec<bool>) -> (r: u32)
    requires
        field@.len() == field_len(),
    ensures
        r == full_rows(field@, FIELD_HEIGHT as int),
        r <= FIELD_HEIGHT,
{
    let mut result: u32 = 0;
    let mut i: u32 = 0;
    while i < FIELD_HEIGHT
        invariant
            field@.len() == field_len(),
            i <= FIELD_HEIGHT,
            result == full_rows(field@, i as int),
            result <= i,
        decreases FIELD_HEIGHT - i,
    {
        if line_is_full(field, i) {
            result = result + 1;
        }
        i = i + 1;
    }
    result
}

/// Removes row `i`: rows `0 .. i` move down by one and row 0 empties.
fn collapse_line(field: &mut Vec<bool>, i: u32)
    requires
        old(field)@.len() == field_len(),
        i < FIELD_HEIGHT,
    ensures
        final(field)@ == collapse_row(old(field)@, i as int),
{
    let ghost orig = field@;
    let mut k: u32 = i + 1;
    while k > 0
        invariant
            field@.len() == field_len(),
            orig.len() == field_len(),
            i < FIELD_HEIGHT,
            k <= i + 1,
            forall|idx: int| 0 <= idx < k * FIELD_WIDTH ==> field@[idx] == orig[idx],
            forall|idx: int|
                k * FIELD_WIDTH <= idx < field_len() ==> field@[idx] == collapse_row(orig, i as int)[idx],
        decreases k,
    {
        k = k - 1;
        let mut l: u32 = 0;
        while l < FIELD_WIDTH
            invariant
                field@.len() == field_len(),
                orig.len() == field_len(),
                i < FIELD_HEIGHT,
                k <= i,
                l <= FIELD_WIDTH,
                forall|idx: int| 0 <= idx < k * FIELD_WIDTH ==> field@[idx] == orig[idx],
                forall|idx: int|
                    k * FIELD_WIDTH + l <= idx < (k + 1) * FIELD_WIDTH ==> field@[idx] == orig[idx],
                forall|idx: int|
                    k * FIELD_WIDTH <= idx < k * FIELD_WIDTH + l ==> field@[idx] == collapse_row(orig, i as int)[idx],
                forall|idx: int|
                    (k + 1) * FIELD_WIDTH <= idx < field_len() ==> field@[idx] == collapse_row(orig, i as int)[idx],
            decreases FIELD_WIDTH - l,
        {
            if k == 0 {
                field.set(l as usize, false);
            } else {
                let above = field[(l + (k - 1) * FIELD_WIDTH) as usize];
                field.set((l + k * FIELD_WIDTH) as usize, above);
            }
            l = l + 1;
        }
    }
    assert(field@ =~= collapse_row(orig, i as int));
}

/// Clears every full row of a row-major field, scanning from the top.
fn clear_full_rows(field: &mut Vec<bool>)
    requires
        old(field)@.len() == field_len(),
    ensures
        final(field)@ == cleared_field(old(field)@),
        final(field)@.len() == field_len(),
{
    let ghost orig = field@;
    let mut i: u32 = 0;
    while i < FIELD_HEIGHT
        invariant
            field@.len() == field_len(),
            i <= FIELD_HEIGHT,
            clear_from(field@, i as int) == cleared_field(orig),
        decreases FIELD_HEIGHT - i,
    {
        if line_is_full(field, i) {
            collapse_line(field, i);
        }
        i = i + 1;
    }
}

/// Ticks between drops at level 1: the gravity curve gives 1/60 rows per tick.
pub const LEVEL_ONE_DROP_INTERVAL: i32 = 60;

/// Ticks between drops under hard-drop gravity (20 rows per tick).
pub const HARD_DROP_INTERVAL: i32 = 0;

/// Ticks between drops under soft-drop gravity (0.3 rows per tick).
pub const SOFT_DROP_INTERVAL: i32 = 3;

/// Points for clearing `n` lines at once, before the level multiplier.
pub open spec fn score_base(n: int) -> int {
    if n <= 0 {
        0
    } else if n == 1 {
        40
    } else if n == 2 {
        100
    } else if n == 3 {
        300
    } else {
        1200
    }
}

/// Points for clearing `n` lines at once at level `level`.
pub open spec fn score_delta(n: int, level: int) -> int {
    score_base(n) * (level + 1)
}

/// Level and progress after clearing `n` lines: at most one promotion, and
/// the threshold uses the level before promotion.
pub open spec fn promoted(level: int, progress: int, n: int) -> (int, int) {
    if progress + n >= level * 5 {
        (level + 1, progress + n - level * 5)
    } else {
        (level, progress + n)
    }
}

/// The field with every on-field tile of `tiles` marked occupied.
pub open spec fn lock_tiles(f: Seq<bool>, tiles: Seq<Point>) -> Seq<bool>
    decreases tiles.len(),
{
    if tiles.len() == 0 {
        f
    } else {
        let g = lock_tiles(f, tiles.drop_last());
        let p = tiles.last();
        if in_field(p.x as int, p.y as int) {
            g.update(cell_index(p.x as int, p.y as int), true)
        } else {
            g
        }
    }
}

/// The empty field.
pub open spec fn empty_field() -> Seq<bool> {
    Seq::new(field_len() as nat, |i: int| false)
}

/// A field with no occupied cell.
fn new_empty_field() -> (r: Vec<bool>)
    ensures
        r@ == empty_field(),
{
    let r = vec![false; (FIELD_HEIGHT * FIELD_WIDTH) as usize];
    assert(r@ =~= empty_field());
    r
}

/// Marks the on-field tiles of a locked figure as occupied.
fn lock_figure(field: &mut Vec<bool>, tiles: &Vec<Point>)
    requires
        old(field)@.len() == field_len(),
    ensures
        final(field)@ == lock_tiles(old(field)@, tiles@),
        final(field)@.len() == field_len(),
{
    let ghost orig = field@;
    let mut i: usize = 0;
    while i < tiles.len()
        invariant
            i <= tiles@.len(),
            field@.len() == field_len(),
            field@ == lock_tiles(orig, tiles@.take(i as int)),
        decreases tiles@.len() - i,
    {
        let p = tiles[i];
        assert(tiles@.take(i + 1).drop_last() =~= tiles@.take(i as int));
        if 0 <= p.x && p.x < FIELD_WIDTH as isize && 0 <= p.y && p.y < FIELD_HEIGHT as isize {
            field.set((p.x + p.y * (FIELD_WIDTH as isize)) as usize, true);
        }
        i = i + 1;
    }
    assert(tiles@.take(tiles@.len() as int) =~= tiles@);
}

/// Every tile of a figure at pivot `c` is within two cells of `c` on each axis.
pub proof fn lemma_tiles_near(t: BlockType, d: Direction, c: Point)
    requires
        coord_ok(c),
    ensures
        tiles_of(t, d, c).len() == 4,
        tiles_of(t, d, c)[0] == c,
        forall|i: int|
            0 <= i < 4 ==> c.x - 2 <= #[trigger] tiles_of(t, d, c)[i].x <= c.x + 2 && c.y - 2
                <= tiles_of(t, d, c)[i].y <= c.y + 2,
{
    lemma_offsets_small(t, d);
}

/// The smallest x among the tiles (of the first tile when there is one).
pub open spec fn min_x(s: Seq<Point>) -> int
    decreases s.len(),
{
    if s.len() <= 1 {
        s[0].x as int
    } else if (s.last().x as int) < min_x(s.drop_last()) {
        s.last().x as int
    } else {
        min_x(s.drop_last())
    }
}

/// The largest x among the tiles (of the first tile when there is one).
pub open spec fn max_x(s: Seq<Point>) -> int
    decreases s.len(),
{
    if s.len() <= 1 {
        s[0].x as int
    } else if (s.last().x as int) > max_x(s.drop_last()) {
        s.last().x as int
    } else {
        max_x(s.drop_last())
    }
}

/// Some tile lies above the top row.
pub open spec fn any_above_top(s: Seq<Point>) -> bool {
    exists|i: int| 0 <= i < s.len() && (#[trigger] s[i]).y < 0
}

/// `c` moved `dx` cells along x.
pub open spec fn shifted(c: Point, dx: int) -> Point {
    Point { x: (c.x + dx) as isize, y: c.y }
}

/// The boundary correction of a rotated candidate (type `t`, facing `d`,
/// pivot `c`): the number of cells it moves along x, or `None` when the
/// rotation is rejected. Each shift is allowed only where every tile can move
/// that way on field `f`.
pub open spec fn rotation_shift(t: BlockType, d: Direction, c: Point, f: Seq<bool>) -> Option<int> {
    let tiles = tiles_of(t, d, c);
    if any_above_top(tiles) {
        None
    } else if min_x(tiles) == -2 {
        if direction_clear(tiles, Direction::Right, f) && direction_clear(
            tiles_of(t, d, shifted(c, 1)),
            Direction::Right,
            f,
        ) {
            Some(2)
        } else {
            None
        }
    } else if min_x(tiles) == -1 {
        if direction_clear(tiles, Direction::Right, f) {
            Some(1)
        } else {
            None
        }
    } else if max_x(tiles) == FIELD_WIDTH {
        if direction_clear(tiles, Direction::Left, f) {
            Some(-1)
        } else {
            None
        }
    } else if max_x(tiles) == FIELD_WIDTH + 1 {
        if direction_clear(tiles, Direction::Left, f) && direction_clear(
            tiles_of(t, d, shifted(c, -1)),
            Direction::Left,
            f,
        ) {
            Some(-2)
        } else {
            None
        }
    } else {
        Some(0)
    }
}

/// A figure that has moved one cell in direction `d` on a clear path has its
/// pivot on the field.
proof fn lemma_moved_pivot_on_field(t: BlockType, dir: Direction, c: Point, d: Direction, f: Seq<bool>)
    requires
        coord_ok(c),
        direction_clear(tiles_of(t, dir, c), d, f),
    ensures
        in_field(c.x + crate::collision_checker::step(d).0, c.y + crate::collision_checker::step(d).1),
{
    lemma_tiles_near(t, dir, c);
    assert(crate::collision_checker::neighbor_free(f, tiles_of(t, dir, c)[0], d));
}

/// Every tile lies in a column of the field and not above its top row.
pub open spec fn tiles_settled(s: Seq<Point>) -> bool {
    forall|i: int|
        0 <= i < s.len() ==> 0 <= (#[trigger] s[i]).x < FIELD_WIDTH && 0 <= s[i].y
}

/// `min_x` and `max_x` bound every tile and are reached by one.
pub(crate) proof fn lemma_min_max_x(s: Seq<Point>)
    requires
        s.len() >= 1,
    ensures
        forall|j: int| 0 <= j < s.len() ==> min_x(s) <= (#[trigger] s[j]).x <= max_x(s),
        exists|j: int| 0 <= j < s.len() && min_x(s) == (#[trigger] s[j]).x,
        exists|j: int| 0 <= j < s.len() && max_x(s) == (#[trigger] s[j]).x,
    decreases s.len(),
{
    if s.len() > 1 {
        let p = s.drop_last();
        lemma_min_max_x(p);
        assert forall|j: int| 0 <= j < s.len() implies min_x(s) <= (#[trigger] s[j]).x <= max_x(s) by {
            if j < s.len() - 1 {
                assert(s[j] == p[j]);
            }
        }
        let jm = choose|j: int| 0 <= j < p.len() && min_x(p) == (#[trigger] p[j]).x;
        let jx = choose|j: int| 0 <= j < p.len() && max_x(p) == (#[trigger] p[j]).x;
        assert(s[jm] == p[jm]);
        assert(s[jx] == p[jx]);
        assert(s[s.len() - 1] == s.last());
    } else {
        assert(s[0].x == min_x(s));
    }
}

/// A candidate that no correction moves, around a pivot on the field, is settled.
proof fn lemma_unshifted_settled(t: BlockType, d: Direction, c: Point, f: Seq<bool>)
    requires
        in_field(c.x as int, c.y as int),
        rotation_shift(t, d, c, f) == Some(0int),
    ensures
        tiles_settled(tiles_of(t, d, c)),
{
    let s = tiles_of(t, d, c);
    lemma_tiles_near(t, d, c);
    lemma_min_max_x(s);
    let jm = choose|j: int| 0 <= j < s.len() && min_x(s) == (#[trigger] s[j]).x;
    let jx = choose|j: int| 0 <= j < s.len() && max_x(s) == (#[trigger] s[j]).x;
    assert(s[jm].x >= c.x - 2);
    assert(s[jx].x <= c.x + 2);
    assert forall|i: int| 0 <= i < s.len() implies 0 <= (#[trigger] s[i]).x < FIELD_WIDTH && 0 <= s[i].y by {
        if s[i].y < 0 {
            assert(any_above_top(s));
        }
    }
}

/// Tiles that can all move one cell on a clear path land on the field.
proof fn lemma_moved_settled(t: BlockType, dir: Direction, c: Point, d: Direction, f: Seq<bool>, c2: Point)
    requires
        coord_ok(c),
        coord_ok(c2),
        direction_clear(tiles_of(t, dir, c), d, f),
        c2.x == c.x + crate::collision_checker::step(d).0,
        c2.y == c.y + crate::collision_checker::step(d).1,
    ensures
        tiles_settled(tiles_of(t, dir, c2)),
{
    lemma_tiles_near(t, dir, c);
    lemma_tiles_near(t, dir, c2);
    lemma_offsets_small(t, dir);
    assert forall|i: int| 0 <= i < 4 implies 0 <= (#[trigger] tiles_of(t, dir, c2)[i]).x < FIELD_WIDTH
        && 0 <= tiles_of(t, dir, c2)[i].y by {
        assert(crate::collision_checker::neighbor_free(f, tiles_of(t, dir, c)[i], d));
    }
}

/// Figures at the spawn point lie on the field in every facing.
proof fn lemma_spawn_settled(t: BlockType, d: Direction)
    ensures
        tiles_settled(tiles_of(t, d, spawn_point())),
        tiles_in_field(tiles_of(t, d, spawn_point())),
{
    lemma_tiles_near(t, d, spawn_point());
}

/// One tick from `o` to `n`, where `roll` picks the type of a newly drawn
/// figure. Paused: nothing changes. Otherwise the figure falls (when its drop
/// counter has run out) or waits, or it is locked into the field and the next
/// figure takes its place; then full rows are cleared and score, level and
/// progress are updated from their number.
pub open spec fn advanced(o: GameState, n: GameState, roll: u32) -> bool {
    if o.is_paused {
        n == o
    } else {
        let f = o.current_figure;
        let falls = direction_clear(f.tiles@, Direction::Down, o.filled_space@);
        let merged = if falls {
            o.filled_space@
        } else {
            lock_tiles(o.filled_space@, f.tiles@)
        };
        let cleared = full_rows(merged, FIELD_HEIGHT as int);
        &&& n.filled_space@ == cleared_field(merged)
        &&& n.current_score == o.current_score + score_delta(cleared, o.level as int)
        &&& (n.level as int, n.progress_to_next_level as int) == promoted(
            o.level as int,
            o.progress_to_next_level as int,
            cleared,
        )
        &&& n.is_paused == o.is_paused
        &&& n.best_score == o.best_score
        &&& n.drop_interval == o.drop_interval
        &&& falls && o.next_gravity_tick <= 0 ==> {
            &&& n.current_figure.block_type == f.block_type
            &&& n.current_figure.moved(f.direction, Point { x: f.center.x, y: (f.center.y + 1) as isize })
            &&& n.next_gravity_tick == o.drop_interval
            &&& n.next_figure == o.next_figure
        }
        &&& falls && o.next_gravity_tick > 0 ==> {
            &&& n.current_figure == f
            &&& n.next_gravity_tick == o.next_gravity_tick - 1
            &&& n.next_figure == o.next_figure
        }
        &&& !falls ==> {
            &&& n.current_figure == o.next_figure
            &&& n.next_figure.block_type == block_type_of_roll(roll)
            &&& n.next_gravity_tick == o.next_gravity_tick
        }
    }
}

/// The error of a command that this revision does not support.
#[derive(Copy, Clone, Debug, PartialEq, Eq, Structural)]
pub enum CommandError {
    Unsupported,
}

/// The whole state of a game, owned by the driving loop.
pub struct GameState {
    pub is_paused: bool,
    pub current_score: u64,
    pub best_score: u64,
    pub level: u32,
    pub progress_to_next_level: u32,
    /// Row-major occupancy: cell (x, y) is `filled_space[x + y * FIELD_WIDTH]`.
    pub filled_space: Vec<bool>,
    pub current_figure: Figure,
    pub next_figure: Figure,
    /// Ticks between drops: floor(1 / gravity) for the gravity in force.
    pub drop_interval: i32,
    pub next_gravity_tick: i32,
}

impl GameState {
    /// The state invariant kept by every operation.
    pub open spec fn wf(&self) -> bool {
        &&& self.filled_space@.len() == field_len()
        &&& self.current_figure.wf()
        &&& in_field(self.current_figure.center.x as int, self.current_figure.center.y as int)
        &&& tiles_settled(self.current_figure.tiles@)
        &&& self.next_figure.wf()
        &&& self.next_figure.center == spawn_point()
        &&& self.next_figure.direction == Direction::Up
        &&& self.level >= 1
    }

    /// A tick's score, level and progress updates fit their integer types.
    pub open spec fn counters_fit(&self) -> bool {
        &&& self.current_score + 1200 * (self.level + 1) <= u64::MAX
        &&& self.level * 5 <= u32::MAX
        &&& self.progress_to_next_level + FIELD_HEIGHT <= u32::MAX
    }

    /// Score, level, progress, field and gravity as at the start of a game;
    /// both figures fresh at the spawn point, facing up.
    pub open spec fn is_fresh(&self) -> bool {
        &&& self.current_score == 0
        &&& self.level == 1
        &&& self.progress_to_next_level == 0
        &&& self.filled_space@ == empty_field()
        &&& self.current_figure.center == spawn_point()
        &&& self.current_figure.direction == Direction::Up
        &&& self.drop_interval == LEVEL_ONE_DROP_INTERVAL
        &&& self.next_gravity_tick == LEVEL_ONE_DROP_INTERVAL
    }

    /// A new game whose two figures are picked by the given draws.
    pub fn init_with_rolls(current_roll: u32, next_roll: u32) -> (r: GameState)
        ensures
            r.wf(),
            r.is_fresh(),
            !r.is_paused,
            r.best_score == 0,
            r.current_figure.block_type == block_type_of_roll(current_roll),
            r.next_figure.block_type == block_type_of_roll(next_roll),
    {
        GameState {
            is_paused: false,
            current_score: 0,
            best_score: 0,
            level: 1,
            progress_to_next_level: 0,
            filled_space: new_empty_field(),
            current_figure: Figure::init_from_roll(current_roll),
            next_figure: Figure::init_from_roll(next_roll),
            drop_interval: LEVEL_ONE_DROP_INTERVAL,
            next_gravity_tick: LEVEL_ONE_DROP_INTERVAL,
        }
    }

    /// A new game with two randomly picked figures.
    pub fn init() -> (r: GameState)
        ensures
            r.wf(),
            r.is_fresh(),
            !r.is_paused,
            r.best_score == 0,
    {
        let a: u32 = rand::random::<u32>();
        let b: u32 = rand::random::<u32>();
        GameState::init_with_rolls(a, b)
    }

    /// Starts over, keeping the best score; the new figures are picked by the
    /// given draws.
    pub fn restart_with_rolls(&mut self, current_roll: u32, next_roll: u32)
        requires
            old(self).wf(),
        ensures
            final(self).wf(),
            final(self).is_fresh(),
            final(self).is_paused == old(self).is_paused,
            final(self).best_score == if old(self).current_score > old(self).best_score {
                old(self).current_score
            } else {
                old(self).best_score
            },
            final(self).current_figure.block_type == block_type_of_roll(current_roll),
            final(self).next_figure.block_type == block_type_of_roll(next_roll),
    {
        if self.current_score > self.best_score {
            self.best_score = self.current_score;
        }
        self.current_score = 0;
        self.level = 1;
        self.progress_to_next_level = 0;
        self.filled_space = new_empty_field();
        self.current_figure = Figure::init_from_roll(current_roll);
        self.next_figure = Figure::init_from_roll(next_roll);
        self.drop_interval = LEVEL_ONE_DROP_INTERVAL;
        self.next_gravity_tick = LEVEL_ONE_DROP_INTERVAL;
    }

    /// Starts over with two randomly picked figures, keeping the best score.
    pub fn restart(&mut self)
        requires
            old(self).wf(),
        ensures
            final(self).wf(),
            final(self).is_fresh(),
            final(self).is_paused == old(self).is_paused,
            final(self).best_score == if old(self).current_score > old(self).best_score {
                old(self).current_score
            } else {
                old(self).best_score
            },
    {
        let a: u32 = rand::random::<u32>();
        let b: u32 = rand::random::<u32>();
        self.restart_with_rolls(a, b);
    }

    /// The game is over when the figure still sits at the spawn pivot and
    /// overlaps occupied cells.
    pub fn game_is_finished(&self) -> (r: bool)
        requires
            self.wf(),
        ensures
            r == (self.current_figure.center == spawn_point() && !position_clear(
                self.current_figure.tiles@,
                self.filled_space@,
            )),
    {
        let start_position = Figure::get_start_position();
        if self.current_figure.center.x != start_position.x
            || self.current_figure.center.y != start_position.y {
            return false;
        }
        proof {
            let f = self.current_figure;
            lemma_tiles_near(f.block_type, f.direction, f.center);
            assert(tiles_in_field(f.tiles@));
        }
        !position_is_clear(&self.current_figure, &self.filled_space)
    }

    /// Boundary correction of a rotated candidate: the candidate moved as
    /// `rotation_shift` says, or `None` when the rotation is rejected.
    fn resolve_rotation_collision(&self, figure_position: Figure) -> (r: Option<Figure>)
        requires
            self.filled_space@.len() == field_len(),
            figure_position.wf(),
            in_field(figure_position.center.x as int, figure_position.center.y as int),
        ensures
            rotation_shift(
                figure_position.block_type,
                figure_position.direction,
                figure_position.center,
                self.filled_space@,
            ) is None ==> r is None,
            rotation_shift(
                figure_position.block_type,
                figure_position.direction,
                figure_position.center,
                self.filled_space@,
            ) is Some ==> r is Some && r.unwrap().block_type == figure_position.block_type
                && r.unwrap().moved(
                figure_position.direction,
                shifted(
                    figure_position.center,
                    rotation_shift(
                        figure_position.block_type,
                        figure_position.direction,
                        figure_position.center,
                        self.filled_space@,
                    ).unwrap(),
                ),
            ) && in_field(r.unwrap().center.x as int, r.unwrap().center.y as int) && tiles_settled(
                r.unwrap().tiles@,
            ),
    {
        let mut candidate = figure_position;
        let ghost t = candidate.block_type;
        let ghost d = candidate.direction;
        let ghost c = candidate.center;
        let ghost tiles = candidate.tiles@;
        proof {
            lemma_tiles_near(t, d, c);
        }
        let field = &self.filled_space;
        let mut top_left_point = candidate.tiles[0];
        let mut top_right_point = candidate.tiles[0];
        let mut i: usize = 0;
        while i < candidate.tiles.len()
            invariant
                candidate.tiles@ == tiles,
                t == figure_position.block_type,
                d == figure_position.direction,
                c == figure_position.center,
                field@ == self.filled_space@,
                tiles == tiles_of(t, d, c),
                candidate.wf(),
                candidate.block_type == t,
                candidate.direction == d,
                candidate.center == c,
                in_field(c.x as int, c.y as int),
                field@.len() == field_len(),
                tiles.len() == 4,
                i <= 4,
                i == 0 ==> top_left_point == tiles[0] && top_right_point == tiles[0],
                i > 0 ==> top_left_point.x == min_x(tiles.take(i as int)) && top_right_point.x
                    == max_x(tiles.take(i as int)),
                forall|j: int| 0 <= j < i ==> (#[trigger] tiles[j]).y >= 0,
            decreases 4 - i,
        {
            let point = candidate.tiles[i];
            if point.y < 0 {
                assert(tiles[i as int].y < 0);
                return None;
            }
            if point.x < top_left_point.x {
                top_left_point = point;
            } else if point.x > top_right_point.x {
                top_right_point = point;
            }
            assert(tiles.take(i + 1).drop_last() =~= tiles.take(i as int));
            i = i + 1;
        }
        assert(tiles.take(4) =~= tiles);
        assert(!any_above_top(tiles));
        if top_left_point.x == -2 {
            if direction_is_clear(&candidate, Direction::Right, field) {
                proof {
                    lemma_moved_pivot_on_field(t, d, c, Direction::Right, field@);
                }
                candidate.shift_right();
            } else {
                return None;
            }
            return if direction_is_clear(&candidate, Direction::Right, field) {
                proof {
                    lemma_moved_pivot_on_field(t, d, shifted(c, 1), Direction::Right, field@);
                    lemma_moved_settled(t, d, shifted(c, 1), Direction::Right, field@, shifted(shifted(c, 1), 1));
                }
                candidate.shift_right();
                Some(candidate)
            } else {
                None
            };
        }
        if top_left_point.x == -1 {
            return if direction_is_clear(&candidate, Direction::Right, field) {
                proof {
                    lemma_moved_pivot_on_field(t, d, c, Direction::Right, field@);
                    lemma_moved_settled(t, d, c, Direction::Right, field@, shifted(c, 1));
                }
                candidate.shift_right();
                Some(candidate)
            } else {
                None
            };
        }
        if top_right_point.x == FIELD_WIDTH as isize {
            return if direction_is_clear(&candidate, Direction::Left, field) {
                proof {
                    lemma_moved_pivot_on_field(t, d, c, Direction::Left, field@);
                    lemma_moved_settled(t, d, c, Direction::Left, field@, shifted(c, -1));
                }
                candidate.shift_left();
                Some(candidate)
            } else {
                None
            };
        }
        if top_right_point.x == (FIELD_WIDTH + 1) as isize {
            if direction_is_clear(&candidate, Direction::Left, field) {
                proof {
                    lemma_moved_pivot_on_field(t, d, c, Direction::Left, field@);
                }
                candidate.shift_left();
            } else {
                return None;
            }
            return if direction_is_clear(&candidate, Direction::Left, field) {
                proof {
                    lemma_moved_pivot_on_field(t, d, shifted(c, -1), Direction::Left, field@);
                    lemma_moved_settled(t, d, shifted(c, -1), Direction::Left, field@, shifted(shifted(c, -1), -1));
                }
                candidate.shift_left();
                Some(candidate)
            } else {
                None
            };
        }
        proof {
            lemma_unshifted_settled(t, d, c, field@);
        }
        Some(candidate)
    }

    /// Rotates the current figure clockwise, with boundary correction; the
    /// state is unchanged when the rotation is rejected.
    pub fn rotate_clockwise(&mut self)
        requires
            old(self).wf(),
        ensures
            final(self).wf(),
            ({
                let f = old(self).current_figure;
                let d = cw_of(f.direction);
                let sh = rotation_shift(f.block_type, d, f.center, old(self).filled_space@);
                &&& sh is None ==> *final(self) == *old(self)
                &&& sh is Some ==> final(self).current_figure.block_type == f.block_type
                    && final(self).current_figure.moved(d, shifted(f.center, sh.unwrap()))
                    && *final(self) == (GameState {
                    current_figure: final(self).current_figure,
                    ..*old(self)
                })
            }),
    {
        let possible_position = Figure::init(
            self.current_figure.block_type,
            Direction::next_cw(self.current_figure.direction),
            self.current_figure.center,
        );
        match self.resolve_rotation_collision(possible_position) {
            None => (),
            Some(possible_position) => {
                self.current_figure = possible_position;
            },
        }
    }

    /// Rotates the current figure counter-clockwise, with boundary correction;
    /// the state is unchanged when the rotation is rejected.
    pub fn rotate_counter_clockwise(&mut self)
        requires
            old(self).wf(),
        ensures
            final(self).wf(),
            ({
                let f = old(self).current_figure;
                let d = ccw_of(f.direction);
                let sh = rotation_shift(f.block_type, d, f.center, old(self).filled_space@);
                &&& sh is None ==> *final(self) == *old(self)
                &&& sh is Some ==> final(self).current_figure.block_type == f.block_type
                    && final(self).current_figure.moved(d, shifted(f.center, sh.unwrap()))
                    && *final(self) == (GameState {
                    current_figure: final(self).current_figure,
                    ..*old(self)
                })
            }),
    {
        let possible_position = Figure::init(
            self.current_figure.block_type,
            Direction::next_ccw(self.current_figure.direction),
            self.current_figure.center,
        );
        match self.resolve_rotation_collision(possible_position) {
            None => (),
            Some(possible_position) => {
                self.current_figure = possible_position;
            },
        }
    }

    /// Moves the current figure one cell left if every tile can move there.
    pub fn left_shift(&mut self)
        requires
            old(self).wf(),
        ensures
            final(self).wf(),
            ({
                let f = old(self).current_figure;
                let g = final(self).current_figure;
                let clear = direction_clear(f.tiles@, Direction::Left, old(self).filled_space@);
                &&& clear ==> g.block_type == f.block_type && g.moved(f.direction, shifted(f.center, -1))
                    && *final(self) == (GameState { current_figure: g, ..*old(self) })
                &&& !clear ==> *final(self) == *old(self)
            }),
    {
        if direction_is_clear(&self.current_figure, Direction::Left, &self.filled_space) {
            proof {
                let f = self.current_figure;
                lemma_moved_pivot_on_field(f.block_type, f.direction, f.center, Direction::Left, self.filled_space@);
                lemma_moved_settled(f.block_type, f.direction, f.center, Direction::Left, self.filled_space@, shifted(f.center, -1));
            }
            self.current_figure.shift_left();
        }
    }

    /// Moves the current figure one cell right if every tile can move there.
    pub fn right_shift(&mut self)
        requires
            old(self).wf(),
        ensures
            final(self).wf(),
            ({
                let f = old(self).current_figure;
                let g = final(self).current_figure;
                let clear = direction_clear(f.tiles@, Direction::Right, old(self).filled_space@);
                &&& clear ==> g.block_type == f.block_type && g.moved(f.direction, shifted(f.center, 1))
                    && *final(self) == (GameState { current_figure: g, ..*old(self) })
                &&& !clear ==> *final(self) == *old(self)
            }),
    {
        if direction_is_clear(&self.current_figure, Direction::Right, &self.filled_space) {
            proof {
                let f = self.current_figure;
                lemma_moved_pivot_on_field(f.block_type, f.direction, f.center, Direction::Right, self.filled_space@);
                lemma_moved_settled(f.block_type, f.direction, f.center, Direction::Right, self.filled_space@, shifted(f.center, 1));
            }
            self.current_figure.shift_right();
        }
    }

    /// Whether a tick's score, level and progress updates fit their types.
    pub fn can_advance(&self) -> (r: bool)
        ensures
            r == self.counters_fit(),
    {
        (self.current_score as u128) + 1200 * ((self.level as u128) + 1) <= u64::MAX as u128
            && (self.level as u64) * 5 <= u32::MAX as u64
            && (self.progress_to_next_level as u64) + (FIELD_HEIGHT as u64) <= u32::MAX as u64
    }

    /// One tick; `roll` picks the type of the figure drawn if one is locked.
    pub fn update_with_roll(&mut self, roll: u32)
        requires
            old(self).wf(),
            old(self).counters_fit(),
        ensures
            final(self).wf(),
            advanced(*old(self), *final(self), roll),
    {
        if self.is_paused {
            return;
        }
        if direction_is_clear(&self.current_figure, Direction::Down, &self.filled_space) {
            if self.next_gravity_tick <= 0 {
                proof {
                    let f = self.current_figure;
                    lemma_moved_pivot_on_field(f.block_type, f.direction, f.center, Direction::Down, self.filled_space@);
                    lemma_moved_settled(
                        f.block_type,
                        f.direction,
                        f.center,
                        Direction::Down,
                        self.filled_space@,
                        Point { x: f.center.x, y: (f.center.y + 1) as isize },
                    );
                }
                self.current_figure.shift_down();
                self.next_gravity_tick = self.drop_interval;
            } else {
                self.next_gravity_tick = self.next_gravity_tick - 1;
            }
        } else {
            lock_figure(&mut self.filled_space, &self.current_figure.tiles);
            proof {
                lemma_spawn_settled(self.next_figure.block_type, Direction::Up);
            }
            let mut fresh = Figure::init_from_roll(roll);
            core::mem::swap(&mut self.next_figure, &mut fresh);
            self.current_figure = fresh;
        }
        let cleared_lines_count = self.count_filled_lines();
        self.clear_filled_lines();
        self.update_score(cleared_lines_count);
        self.update_level_progress(cleared_lines_count);
    }

    /// One tick; a figure drawn when one is locked has a random type.
    pub fn update(&mut self)
        requires
            old(self).wf(),
            old(self).counters_fit(),
        ensures
            final(self).wf(),
            exists|roll: u32| advanced(*old(self), *final(self), roll),
    {
        let roll: u32 = rand::random::<u32>();
        self.update_with_roll(roll);
        assert(advanced(*old(self), *self, roll));
    }

    /// Hard drop: the figure falls on every tick.
    pub fn set_hard_drop_gravity(&mut self)
        ensures
            *final(self) == (GameState {
                drop_interval: HARD_DROP_INTERVAL,
                next_gravity_tick: 0,
                ..*old(self)
            }),
    {
        self.drop_interval = HARD_DROP_INTERVAL;
        self.next_gravity_tick = 0;
    }

    /// Soft drop: the figure falls every few ticks.
    pub fn set_soft_drop_gravity(&mut self)
        ensures
            *final(self) == (GameState {
                drop_interval: SOFT_DROP_INTERVAL,
                next_gravity_tick: 0,
                ..*old(self)
            }),
    {
        self.drop_interval = SOFT_DROP_INTERVAL;
        self.next_gravity_tick = 0;
    }

    /// Restores the level's gravity; `level_interval` is floor(1 / gravity)
    /// for the current level.
    pub fn reset_gravity(&mut self, level_interval: i32)
        ensures
            *final(self) == (GameState {
                drop_interval: level_interval,
                next_gravity_tick: level_interval,
                ..*old(self)
            }),
    {
        self.drop_interval = level_interval;
        self.next_gravity_tick = level_interval;
    }

    pub fn pause(&mut self)
        ensures
            *final(self) == (GameState { is_paused: !old(self).is_paused, ..*old(self) }),
    {
        self.is_paused = !self.is_paused;
    }

    /// Holding a piece is not supported in this revision.
    pub fn hold(&self) -> (r: Result<(), CommandError>)
        ensures
            r == Err::<(), CommandError>(CommandError::Unsupported),
    {
        Err(CommandError::Unsupported)
    }

    /// Number of full rows of the field.
    pub fn count_filled_lines(&self) -> (r: u32)
        requires
            self.filled_space@.len() == field_len(),
        ensures
            r == full_rows(self.filled_space@, FIELD_HEIGHT as int),
            r <= FIELD_HEIGHT,
    {
        count_full_rows(&self.filled_space)
    }

    /// Clears every full row, scanning from the top.
    pub fn clear_filled_lines(&mut self)
        requires
            old(self).filled_space@.len() == field_len(),
        ensures
            final(self).filled_space@ == cleared_field(old(self).filled_space@),
            final(self).filled_space@.len() == field_len(),
            *final(self) == (GameState { filled_space: final(self).filled_space, ..*old(self) }),
    {
        let mut field_as_array = self.get_field_as_array();
        clear_full_rows(&mut field_as_array);
        self.store_field_from_array(field_as_array);
    }

    /// The field as a row-major array: index x + y * FIELD_WIDTH.
    pub fn get_field_as_array(&self) -> (r: Vec<bool>)
        ensures
            r@ == self.filled_space@,
    {
        self.filled_space.clone()
    }

    /// Replaces the field by a row-major array.
    pub fn store_field_from_array(&mut self, array_field: Vec<bool>)
        requires
            array_field@.len() == field_len(),
        ensures
            *final(self) == (GameState { filled_space: array_field, ..*old(self) }),
            final(self).filled_space@ == array_field@,
    {
        self.filled_space = array_field;
    }

    /// Adds the points for clearing `cleared_lines_count` lines.
    fn update_score(&mut self, cleared_lines_count: u32)
        requires
            old(self).current_score + 1200 * (old(self).level + 1) <= u64::MAX,
        ensures
            final(self).current_score == old(self).current_score + score_delta(
                cleared_lines_count as int,
                old(self).level as int,
            ),
            *final(self) == (GameState { current_score: final(self).current_score, ..*old(self) }),
    {
        let l: u64 = self.level as u64 + 1;
        let delta: u64 = if cleared_lines_count == 0 {
            0
        } else if cleared_lines_count == 1 {
            40 * l
        } else if cleared_lines_count == 2 {
            100 * l
        } else if cleared_lines_count == 3 {
            300 * l
        } else {
            1200 * l
        };
        self.current_score = self.current_score + delta;
    }

    /// Adds cleared lines to the progress and promotes at most one level.
    fn update_level_progress(&mut self, cleared_lines_count: u32)
        requires
            old(self).level * 5 <= u32::MAX,
            old(self).progress_to_next_level + cleared_lines_count <= u32::MAX,
        ensures
            (final(self).level as int, final(self).progress_to_next_level as int) == promoted(
                old(self).level as int,
                old(self).progress_to_next_level as int,
                cleared_lines_count as int,
            ),
            *final(self) == (GameState {
                level: final(self).level,
                progress_to_next_level: final(self).progress_to_next_level,
                ..*old(self)
            }),
    {
        self.progress_to_next_level = self.progress_to_next_level + cleared_lines_count;
        if self.progress_to_next_level >= self.level * 5 {
            self.progress_to_next_level = self.progress_to_next_level - self.level * 5;
            self.level = self.level + 1;
        }
    }
}

} // verus!
