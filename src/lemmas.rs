use vstd::prelude::*;
use crate::collision_checker::field_len;
use crate::game_state::{
    FIELD_WIDTH, FIELD_HEIGHT, GameState, row_full, collapse_row, rotation_shift, tiles_settled,
    score_delta, min_x, max_x, any_above_top, lemma_min_max_x, lemma_tiles_near,
};
use crate::tetronimoe::{BlockType, Direction, Point, tiles_of, cw_of, ccw_of, coord_ok};

verus! {

/// Number of occupied cells among indices `lo .. hi`.
pub open spec fn count_occupied(s: Seq<bool>, lo: int, hi: int) -> int
    decreases hi - lo,
{
    if hi <= lo {
        0
    } else {
        count_occupied(s, lo, hi - 1) + if s[hi - 1] { 1int } else { 0int }
    }
}

proof fn lemma_count_split(s: Seq<bool>, lo: int, mid: int, hi: int)
    requires
        lo <= mid <= hi,
    ensures
        count_occupied(s, lo, hi) == count_occupied(s, lo, mid) + count_occupied(s, mid, hi),
    decreases hi - mid,
{
    if hi > mid {
        lemma_count_split(s, lo, mid, hi - 1);
    }
}

proof fn lemma_count_shift(s: Seq<bool>, t: Seq<bool>, lo: int, hi: int, k: int)
    requires
        forall|j: int| lo <= j < hi ==> t[j + k] == s[j],
    ensures
        count_occupied(t, lo + k, hi + k) == count_occupied(s, lo, hi),
    decreases hi - lo,
{
    if hi > lo {
        lemma_count_shift(s, t, lo, hi - 1, k);
        assert(t[(hi - 1) + k] == s[hi - 1]);
    }
}

proof fn lemma_count_all(s: Seq<bool>, lo: int, hi: int, b: bool)
    requires
        lo <= hi,
        forall|j: int| lo <= j < hi ==> s[j] == b,
    ensures
        count_occupied(s, lo, hi) == if b { hi - lo } else { 0 },
    decreases hi - lo,
{
    if hi > lo {
        lemma_count_all(s, lo, hi - 1, b);
    }
}

/// Clearing a full row `i` removes exactly `FIELD_WIDTH` occupied cells:
/// row 0 becomes empty, each row `1 ..= i` takes the row that was above it,
/// and the rows below `i` stay as they were.
pub proof fn lemma_collapse_row(f: Seq<bool>, i: int)
    requires
        f.len() == field_len(),
        0 <= i < FIELD_HEIGHT,
        row_full(f, i),
    ensures
        collapse_row(f, i).len() == f.len(),
        forall|x: int| 0 <= x < FIELD_WIDTH ==> !#[trigger] collapse_row(f, i)[x],
        forall|x: int, y: int|
            0 <= x < FIELD_WIDTH && 1 <= y <= i ==> #[trigger] collapse_row(f, i)[x + y * FIELD_WIDTH]
                == f[x + (y - 1) * FIELD_WIDTH],
        forall|x: int, y: int|
            0 <= x < FIELD_WIDTH && i < y < FIELD_HEIGHT ==> #[trigger] collapse_row(f, i)[x + y
                * FIELD_WIDTH] == f[x + y * FIELD_WIDTH],
        count_occupied(collapse_row(f, i), 0, field_len()) == count_occupied(f, 0, field_len())
            - FIELD_WIDTH,
{
    let g = collapse_row(f, i);
    let w = FIELD_WIDTH as int;
    let n = field_len();
    assert forall|x: int, y: int|
        0 <= x < FIELD_WIDTH && 1 <= y <= i implies #[trigger] g[x + y * FIELD_WIDTH] == f[x + (y
            - 1) * FIELD_WIDTH] by {
        assert(x + y * w < (i + 1) * w) by (nonlinear_arith)
            requires
                0 <= x < w,
                y <= i,
        ;
        assert(x + y * w >= w) by (nonlinear_arith)
            requires
                0 <= x,
                1 <= y,
                w > 0,
        ;
        assert(x + y * w - w == x + (y - 1) * w) by (nonlinear_arith);
    }
    assert forall|x: int, y: int|
        0 <= x < FIELD_WIDTH && i < y < FIELD_HEIGHT implies #[trigger] g[x + y * FIELD_WIDTH]
            == f[x + y * FIELD_WIDTH] by {
        assert(x + y * w >= (i + 1) * w) by (nonlinear_arith)
            requires
                0 <= x,
                i + 1 <= y,
                w > 0,
        ;
        assert(x + y * w < n) by (nonlinear_arith)
            requires
                0 <= x < w,
                y < FIELD_HEIGHT,
                n == FIELD_HEIGHT * w,
        ;
    }
    let top = (i + 1) * w;
    let lo = i * w;
    lemma_count_split(g, 0, w, n);
    lemma_count_split(g, w, top, n);
    lemma_count_split(f, 0, lo, n);
    lemma_count_split(f, lo, top, n);
    lemma_count_all(g, 0, w, false);
    lemma_count_shift(f, g, 0, lo, w);
    lemma_count_shift(f, g, top, n, 0);
    assert forall|j: int| lo <= j < top implies f[j] == true by {
        assert(f[(j - lo) + i * FIELD_WIDTH]);
    }
    lemma_count_all(f, lo, top, true);
}

/// Storing a row-major array as the field and reading the field back as an
/// array gives the same array: `o` is the state before
/// `store_field_from_array(a)`, `n` the state after it, and what
/// `get_field_as_array` returns on `n` is `n.filled_space@`.
pub proof fn lemma_field_round_trip(o: GameState, n: GameState, a: Vec<bool>)
    requires
        a@.len() == field_len(),
        n == (GameState { filled_space: a, ..o }),
    ensures
        n.filled_space@ == a@,
        n.filled_space@.len() == field_len(),
{
}

/// A figure whose tiles are all settled is never moved by a boundary
/// correction when it is the candidate of a rotation.
proof fn lemma_settled_unshifted(t: BlockType, d: Direction, c: Point, f: Seq<bool>)
    requires
        coord_ok(c),
        tiles_settled(tiles_of(t, d, c)),
    ensures
        rotation_shift(t, d, c, f) == Some(0int),
{
    let s = tiles_of(t, d, c);
    lemma_tiles_near(t, d, c);
    lemma_min_max_x(s);
    let jm = choose|j: int| 0 <= j < s.len() && min_x(s) == (#[trigger] s[j]).x;
    let jx = choose|j: int| 0 <= j < s.len() && max_x(s) == (#[trigger] s[j]).x;
    assert(0 <= s[jm].x);
    assert(s[jx].x < FIELD_WIDTH);
    if any_above_top(s) {
        let k = choose|k: int| 0 <= k < s.len() && (#[trigger] s[k]).y < 0;
        assert(0 <= s[k].y);
    }
}

/// In any valid state where rotating clockwise triggers no boundary
/// correction, the counter-clockwise rotation that follows triggers none
/// either and restores the facing and pivot it started from; and the same with the
/// two rotations swapped.
pub proof fn lemma_rotation_round_trip(s: GameState)
    requires
        s.wf(),
    ensures
        ({
            let f = s.current_figure;
            rotation_shift(f.block_type, cw_of(f.direction), f.center, s.filled_space@) == Some(0int)
                ==> rotation_shift(
                f.block_type,
                ccw_of(cw_of(f.direction)),
                f.center,
                s.filled_space@,
            ) == Some(0int) && ccw_of(cw_of(f.direction)) == f.direction
        }),
        ({
            let f = s.current_figure;
            rotation_shift(f.block_type, ccw_of(f.direction), f.center, s.filled_space@) == Some(0int)
                ==> rotation_shift(
                f.block_type,
                cw_of(ccw_of(f.direction)),
                f.center,
                s.filled_space@,
            ) == Some(0int) && cw_of(ccw_of(f.direction)) == f.direction
        }),
{
    let f = s.current_figure;
    assert(ccw_of(cw_of(f.direction)) == f.direction);
    assert(cw_of(ccw_of(f.direction)) == f.direction);
    lemma_settled_unshifted(f.block_type, f.direction, f.center, s.filled_space@);
}

/// Points for clearing 0, 1, 2, 3 and 4 or more lines at level `level`.
pub proof fn lemma_score_table(level: int)
    ensures
        score_delta(0, level) == 0,
        score_delta(1, level) == 40 * (level + 1),
        score_delta(2, level) == 100 * (level + 1),
        score_delta(3, level) == 300 * (level + 1),
        forall|n: int| n >= 4 ==> #[trigger] score_delta(n, level) == 1200 * (level + 1),
{
}

} // verus!
