use crate::math::fixed::in_limit;
use crate::math::point::Point;
use vstd::prelude::*;

verus! {

/// The cell with integer coordinates `(x, y)`.
pub open spec fn cell(x: int, y: int) -> Point<i64> {
    Point { x: x as i64, y: y as i64 }
}

/// Number of whole values in `[lo, hi]`.
pub open spec fn span_len(lo: int, hi: int) -> nat {
    if hi >= lo {
        (hi - lo + 1) as nat
    } else {
        0
    }
}

/// The first `n` cells of column `x`, from `y0` upward.
pub open spec fn column(x: int, y0: int, n: nat) -> Seq<Point<i64>> {
    Seq::new(n, |j: int| cell(x, y0 + j))
}

/// The cells `(x, y)` with `x0 <= x < x1` and `y0 <= y <= y1`, column after
/// column in increasing `x`, each column in increasing `y`.
pub open spec fn grid(x0: int, x1: int, y0: int, y1: int) -> Seq<Point<i64>>
    decreases x1 - x0,
{
    if x1 <= x0 {
        Seq::empty()
    } else {
        grid(x0, x1 - 1, y0, y1) + column(x1 - 1, y0, span_len(y0, y1))
    }
}

/// Every cell of the box is listed by `grid`.
pub proof fn lemma_grid_contains(x0: int, x1: int, y0: int, y1: int, p: Point<i64>)
    requires
        x0 <= p.x < x1,
        y0 <= p.y <= y1,
    ensures
        grid(x0, x1, y0, y1).contains(p),
    decreases x1 - x0,
{
    let prior = grid(x0, x1 - 1, y0, y1);
    let col = column(x1 - 1, y0, span_len(y0, y1));
    assert(grid(x0, x1, y0, y1) == prior + col);
    if p.x == x1 - 1 {
        let j = p.y - y0;
        assert(col[j] == p);
        assert((prior + col)[prior.len() + j] == p);
    } else {
        lemma_grid_contains(x0, x1 - 1, y0, y1, p);
        let i = choose|i: int| 0 <= i < prior.len() && prior[i] == p;
        assert((prior + col)[i] == p);
    }
}

/// `p` lies in the inclusive box `[x0, x1] x [y0, y1]`.
pub open spec fn in_box(p: Point<i64>, x0: i64, x1: i64, y0: i64, y1: i64) -> bool {
    x0 <= p.x <= x1 && y0 <= p.y <= y1
}

/// The cells of the inclusive box `[x0, x1] x [y0, y1]` for which `keep`
/// holds, in the order of `grid`.
pub(crate) fn grid_cells_where<F: Fn(Point<i64>) -> bool>(
    x0: i64,
    x1: i64,
    y0: i64,
    y1: i64,
    keep: F,
    Ghost(pred): Ghost<spec_fn(Point<i64>) -> bool>,
) -> (r: Vec<Point<i64>>)
    requires
        in_limit(x0 as int),
        in_limit(x1 as int),
        in_limit(y0 as int),
        in_limit(y1 as int),
        forall|p: Point<i64>| in_box(p, x0, x1, y0, y1) ==> keep.requires((p,)),
        forall|p: Point<i64>, b: bool|
            in_box(p, x0, x1, y0, y1) && keep.ensures((p,), b) ==> b == pred(p),
    ensures
        r@ == grid(x0 as int, x1 + 1, y0 as int, y1 as int).filter(pred),
        forall|i: int| 0 <= i < r@.len() ==> in_box(#[trigger] r@[i], x0, x1, y0, y1),
{
    broadcast use vstd::seq_lib::group_filter_ensures;

    let mut r: Vec<Point<i64>> = Vec::new();
    let mut x: i64 = x0;
    while x <= x1
        invariant
            in_limit(x0 as int),
            in_limit(x1 as int),
            in_limit(y0 as int),
            in_limit(y1 as int),
            x == x0 || x <= x1 + 1,
            x0 <= x,
            forall|p: Point<i64>| in_box(p, x0, x1, y0, y1) ==> keep.requires((p,)),
            forall|p: Point<i64>, b: bool|
                in_box(p, x0, x1, y0, y1) && keep.ensures((p,), b) ==> b == pred(p),
            r@ == grid(x0 as int, x as int, y0 as int, y1 as int).filter(pred),
            forall|i: int| 0 <= i < r@.len() ==> in_box(#[trigger] r@[i], x0, x1, y0, y1),
        decreases x1 + 1 - x,
    {
        let ghost done = grid(x0 as int, x as int, y0 as int, y1 as int);
        let mut y: i64 = y0;
        while y <= y1
            invariant
                in_limit(y0 as int),
                in_limit(y1 as int),
                x0 <= x <= x1,
                y == y0 || y <= y1 + 1,
                y0 <= y,
                forall|p: Point<i64>| in_box(p, x0, x1, y0, y1) ==> keep.requires((p,)),
                forall|p: Point<i64>, b: bool|
                    in_box(p, x0, x1, y0, y1) && keep.ensures((p,), b) ==> b == pred(p),
                r@ == (done + column(x as int, y0 as int, (y - y0) as nat)).filter(pred),
                forall|i: int| 0 <= i < r@.len() ==> in_box(#[trigger] r@[i], x0, x1, y0, y1),
            decreases y1 + 1 - y,
        {
            let p = Point::new(x, y);
            let ghost before = done + column(x as int, y0 as int, (y - y0) as nat);
            assert(done + column(x as int, y0 as int, (y + 1 - y0) as nat) =~= before.push(p));
            proof {
                before.lemma_filter_push(p, pred);
            }
            assert(in_box(p, x0, x1, y0, y1));
            if keep(p) {
                r.push(p);
            }
            y = y + 1;
        }
        assert(column(x as int, y0 as int, (y - y0) as nat) =~= column(
            x as int,
            y0 as int,
            span_len(y0 as int, y1 as int),
        ));
        x = x + 1;
    }
    r
}

} // verus!
