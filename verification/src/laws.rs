use vstd::prelude::*;

use crate::grid::grid_height;
use crate::grid::grid_rectangular;
use crate::grid::grid_width;
use crate::grid::MAX_GRID_DIM;
use crate::layout::cell_descriptor;
use crate::layout::cell_x2;
use crate::layout::cell_y2;
use crate::layout::center_left;
use crate::layout::center_span;
use crate::layout::center_top;
use crate::layout::grid_prefix;
use crate::layout::in_center_zone;
use crate::layout::in_corner_zone;
use crate::layout::layout_spec;
use crate::layout::plate_descriptor;
use crate::layout::row_prefix;
use crate::layout::LayoutParams;
use crate::layout::ShapeColor;
use crate::layout::ShapeKind;

verus! {

/// The well-formedness that `generate_layout` asks of its inputs, stated over
/// the mathematical view of the grid.
pub open spec fn layout_inputs_wf(g: Seq<Seq<bool>>, p: LayoutParams) -> bool {
    &&& grid_rectangular(g)
    &&& grid_width(g) <= MAX_GRID_DIM
    &&& grid_height(g) <= MAX_GRID_DIM
    &&& p.wf()
}

/// How many of the first `col` cells of `row` lie in the central exclusion
/// zone.
pub open spec fn excluded_in_row_prefix(
    g: Seq<Seq<bool>>,
    p: LayoutParams,
    row: int,
    col: int,
) -> int
    decreases col,
{
    if col <= 0 {
        0
    } else {
        excluded_in_row_prefix(g, p, row, col - 1) + (if in_center_zone(g, p, row, col - 1) {
            1int
        } else {
            0int
        })
    }
}

/// How many cells of the first `row` full rows lie in the central exclusion
/// zone.
pub open spec fn excluded_prefix(g: Seq<Seq<bool>>, p: LayoutParams, row: int) -> int
    decreases row,
{
    if row <= 0 {
        0
    } else {
        excluded_prefix(g, p, row - 1) + excluded_in_row_prefix(g, p, row - 1, grid_width(g))
    }
}

/// How many grid cells lie in the central exclusion zone.
pub open spec fn excluded_count(g: Seq<Seq<bool>>, p: LayoutParams) -> int {
    excluded_prefix(g, p, grid_height(g))
}

proof fn lemma_row_prefix_len(g: Seq<Seq<bool>>, p: LayoutParams, row: int, col: int)
    requires
        0 <= col,
    ensures
        row_prefix(g, p, row, col).len() == col - excluded_in_row_prefix(g, p, row, col),
    decreases col,
{
    if col > 0 {
        lemma_row_prefix_len(g, p, row, col - 1);
    }
}

proof fn lemma_grid_prefix_len(g: Seq<Seq<bool>>, p: LayoutParams, row: int)
    requires
        0 <= row,
    ensures
        grid_prefix(g, p, row).len() == row * grid_width(g) - excluded_prefix(g, p, row),
    decreases row,
{
    if row > 0 {
        lemma_grid_prefix_len(g, p, row - 1);
        lemma_row_prefix_len(g, p, row - 1, grid_width(g));
        assert((row - 1) * grid_width(g) + grid_width(g) == row * grid_width(g))
            by (nonlinear_arith);
    } else {
        assert(row * grid_width(g) == 0) by (nonlinear_arith)
            requires
                row == 0,
        ;
    }
}

/// The layout of a W-by-H grid holds exactly `1 + W * H - excluded_count`
/// descriptors: the backing plate, plus one per cell outside the central
/// exclusion zone.
pub proof fn lemma_layout_len(g: Seq<Seq<bool>>, p: LayoutParams)
    requires
        grid_rectangular(g),
    ensures
        layout_spec(g, p).len() == 1 + grid_width(g) * grid_height(g) - excluded_count(g, p),
{
    lemma_grid_prefix_len(g, p, grid_height(g));
    assert(grid_height(g) * grid_width(g) == grid_width(g) * grid_height(g)) by (nonlinear_arith);
}

proof fn lemma_coord_range(g: Seq<Seq<bool>>, p: LayoutParams, row: int, col: int)
    requires
        layout_inputs_wf(g, p),
        0 <= row <= grid_height(g),
        0 <= col <= grid_width(g),
    ensures
        i64::MIN <= cell_x2(g, p, col) <= i64::MAX,
        i64::MIN <= cell_y2(g, p, row) <= i64::MAX,
{
    let b = p.block_size as int;
    let w = grid_width(g);
    let h = grid_height(g);
    assert(-(0x7fffffffffffffffint) <= 2 * col * b - w * b <= 0x7fffffffffffffff
        && -(0x7fffffffffffffffint) <= h * b - 2 * row * b <= 0x7fffffffffffffff)
        by (nonlinear_arith)
        requires
            0 <= col <= 65536,
            0 <= row <= 65536,
            1 <= w <= 65536,
            1 <= h <= 65536,
            1 <= b <= 1000000,
    ;
}

proof fn lemma_x2_monotonic(g: Seq<Seq<bool>>, p: LayoutParams, c1: int, c2: int)
    requires
        p.block_size >= 1,
    ensures
        cell_x2(g, p, c1) <= cell_x2(g, p, c2) <==> c1 <= c2,
        cell_x2(g, p, c1) < cell_x2(g, p, c2) <==> c1 < c2,
{
    let b = p.block_size as int;
    let w = grid_width(g);
    assert(((2 * c1 * b - w * b <= 2 * c2 * b - w * b) <==> c1 <= c2) && ((2 * c1 * b - w * b < 2
        * c2 * b - w * b) <==> c1 < c2))
        by (nonlinear_arith)
        requires
            b >= 1,
    ;
}

proof fn lemma_y2_monotonic(g: Seq<Seq<bool>>, p: LayoutParams, r1: int, r2: int)
    requires
        p.block_size >= 1,
    ensures
        cell_y2(g, p, r1) >= cell_y2(g, p, r2) <==> r1 <= r2,
        cell_y2(g, p, r1) > cell_y2(g, p, r2) <==> r1 < r2,
{
    let b = p.block_size as int;
    let h = grid_height(g);
    assert(((h * b - 2 * r1 * b >= h * b - 2 * r2 * b) <==> r1 <= r2) && ((h * b - 2 * r1 * b > h
        * b - 2 * r2 * b) <==> r1 < r2))
        by (nonlinear_arith)
        requires
            b >= 1,
    ;
}

proof fn lemma_row_prefix_origin(g: Seq<Seq<bool>>, p: LayoutParams, row: int, col: int, k: int)
    requires
        0 <= k < row_prefix(g, p, row, col).len(),
    ensures
        exists|c: int|
            0 <= c < col && !in_center_zone(g, p, row, c) && row_prefix(g, p, row, col)[k]
                == cell_descriptor(g, p, row, c),
    decreases col,
{
    let s = row_prefix(g, p, row, col);
    let prev = row_prefix(g, p, row, col - 1);
    if k < prev.len() {
        lemma_row_prefix_origin(g, p, row, col - 1, k);
        let c = choose|c: int|
            0 <= c < col - 1 && !in_center_zone(g, p, row, c) && prev[k] == cell_descriptor(
                g,
                p,
                row,
                c,
            );
        assert(0 <= c < col && !in_center_zone(g, p, row, c) && s[k] == cell_descriptor(
            g,
            p,
            row,
            c,
        ));
    } else {
        assert(0 <= col - 1 < col && !in_center_zone(g, p, row, col - 1) && s[k]
            == cell_descriptor(g, p, row, col - 1));
    }
}

proof fn lemma_grid_prefix_origin(g: Seq<Seq<bool>>, p: LayoutParams, row: int, k: int)
    requires
        0 <= k < grid_prefix(g, p, row).len(),
    ensures
        exists|r: int, c: int|
            0 <= r < row && 0 <= c < grid_width(g) && !in_center_zone(g, p, r, c) && grid_prefix(
                g,
                p,
                row,
            )[k] == cell_descriptor(g, p, r, c),
    decreases row,
{
    let s = grid_prefix(g, p, row);
    let prev = grid_prefix(g, p, row - 1);
    if k < prev.len() {
        lemma_grid_prefix_origin(g, p, row - 1, k);
        let (r, c) = choose|r: int, c: int|
            0 <= r < row - 1 && 0 <= c < grid_width(g) && !in_center_zone(g, p, r, c) && prev[k]
                == cell_descriptor(g, p, r, c);
        assert(0 <= r < row && 0 <= c < grid_width(g) && !in_center_zone(g, p, r, c) && s[k]
            == cell_descriptor(g, p, r, c));
    } else {
        lemma_row_prefix_origin(g, p, row - 1, grid_width(g), k - prev.len());
        let c = choose|c: int|
            0 <= c < grid_width(g) && !(#[trigger] in_center_zone(g, p, row - 1, c)) && row_prefix(
                g,
                p,
                row - 1,
                grid_width(g),
            )[k - prev.len()] == cell_descriptor(g, p, row - 1, c);
        assert(0 <= row - 1 < row && 0 <= c < grid_width(g) && !in_center_zone(g, p, row - 1, c)
            && s[k] == cell_descriptor(g, p, row - 1, c));
    }
}

/// Every descriptor after the backing plate is the descriptor of some grid
/// cell outside the central exclusion zone.
pub proof fn lemma_descriptor_origin(g: Seq<Seq<bool>>, p: LayoutParams, i: int)
    requires
        1 <= i < layout_spec(g, p).len(),
    ensures
        exists|r: int, c: int|
            0 <= r < grid_height(g) && 0 <= c < grid_width(g) && !in_center_zone(g, p, r, c)
                && layout_spec(g, p)[i] == cell_descriptor(g, p, r, c),
{
    lemma_grid_prefix_origin(g, p, grid_height(g), i - 1);
    let (r, c) = choose|r: int, c: int|
        0 <= r < grid_height(g) && 0 <= c < grid_width(g) && !in_center_zone(g, p, r, c)
            && grid_prefix(g, p, grid_height(g))[i - 1] == cell_descriptor(g, p, r, c);
    assert(0 <= r < grid_height(g) && 0 <= c < grid_width(g) && !in_center_zone(g, p, r, c)
        && layout_spec(g, p)[i] == cell_descriptor(g, p, r, c));
}

proof fn lemma_row_prefix_contains(g: Seq<Seq<bool>>, p: LayoutParams, row: int, c: int, col: int)
    requires
        0 <= c < col,
        !in_center_zone(g, p, row, c),
    ensures
        row_prefix(g, p, row, col).contains(cell_descriptor(g, p, row, c)),
    decreases col,
{
    let s = row_prefix(g, p, row, col);
    let prev = row_prefix(g, p, row, col - 1);
    let d = cell_descriptor(g, p, row, c);
    if c == col - 1 {
        assert(s[prev.len() as int] == d);
    } else {
        lemma_row_prefix_contains(g, p, row, c, col - 1);
        let i = choose|i: int| 0 <= i < prev.len() && prev[i] == d;
        assert(s[i] == d);
    }
}

proof fn lemma_grid_prefix_contains(g: Seq<Seq<bool>>, p: LayoutParams, r: int, c: int, row: int)
    requires
        0 <= r < row,
        0 <= c < grid_width(g),
        !in_center_zone(g, p, r, c),
    ensures
        grid_prefix(g, p, row).contains(cell_descriptor(g, p, r, c)),
    decreases row,
{
    let s = grid_prefix(g, p, row);
    let prev = grid_prefix(g, p, row - 1);
    let d = cell_descriptor(g, p, r, c);
    if r == row - 1 {
        lemma_row_prefix_contains(g, p, r, c, grid_width(g));
        let i = choose|i: int|
            0 <= i < row_prefix(g, p, r, grid_width(g)).len() && row_prefix(
                g,
                p,
                r,
                grid_width(g),
            )[i] == d;
        assert(s[prev.len() + i] == d);
    } else {
        lemma_grid_prefix_contains(g, p, r, c, row - 1);
        let i = choose|i: int| 0 <= i < prev.len() && prev[i] == d;
        assert(s[i] == d);
    }
}

/// Every cell outside the central exclusion zone contributes its descriptor
/// to the layout: a square in a corner zone, a circle everywhere else, and
/// foreground color exactly when the module is dark.
pub proof fn lemma_cell_descriptor_present(g: Seq<Seq<bool>>, p: LayoutParams, row: int, col: int)
    requires
        grid_rectangular(g),
        0 <= row < grid_height(g),
        0 <= col < grid_width(g),
        !in_center_zone(g, p, row, col),
    ensures
        layout_spec(g, p).contains(cell_descriptor(g, p, row, col)),
        cell_descriptor(g, p, row, col).kind == ShapeKind::Square <==> in_corner_zone(
            g,
            p,
            row,
            col,
        ),
        cell_descriptor(g, p, row, col).color == ShapeColor::Foreground <==> g[row][col],
{
    lemma_grid_prefix_contains(g, p, row, col, grid_height(g));
    let d = cell_descriptor(g, p, row, col);
    let s = grid_prefix(g, p, grid_height(g));
    let i = choose|i: int| 0 <= i < s.len() && s[i] == d;
    assert(layout_spec(g, p)[1 + i] == d);
}

/// The descriptor at index 0 is the backing plate: a background-colored
/// square centered on the origin, spanning the whole grid.
pub proof fn lemma_plate_first(g: Seq<Seq<bool>>, p: LayoutParams)
    ensures
        layout_spec(g, p)[0] == plate_descriptor(g, p),
        plate_descriptor(g, p).kind == ShapeKind::Square,
        plate_descriptor(g, p).color == ShapeColor::Background,
        plate_descriptor(g, p).center_x2 == 0,
        plate_descriptor(g, p).center_y2 == 0,
{
}

/// The pixel bounds of the central exclusion zone, on doubled coordinates:
/// the half-open span of the excluded columns' centers, and likewise for the
/// excluded rows (y decreases as the row grows).
pub open spec fn pos_in_center_pixels(
    g: Seq<Seq<bool>>,
    p: LayoutParams,
    x2: int,
    y2: int,
) -> bool {
    &&& cell_x2(g, p, center_left(g, p)) <= x2
    &&& x2 < cell_x2(g, p, center_left(g, p) + center_span(p))
    &&& y2 <= cell_y2(g, p, center_top(g, p))
    &&& y2 > cell_y2(g, p, center_top(g, p) + center_span(p))
}

/// No descriptor after the backing plate has its center inside the central
/// exclusion zone's pixel bounds.
pub proof fn lemma_no_descriptor_in_center(g: Seq<Seq<bool>>, p: LayoutParams, i: int)
    requires
        layout_inputs_wf(g, p),
        1 <= i < layout_spec(g, p).len(),
    ensures
        !pos_in_center_pixels(
            g,
            p,
            layout_spec(g, p)[i].center_x2 as int,
            layout_spec(g, p)[i].center_y2 as int,
        ),
{
    lemma_descriptor_origin(g, p, i);
    let (r, c) = choose|r: int, c: int|
        0 <= r < grid_height(g) && 0 <= c < grid_width(g) && !in_center_zone(g, p, r, c)
            && layout_spec(g, p)[i] == cell_descriptor(g, p, r, c);
    lemma_coord_range(g, p, r, c);
    assert(layout_spec(g, p)[i].center_x2 as int == cell_x2(g, p, c));
    assert(layout_spec(g, p)[i].center_y2 as int == cell_y2(g, p, r));
    lemma_x2_monotonic(g, p, center_left(g, p), c);
    lemma_x2_monotonic(g, p, c, center_left(g, p) + center_span(p));
    lemma_y2_monotonic(g, p, center_top(g, p), r);
    lemma_y2_monotonic(g, p, r, center_top(g, p) + center_span(p));
}

proof fn lemma_row_prefix_positions(g: Seq<Seq<bool>>, p: LayoutParams, row: int, col: int)
    requires
        layout_inputs_wf(g, p),
        0 <= row <= grid_height(g),
        0 <= col <= grid_width(g),
    ensures
        forall|k: int|
            0 <= k < row_prefix(g, p, row, col).len() ==> (#[trigger] row_prefix(
                g,
                p,
                row,
                col,
            )[k]).center_y2 as int == cell_y2(g, p, row),
        forall|k: int|
            0 <= k < row_prefix(g, p, row, col).len() ==> ((#[trigger] row_prefix(
                g,
                p,
                row,
                col,
            )[k]).center_x2 as int) < cell_x2(g, p, col),
        forall|k1: int, k2: int|
            0 <= k1 < k2 < row_prefix(g, p, row, col).len() ==> ((row_prefix(g, p, row, col)[k1])
                .center_x2 as int) < ((row_prefix(g, p, row, col)[k2]).center_x2 as int),
    decreases col,
{
    if col > 0 {
        lemma_row_prefix_positions(g, p, row, col - 1);
        lemma_x2_monotonic(g, p, col - 1, col);
        lemma_coord_range(g, p, row, col - 1);
        let s = row_prefix(g, p, row, col);
        let prev = row_prefix(g, p, row, col - 1);
        if !in_center_zone(g, p, row, col - 1) {
            assert(s[prev.len() as int] == cell_descriptor(g, p, row, col - 1));
            assert((s[prev.len() as int]).center_x2 as int == cell_x2(g, p, col - 1));
            assert((s[prev.len() as int]).center_y2 as int == cell_y2(g, p, row));
        }
        assert forall|k: int| 0 <= k < s.len() implies ((#[trigger] s[k]).center_x2 as int)
            < cell_x2(g, p, col) by {
            if k < prev.len() {
                assert(s[k] == prev[k]);
            }
        }
    }
}

proof fn lemma_grid_prefix_positions(g: Seq<Seq<bool>>, p: LayoutParams, row: int)
    requires
        layout_inputs_wf(g, p),
        0 <= row <= grid_height(g),
    ensures
        forall|k: int|
            0 <= k < grid_prefix(g, p, row).len() ==> (#[trigger] grid_prefix(g, p, row)[k])
                .center_y2 as int > cell_y2(g, p, row),
        forall|k1: int, k2: int|
            0 <= k1 < k2 < grid_prefix(g, p, row).len() ==> ((grid_prefix(g, p, row)[k1]).center_y2
                as int > (grid_prefix(g, p, row)[k2]).center_y2 as int || ((grid_prefix(
                g,
                p,
                row,
            )[k1]).center_y2 == (grid_prefix(g, p, row)[k2]).center_y2 && ((grid_prefix(
                g,
                p,
                row,
            )[k1]).center_x2 as int) < ((grid_prefix(g, p, row)[k2]).center_x2 as int))),
    decreases row,
{
    if row > 0 {
        lemma_grid_prefix_positions(g, p, row - 1);
        lemma_row_prefix_positions(g, p, row - 1, grid_width(g));
        lemma_y2_monotonic(g, p, row - 1, row);
        let s = grid_prefix(g, p, row);
        let prev = grid_prefix(g, p, row - 1);
        let last = row_prefix(g, p, row - 1, grid_width(g));
        assert forall|k: int| 0 <= k < s.len() implies (#[trigger] s[k]).center_y2 as int
            > cell_y2(g, p, row) by {
            if k < prev.len() {
                assert(s[k] == prev[k]);
            } else {
                assert(s[k] == last[k - prev.len()]);
            }
        }
        assert forall|k1: int, k2: int| 0 <= k1 < k2 < s.len() implies ((s[k1]).center_y2 as int
            > (s[k2]).center_y2 as int || ((s[k1]).center_y2 == (s[k2]).center_y2 && ((s[k1])
            .center_x2 as int) < ((s[k2]).center_x2 as int))) by {
            if k1 < prev.len() {
                assert(s[k1] == prev[k1]);
            } else {
                assert(s[k1] == last[k1 - prev.len()]);
            }
            if k2 < prev.len() {
                assert(s[k2] == prev[k2]);
            } else {
                assert(s[k2] == last[k2 - prev.len()]);
            }
        }
    }
}

/// Distinct descriptors after the backing plate sit at distinct positions:
/// the emitted cells never collide on the canvas.
pub proof fn lemma_positions_distinct(g: Seq<Seq<bool>>, p: LayoutParams, i: int, j: int)
    requires
        layout_inputs_wf(g, p),
        1 <= i < j < layout_spec(g, p).len(),
    ensures
        layout_spec(g, p)[i].center_x2 != layout_spec(g, p)[j].center_x2 || layout_spec(
            g,
            p,
        )[i].center_y2 != layout_spec(g, p)[j].center_y2,
{
    lemma_grid_prefix_positions(g, p, grid_height(g));
    let s = grid_prefix(g, p, grid_height(g));
    assert(layout_spec(g, p)[i] == s[i - 1]);
    assert(layout_spec(g, p)[j] == s[j - 1]);
}

/// The grid with its row order reversed.
pub open spec fn reversed_rows(g: Seq<Seq<bool>>) -> Seq<Seq<bool>> {
    Seq::new(g.len(), |i: int| g[g.len() - 1 - i])
}

/// Row `i` always equals row `height - 1 - i`.
pub open spec fn palindromic_by_rows(g: Seq<Seq<bool>>) -> bool {
    forall|i: int| 0 <= i < g.len() ==> #[trigger] g[i] == g[g.len() - 1 - i]
}

/// Reversing the row order of a grid that is palindromic by rows leaves the
/// layout unchanged: the offset arithmetic treats top and bottom alike.
pub proof fn lemma_row_reversal_symmetry(g: Seq<Seq<bool>>, p: LayoutParams)
    requires
        palindromic_by_rows(g),
    ensures
        layout_spec(reversed_rows(g), p) == layout_spec(g, p),
{
    assert(reversed_rows(g) =~= g);
}

/// When the central exclusion band is symmetric about the grid's horizontal
/// midline, the emitted cells are mirror-symmetric in the row direction:
/// cell `(H-1-row, col)` is emitted exactly when `(row, col)` is, at the
/// y-mirrored position (x unchanged, y reflected about the row-center line
/// one block below the top edge). The offset arithmetic therefore treats top
/// and bottom alike for every width-height combination.
pub proof fn lemma_mirror_positions(g: Seq<Seq<bool>>, p: LayoutParams, row: int, col: int)
    requires
        grid_rectangular(g),
        0 <= row < grid_height(g),
        0 <= col < grid_width(g),
        2 * center_top(g, p) + center_span(p) == grid_height(g),
    ensures
        in_center_zone(g, p, grid_height(g) - 1 - row, col) == in_center_zone(g, p, row, col),
        cell_y2(g, p, grid_height(g) - 1 - row) == 2 * (p.block_size as int) - cell_y2(g, p, row),
{
    let b = p.block_size as int;
    let h = grid_height(g);
    assert(cell_y2(g, p, h - 1 - row) == h * b - 2 * (h - 1 - row) * b);
    assert(cell_y2(g, p, row) == h * b - 2 * row * b);
    assert(h * b - 2 * (h - 1 - row) * b == 2 * b - (h * b - 2 * row * b)) by (nonlinear_arith);
}

/// Two layout runs on equal inputs return equal descriptor sequences: the
/// layout is a pure function of the grid and the parameters.
pub proof fn lemma_layout_deterministic(
    g1: Seq<Seq<bool>>,
    p1: LayoutParams,
    g2: Seq<Seq<bool>>,
    p2: LayoutParams,
)
    requires
        g1 == g2,
        p1 == p2,
    ensures
        layout_spec(g1, p1) == layout_spec(g2, p2),
{
}

} // verus!
