use vstd::prelude::*;

use crate::grid::grid_height;
use crate::grid::grid_rectangular;
use crate::grid::grid_width;
use crate::grid::ModuleGrid;

verus! {

/// Caps on the layout parameters, chosen so that every coordinate the layout
/// computes stays well inside `i64`.
pub const MAX_BLOCK_SIZE: u64 = 1000000;

pub const MAX_CORNER_MARKER: u64 = 1000000;

pub const MAX_CENTER_EXCLUSION: u64 = 1000000000000;

#[derive(Clone, Copy, PartialEq, Eq, Structural, Debug)]
pub enum ShapeKind {
    Circle,
    Square,
}

#[derive(Clone, Copy, PartialEq, Eq, Structural, Debug)]
pub enum ShapeColor {
    Foreground,
    Background,
}

/// One drawable unit handed to a renderer.
///
/// Coordinates and sizes are stored doubled: a length of one pixel is
/// recorded as `2`. The grid is centered on the origin, and when its total
/// pixel extent is odd the true center falls on a half pixel, so the doubled
/// scale keeps every value an exact integer.
#[derive(Clone, Copy, PartialEq, Eq, Structural, Debug)]
pub struct ShapeDescriptor {
    pub kind: ShapeKind,
    pub color: ShapeColor,
    /// Twice the x coordinate of the shape's center; x grows to the right.
    pub center_x2: i64,
    /// Twice the y coordinate of the shape's center; y grows upward.
    pub center_y2: i64,
    /// Twice the shape's horizontal extent (circle diameter or edge length).
    pub size_x2: i64,
    /// Twice the shape's vertical extent.
    pub size_y2: i64,
}

/// Layout configuration for one call; immutable once built.
#[derive(Clone, Copy, PartialEq, Eq, Structural, Debug)]
pub struct LayoutParams {
    /// Pixel pitch between adjacent module centers; also the circle diameter
    /// and the square edge length of the per-module shapes.
    pub block_size: u64,
    /// Edge length, in modules, of the three corner-marker zones.
    pub corner_marker_size: u64,
    /// Edge length, in pixels, of the central exclusion zone.
    pub center_exclusion_size: u64,
}

impl LayoutParams {
    /// All three sizes positive and within the caps.
    pub open spec fn wf(&self) -> bool {
        &&& 1 <= self.block_size <= MAX_BLOCK_SIZE
        &&& 1 <= self.corner_marker_size <= MAX_CORNER_MARKER
        &&& 1 <= self.center_exclusion_size <= MAX_CENTER_EXCLUSION
    }

    /// Builds a parameter set, accepting exactly the positive sizes within
    /// the caps.
    pub fn new(block_size: u64, corner_marker_size: u64, center_exclusion_size: u64) -> (r:
        Option<LayoutParams>)
        ensures
            r is Some <==> (1 <= block_size <= MAX_BLOCK_SIZE && 1 <= corner_marker_size
                <= MAX_CORNER_MARKER && 1 <= center_exclusion_size <= MAX_CENTER_EXCLUSION),
            r is Some ==> r->Some_0 == (LayoutParams {
                block_size,
                corner_marker_size,
                center_exclusion_size,
            }),
    {
        if 1 <= block_size && block_size <= MAX_BLOCK_SIZE && 1 <= corner_marker_size
            && corner_marker_size <= MAX_CORNER_MARKER && 1 <= center_exclusion_size
            && center_exclusion_size <= MAX_CENTER_EXCLUSION {
            Some(LayoutParams { block_size, corner_marker_size, center_exclusion_size })
        } else {
            None
        }
    }
}

/// How many modules the central exclusion zone spans in each dimension:
/// its pixel size divided by the pixel pitch, floored.
pub open spec fn center_span(p: LayoutParams) -> int {
    p.center_exclusion_size as int / p.block_size as int
}

/// First excluded column.
pub open spec fn center_left(g: Seq<Seq<bool>>, p: LayoutParams) -> int {
    grid_width(g) / 2 - center_span(p) / 2
}

/// First excluded row.
pub open spec fn center_top(g: Seq<Seq<bool>>, p: LayoutParams) -> int {
    grid_height(g) / 2 - center_span(p) / 2
}

/// Whether the cell lies in the central exclusion zone: no descriptor is
/// emitted for such a cell.
pub open spec fn in_center_zone(g: Seq<Seq<bool>>, p: LayoutParams, row: int, col: int) -> bool {
    &&& center_top(g, p) <= row < center_top(g, p) + center_span(p)
    &&& center_left(g, p) <= col < center_left(g, p) + center_span(p)
}

/// Whether the cell lies in one of the three corner-marker zones: top-left,
/// top-right, bottom-left. There is deliberately no bottom-right zone,
/// matching the three finder patterns of a QR code.
pub open spec fn in_corner_zone(g: Seq<Seq<bool>>, p: LayoutParams, row: int, col: int) -> bool {
    let k = p.corner_marker_size as int;
    ||| (row < k && col < k)
    ||| (row < k && col >= grid_width(g) - k)
    ||| (row >= grid_height(g) - k && col < k)
}

/// Twice the x coordinate of the center of column `col`:
/// `2 * (-total_width / 2 + col * block_size)`.
pub open spec fn cell_x2(g: Seq<Seq<bool>>, p: LayoutParams, col: int) -> int {
    2 * col * (p.block_size as int) - grid_width(g) * (p.block_size as int)
}

/// Twice the y coordinate of the center of row `row`:
/// `2 * (total_height / 2 - row * block_size)`.
pub open spec fn cell_y2(g: Seq<Seq<bool>>, p: LayoutParams, row: int) -> int {
    grid_height(g) * (p.block_size as int) - 2 * row * (p.block_size as int)
}

/// The descriptor emitted for one grid cell: a square in a corner zone and a
/// circle elsewhere, foreground-colored exactly for a dark module.
pub open spec fn cell_descriptor(
    g: Seq<Seq<bool>>,
    p: LayoutParams,
    row: int,
    col: int,
) -> ShapeDescriptor {
    ShapeDescriptor {
        kind: if in_corner_zone(g, p, row, col) {
            ShapeKind::Square
        } else {
            ShapeKind::Circle
        },
        color: if g[row][col] {
            ShapeColor::Foreground
        } else {
            ShapeColor::Background
        },
        center_x2: cell_x2(g, p, col) as i64,
        center_y2: cell_y2(g, p, row) as i64,
        size_x2: (2 * (p.block_size as int)) as i64,
        size_y2: (2 * (p.block_size as int)) as i64,
    }
}

/// The full-canvas backing plate: always a background-colored square over the
/// whole grid, centered on the origin.
pub open spec fn plate_descriptor(g: Seq<Seq<bool>>, p: LayoutParams) -> ShapeDescriptor {
    ShapeDescriptor {
        kind: ShapeKind::Square,
        color: ShapeColor::Background,
        center_x2: 0,
        center_y2: 0,
        size_x2: (2 * grid_width(g) * (p.block_size as int)) as i64,
        size_y2: (2 * grid_height(g) * (p.block_size as int)) as i64,
    }
}

/// The descriptors of the first `col` cells of `row`, in column order,
/// skipping cells in the central exclusion zone.
pub open spec fn row_prefix(
    g: Seq<Seq<bool>>,
    p: LayoutParams,
    row: int,
    col: int,
) -> Seq<ShapeDescriptor>
    decreases col,
{
    if col <= 0 {
        Seq::empty()
    } else {
        row_prefix(g, p, row, col - 1) + (if in_center_zone(g, p, row, col - 1) {
            Seq::empty()
        } else {
            seq![cell_descriptor(g, p, row, col - 1)]
        })
    }
}

/// The descriptors of the first `row` full rows, in row-major order.
pub open spec fn grid_prefix(g: Seq<Seq<bool>>, p: LayoutParams, row: int) -> Seq<ShapeDescriptor>
    decreases row,
{
    if row <= 0 {
        Seq::empty()
    } else {
        grid_prefix(g, p, row - 1) + row_prefix(g, p, row - 1, grid_width(g))
    }
}

/// The whole layout: the backing plate first, then one descriptor per cell
/// outside the central exclusion zone, in row-major order.
pub open spec fn layout_spec(g: Seq<Seq<bool>>, p: LayoutParams) -> Seq<ShapeDescriptor> {
    seq![plate_descriptor(g, p)] + grid_prefix(g, p, grid_height(g))
}

proof fn lemma_mul_bounds(a: int, b: int, amax: int, bmax: int)
    by (nonlinear_arith)
    requires
        0 <= a <= amax,
        0 <= b <= bmax,
    ensures
        0 <= a * b <= amax * bmax,
{
}

/// Maps a module grid to drawable shapes: a backing plate, then one shape per
/// cell outside the central exclusion zone, row by row.
#[verifier::loop_isolation(false)]
pub fn generate_layout(grid: &ModuleGrid, params: LayoutParams) -> (out: Vec<ShapeDescriptor>)
    requires
        grid.wf(),
        params.wf(),
    ensures
        out@ == layout_spec(grid@, params),
{
    let w = grid.width();
    let h = grid.height();
    let b: i64 = params.block_size as i64;
    let wi: i64 = w as i64;
    let hi: i64 = h as i64;
    proof {
        lemma_mul_bounds(wi as int, b as int, 65536, 1000000);
        lemma_mul_bounds(hi as int, b as int, 65536, 1000000);
        lemma_mul_bounds(2 * wi as int, b as int, 131072, 1000000);
        lemma_mul_bounds(2 * hi as int, b as int, 131072, 1000000);
    }
    let total_w2: i64 = 2 * wi * b;
    let total_h2: i64 = 2 * hi * b;
    let span: i64 = (params.center_exclusion_size / params.block_size) as i64;
    let cl: i64 = wi / 2 - span / 2;
    let ct: i64 = hi / 2 - span / 2;
    let k: i64 = params.corner_marker_size as i64;

    let mut out: Vec<ShapeDescriptor> = Vec::new();
    out.push(
        ShapeDescriptor {
            kind: ShapeKind::Square,
            color: ShapeColor::Background,
            center_x2: 0,
            center_y2: 0,
            size_x2: total_w2,
            size_y2: total_h2,
        },
    );
    proof {
        assert(out@ =~= seq![plate_descriptor(grid@, params)] + grid_prefix(grid@, params, 0));
    }

    let mut row: usize = 0;
    while row < h
        invariant
            row <= h,
            out@ == seq![plate_descriptor(grid@, params)] + grid_prefix(grid@, params, row as int),
        decreases h - row,
    {
        let ri: i64 = row as i64;
        let mut col: usize = 0;
        while col < w
            invariant
                col <= w,
                out@ == seq![plate_descriptor(grid@, params)] + grid_prefix(
                    grid@,
                    params,
                    row as int,
                ) + row_prefix(grid@, params, row as int, col as int),
            decreases w - col,
        {
            let ci: i64 = col as i64;
            let in_center = ri >= ct && ri < ct + span && ci >= cl && ci < cl + span;
            proof {
                assert(in_center == in_center_zone(grid@, params, row as int, col as int));
            }
            if !in_center {
                let is_corner = (ri < k && ci < k) || (ri < k && ci >= wi - k) || (ri >= hi - k
                    && ci < k);
                let dark = grid.is_dark(row, col);
                proof {
                    lemma_mul_bounds(2 * ci as int, b as int, 131072, 1000000);
                    lemma_mul_bounds(2 * ri as int, b as int, 131072, 1000000);
                }
                let x2: i64 = 2 * ci * b - wi * b;
                let y2: i64 = hi * b - 2 * ri * b;
                let d = ShapeDescriptor {
                    kind: if is_corner {
                        ShapeKind::Square
                    } else {
                        ShapeKind::Circle
                    },
                    color: if dark {
                        ShapeColor::Foreground
                    } else {
                        ShapeColor::Background
                    },
                    center_x2: x2,
                    center_y2: y2,
                    size_x2: 2 * b,
                    size_y2: 2 * b,
                };
                proof {
                    assert(is_corner == in_corner_zone(grid@, params, row as int, col as int));
                    assert(d == cell_descriptor(grid@, params, row as int, col as int));
                }
                out.push(d);
            }
            col += 1;
            proof {
                assert(out@ =~= seq![plate_descriptor(grid@, params)] + grid_prefix(
                    grid@,
                    params,
                    row as int,
                ) + row_prefix(grid@, params, row as int, col as int));
            }
        }
        row += 1;
        proof {
            assert(grid_prefix(grid@, params, row as int) == grid_prefix(
                grid@,
                params,
                row as int - 1,
            ) + row_prefix(grid@, params, row as int - 1, grid_width(grid@)));
            assert(out@ =~= seq![plate_descriptor(grid@, params)] + grid_prefix(
                grid@,
                params,
                row as int,
            ));
        }
    }
    proof {
        assert(out@ =~= layout_spec(grid@, params));
    }
    out
}

} // verus!
