use vstd::prelude::*;

verus! {

/// Largest width or height a grid may have, so that every pixel coordinate
/// the layout computes stays well inside `i64`.
pub const MAX_GRID_DIM: usize = 65536;

/// The mathematical view of a grid: a sequence of rows, each a sequence of
/// module values (`true` is a dark module).
pub open spec fn rows_view(rs: Seq<Vec<bool>>) -> Seq<Seq<bool>> {
    rs.map(|_i: int, r: Vec<bool>| r@)
}

/// A grid is rectangular when it has at least one row, at least one column,
/// and every row has the same length as the first.
pub open spec fn grid_rectangular(g: Seq<Seq<bool>>) -> bool {
    &&& g.len() >= 1
    &&& g[0].len() >= 1
    &&& forall|i: int| 0 <= i < g.len() ==> (#[trigger] g[i]).len() == g[0].len()
}

pub open spec fn grid_width(g: Seq<Seq<bool>>) -> int {
    g[0].len() as int
}

pub open spec fn grid_height(g: Seq<Seq<bool>>) -> int {
    g.len() as int
}

/// A rectangular grid of QR modules; `true` marks a dark (foreground) module.
/// Rectangularity is established at construction and never changes.
pub struct ModuleGrid {
    rows: Vec<Vec<bool>>,
}

impl View for ModuleGrid {
    type V = Seq<Seq<bool>>;

    closed spec fn view(&self) -> Seq<Seq<bool>> {
        rows_view(self.rows@)
    }
}

impl ModuleGrid {
    /// Rectangular, with both dimensions small enough for exact coordinate
    /// arithmetic.
    pub open spec fn wf(&self) -> bool {
        &&& grid_rectangular(self@)
        &&& grid_width(self@) <= MAX_GRID_DIM
        &&& grid_height(self@) <= MAX_GRID_DIM
    }

    /// Builds a grid, accepting exactly the rectangular inputs within the
    /// dimension cap.
    pub fn new(rows: Vec<Vec<bool>>) -> (r: Option<ModuleGrid>)
        ensures
            r is Some <==> (grid_rectangular(rows_view(rows@))
                && grid_width(rows_view(rows@)) <= MAX_GRID_DIM
                && grid_height(rows_view(rows@)) <= MAX_GRID_DIM),
            r is Some ==> r->Some_0@ == rows_view(rows@) && r->Some_0.wf(),
    {
        if rows.len() == 0 || rows.len() > MAX_GRID_DIM {
            return None;
        }
        let w = rows[0].len();
        if w == 0 || w > MAX_GRID_DIM {
            return None;
        }
        let mut i: usize = 1;
        while i < rows.len()
            invariant
                1 <= i <= rows@.len(),
                w == rows@[0]@.len(),
                1 <= w <= MAX_GRID_DIM,
                rows@.len() <= MAX_GRID_DIM,
                forall|j: int| 0 <= j < i ==> (#[trigger] rows@[j])@.len() == w,
            decreases rows@.len() - i,
        {
            if rows[i].len() != w {
                proof {
                    assert(rows_view(rows@)[i as int] == rows@[i as int]@);
                    assert(rows_view(rows@)[0] == rows@[0]@);
                }
                return None;
            }
            i += 1;
        }
        proof {
            assert forall|j: int| 0 <= j < rows_view(rows@).len() implies (#[trigger] rows_view(
                rows@,
            )[j]).len() == rows_view(rows@)[0].len() by {
                assert(rows_view(rows@)[j] == rows@[j]@);
                assert(rows_view(rows@)[0] == rows@[0]@);
            }
        }
        Some(ModuleGrid { rows })
    }

    pub fn width(&self) -> (w: usize)
        requires
            self.wf(),
        ensures
            w == grid_width(self@),
    {
        self.rows[0].len()
    }

    pub fn height(&self) -> (h: usize)
        ensures
            h == grid_height(self@),
    {
        self.rows.len()
    }

    /// Whether the module at the given cell is dark.
    pub fn is_dark(&self, row: usize, col: usize) -> (d: bool)
        requires
            self.wf(),
            row < grid_height(self@),
            col < grid_width(self@),
        ensures
            d == self@[row as int][col as int],
    {
        proof {
            assert(self@[row as int] == self.rows@[row as int]@);
            assert(self@[0] == self.rows@[0]@);
        }
        self.rows[row][col]
    }
}

} // verus!
