use vstd::prelude::*;

use crate::grid::grid_height;
use crate::grid::grid_rectangular;
use crate::grid::grid_width;
use crate::grid::rows_view;
use crate::grid::ModuleGrid;
use crate::layout::generate_layout;
use crate::layout::layout_spec;
use crate::layout::LayoutParams;
use crate::layout::ShapeDescriptor;

verus! {

/// The modules of the QR code that encodes `data`, in row-major order
/// (`true` for dark), as the qrcode crate computes them. The encoding is a
/// fixed algorithm of the payload bytes alone; its value is not spelled out
/// here.
pub uninterp spec fn qr_flat_modules(data: Seq<u8>) -> Seq<bool>;

/// Whether the qrcode crate can encode `data` at all: its encoder accepts or
/// refuses a payload (too long) by the payload bytes alone, so success is as
/// deterministic as the modules themselves.
pub uninterp spec fn qr_encodes(data: Seq<u8>) -> bool;

/// A flat row-major module list cut into `w` rows of `w` cells.
pub open spec fn rows_of_flat(flat: Seq<bool>, w: int) -> Seq<Seq<bool>> {
    Seq::new(w as nat, |i: int| flat.subrange(i * w, (i + 1) * w))
}

/// Relies on qrcode::QrCode::new and qrcode::QrCode::to_colors: `new` either
/// refuses the payload (too long) or yields a symbol of a normal QR version,
/// square with 21 to 177 modules per side; `to_colors` lists its modules in
/// row-major order, and the whole encoding depends on the payload bytes
/// alone.
#[verifier::external_body]
fn qr_encode_flat(data: &Vec<u8>) -> (r: Option<(Vec<bool>, usize)>)
    ensures
        r is Some <==> qr_encodes(data@),
        r is Some ==> r->Some_0.0@ == qr_flat_modules(data@),
        r is Some ==> r->Some_0.0@.len() == r->Some_0.1 * r->Some_0.1,
        r is Some ==> 21 <= r->Some_0.1 <= 177,
{
    match qrcode::QrCode::new(data.as_slice()) {
        Ok(code) => {
            let width = code.width();
            let flat: Vec<bool> = code.to_colors().into_iter().map(
                |c|
                    match c {
                        qrcode::Color::Dark => true,
                        qrcode::Color::Light => false,
                    },
            ).collect();
            Some((flat, width))
        },
        Err(_) => None,
    }
}

/// Encodes a payload as a QR module grid. Returns `None` exactly when the
/// encoder refuses the payload; any returned grid is square, between 21 and
/// 177 modules per side, and holds the encoder's modules row by row.
#[verifier::loop_isolation(false)]
pub fn qr_module_grid(data: &Vec<u8>) -> (r: Option<ModuleGrid>)
    ensures
        r is Some <==> qr_encodes(data@),
        r is Some ==> r->Some_0.wf(),
        r is Some ==> grid_width(r->Some_0@) == grid_height(r->Some_0@),
        r is Some ==> 21 <= grid_height(r->Some_0@) <= 177,
        r is Some ==> grid_height(r->Some_0@) * grid_height(r->Some_0@) == qr_flat_modules(
            data@,
        ).len(),
        r is Some ==> r->Some_0@ == rows_of_flat(qr_flat_modules(data@), grid_height(r->Some_0@)),
{
    let enc = qr_encode_flat(data);
    match enc {
        None => None,
        Some((flat, width)) => {
            let mut rows: Vec<Vec<bool>> = Vec::new();
            let mut i: usize = 0;
            while i < width
                invariant
                    i <= width,
                    rows@.len() == i,
                    forall|k: int|
                        0 <= k < i ==> (#[trigger] rows@[k])@ == flat@.subrange(
                            k * width,
                            (k + 1) * width,
                        ),
                decreases width - i,
            {
                proof {
                    assert(i * width + width <= width * width && i * width <= 31329)
                        by (nonlinear_arith)
                        requires
                            i < width,
                            width <= 177,
                    ;
                    assert(0 <= i * width) by (nonlinear_arith)
                        requires
                            0 <= i,
                    ;
                }
                let base: usize = i * width;
                let mut row: Vec<bool> = Vec::new();
                let mut j: usize = 0;
                while j < width
                    invariant
                        j <= width,
                        row@ == flat@.subrange(base as int, base + j),
                    decreases width - j,
                {
                    row.push(flat[base + j]);
                    proof {
                        assert(row@ =~= flat@.subrange(base as int, base + j + 1));
                    }
                    j += 1;
                }
                rows.push(row);
                proof {
                    assert(rows@[i as int]@ == flat@.subrange(i * width, i * width + width));
                    assert((i + 1) * width == i * width + width) by (nonlinear_arith);
                }
                i += 1;
            }
            proof {
                assert forall|k: int| 0 <= k < rows_view(rows@).len() implies (
                #[trigger] rows_view(rows@)[k]).len() == width by {
                    assert(rows_view(rows@)[k] == rows@[k]@);
                    assert(0 <= k * width && k * width + width <= width * width && (k + 1) * width
                        == k * width + width) by (nonlinear_arith)
                        requires
                            0 <= k < width,
                    ;
                }
                assert(rows_view(rows@)[0] == rows@[0]@);
                assert(grid_rectangular(rows_view(rows@)));
            }
            match ModuleGrid::new(rows) {
                None => None,
                Some(g) => {
                    proof {
                        assert(grid_height(g@) == width);
                        assert(grid_width(g@) == width);
                        assert(g@ =~= rows_of_flat(qr_flat_modules(data@), width as int));
                    }
                    Some(g)
                },
            }
        },
    }
}

/// Encodes a payload and lays it out in one step: the grid the qrcode crate
/// produces for `data`, rendered by `generate_layout` under `params`.
/// Returns `None` exactly when the encoder refuses the payload.
pub fn layout_for_payload(data: &Vec<u8>, params: LayoutParams) -> (r: Option<
    Vec<ShapeDescriptor>,
>)
    requires
        params.wf(),
    ensures
        r is Some <==> qr_encodes(data@),
        r is Some ==> exists|w: int|
            21 <= w <= 177 && w * w == qr_flat_modules(data@).len() && r->Some_0@ == layout_spec(
                #[trigger] rows_of_flat(qr_flat_modules(data@), w),
                params,
            ),
{
    match qr_module_grid(data) {
        None => None,
        Some(g) => {
            let out = generate_layout(&g, params);
            proof {
                let w = grid_height(g@);
                assert(21 <= w <= 177 && w * w == qr_flat_modules(data@).len() && out@
                    == layout_spec(rows_of_flat(qr_flat_modules(data@), w), params));
            }
            Some(out)
        },
    }
}

} // verus!
