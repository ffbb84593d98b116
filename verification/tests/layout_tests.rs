use qr_layout::grid::ModuleGrid;
use qr_layout::layout::generate_layout;
use qr_layout::layout::LayoutParams;
use qr_layout::layout::ShapeColor;
use qr_layout::layout::ShapeDescriptor;
use qr_layout::layout::ShapeKind;

fn uniform_grid(width: usize, height: usize, dark: bool) -> ModuleGrid {
    let rows: Vec<Vec<bool>> = (0..height).map(|_| vec![dark; width]).collect();
    ModuleGrid::new(rows).expect("rectangular grid")
}

fn grid_from_rows(rows: Vec<Vec<bool>>) -> ModuleGrid {
    ModuleGrid::new(rows).expect("rectangular grid")
}

fn params(block: u64, corner: u64, center: u64) -> LayoutParams {
    LayoutParams::new(block, corner, center).expect("positive sizes")
}

#[test]
fn smallest_standard_qr_count() {
    // 21x21 grid, block 10, corner 7, center 70 pixels: the exclusion spans
    // modules [7,14) in both dimensions, so 49 cells are dropped.
    let g = uniform_grid(21, 21, true);
    let p = params(10, 7, 70);
    let out = generate_layout(&g, p);
    assert_eq!(out.len(), 1 + (21 * 21 - 49));
    assert_eq!(out.len(), 393);
}

#[test]
fn count_independent_of_pattern() {
    let dark = uniform_grid(21, 21, true);
    let light = uniform_grid(21, 21, false);
    let p = params(10, 7, 70);
    assert_eq!(generate_layout(&dark, p).len(), generate_layout(&light, p).len());
}

#[test]
fn plate_is_first_and_background() {
    let g = uniform_grid(21, 21, true);
    let p = params(10, 7, 70);
    let out = generate_layout(&g, p);
    let plate = out[0];
    assert_eq!(plate.kind, ShapeKind::Square);
    assert_eq!(plate.color, ShapeColor::Background);
    assert_eq!(plate.center_x2, 0);
    assert_eq!(plate.center_y2, 0);
    // Total extent 210 pixels in each dimension, doubled to 420.
    assert_eq!(plate.size_x2, 420);
    assert_eq!(plate.size_y2, 420);
}

#[test]
fn first_cell_position_and_shape() {
    let g = uniform_grid(21, 21, true);
    let p = params(10, 7, 70);
    let out = generate_layout(&g, p);
    // Row-major order: index 1 is cell (0,0), a corner-zone cell.
    let d = out[1];
    assert_eq!(d.kind, ShapeKind::Square);
    assert_eq!(d.color, ShapeColor::Foreground);
    // x = -total/2 + 0 = -105, y = total/2 - 0 = 105, doubled.
    assert_eq!(d.center_x2, -210);
    assert_eq!(d.center_y2, 210);
    assert_eq!(d.size_x2, 20);
    assert_eq!(d.size_y2, 20);
}

#[test]
fn corner_and_circle_counts() {
    let g = uniform_grid(21, 21, true);
    let p = params(10, 7, 70);
    let out = generate_layout(&g, p);
    let squares = out.iter().skip(1).filter(|d| d.kind == ShapeKind::Square).count();
    let circles = out.iter().skip(1).filter(|d| d.kind == ShapeKind::Circle).count();
    // Three 7x7 corner zones, none of them touching the center exclusion.
    assert_eq!(squares, 3 * 49);
    assert_eq!(circles, 392 - 3 * 49);
}

#[test]
fn no_descriptor_inside_center_zone() {
    let g = uniform_grid(21, 21, true);
    let p = params(10, 7, 70);
    let out = generate_layout(&g, p);
    // The excluded cells are rows [7,14) x cols [7,14); cell (r,c) sits at
    // doubled coordinates (20c - 210, 210 - 20r).
    for r in 7..14i64 {
        for c in 7..14i64 {
            let x2 = 20 * c - 210;
            let y2 = 210 - 20 * r;
            assert!(
                !out.iter().any(|d| d.center_x2 == x2 && d.center_y2 == y2),
                "descriptor emitted for excluded cell ({r},{c})"
            );
        }
    }
}

#[test]
fn colors_follow_darkness() {
    // 4x3 grid, alternating modules; corner zones of one cell; a center
    // exclusion smaller than one block excludes nothing.
    let rows: Vec<Vec<bool>> = vec![
        vec![true, false, true, false],
        vec![false, true, false, true],
        vec![true, true, false, false],
    ];
    let g = grid_from_rows(rows.clone());
    let p = params(5, 1, 1);
    let out = generate_layout(&g, p);
    assert_eq!(out.len(), 1 + 12);
    // Row-major after the plate: descriptor 1 + (r*4 + c) belongs to (r,c).
    for r in 0..3usize {
        for c in 0..4usize {
            let d = out[1 + r * 4 + c];
            let expected = if rows[r][c] { ShapeColor::Foreground } else { ShapeColor::Background };
            assert_eq!(d.color, expected, "cell ({r},{c})");
            // x2 = 2*c*5 - 4*5, y2 = 3*5 - 2*r*5.
            assert_eq!(d.center_x2, 10 * c as i64 - 20);
            assert_eq!(d.center_y2, 15 - 10 * r as i64);
        }
    }
}

#[test]
fn one_cell_corner_zones() {
    let rows: Vec<Vec<bool>> = vec![
        vec![true, false, true, false],
        vec![false, true, false, true],
        vec![true, true, false, false],
    ];
    let g = grid_from_rows(rows);
    let p = params(5, 1, 1);
    let out = generate_layout(&g, p);
    for r in 0..3usize {
        for c in 0..4usize {
            let d = out[1 + r * 4 + c];
            let corner = (r == 0 && c == 0) || (r == 0 && c == 3) || (r == 2 && c == 0);
            let expected = if corner { ShapeKind::Square } else { ShapeKind::Circle };
            assert_eq!(d.kind, expected, "cell ({r},{c})");
        }
    }
}

#[test]
fn single_cell_grid() {
    let g = uniform_grid(1, 1, true);
    let p = params(3, 1, 2);
    let out = generate_layout(&g, p);
    // Exclusion span 2/3 = 0: nothing excluded; the lone cell is in all
    // three corner zones at once, hence a square.
    assert_eq!(out.len(), 2);
    assert_eq!(out[1].kind, ShapeKind::Square);
    assert_eq!(out[1].color, ShapeColor::Foreground);
    assert_eq!(out[1].center_x2, -3);
    assert_eq!(out[1].center_y2, 3);
}

#[test]
fn oversized_center_excludes_everything() {
    let g = uniform_grid(3, 3, true);
    let p = params(1, 1, 100);
    let out = generate_layout(&g, p);
    // Span 100 covers every row and column: only the plate remains.
    assert_eq!(out.len(), 1);
}

#[test]
fn row_reversal_of_palindromic_grid() {
    // Rows read the same top-to-bottom and bottom-to-top.
    let rows: Vec<Vec<bool>> = vec![
        vec![true, false, true],
        vec![false, false, true],
        vec![true, true, true],
        vec![false, false, true],
        vec![true, false, true],
    ];
    let reversed: Vec<Vec<bool>> = rows.iter().rev().cloned().collect();
    let g1 = grid_from_rows(rows);
    let g2 = grid_from_rows(reversed);
    let p = params(4, 2, 8);
    let out1 = generate_layout(&g1, p);
    let out2 = generate_layout(&g2, p);
    assert_eq!(out1, out2);
}

#[test]
fn positions_have_no_collisions() {
    let g = uniform_grid(21, 21, true);
    let p = params(10, 7, 70);
    let out = generate_layout(&g, p);
    let mut positions: Vec<(i64, i64)> =
        out.iter().skip(1).map(|d| (d.center_x2, d.center_y2)).collect();
    let before = positions.len();
    positions.sort();
    positions.dedup();
    assert_eq!(positions.len(), before);
}

#[test]
fn positions_mirror_about_horizontal_midline() {
    // With block 10, corner 7 and center 70 on a 21-row grid the exclusion
    // band sits symmetrically: rows [7,14) mirror onto themselves. Every
    // emitted position must then have a partner with the same x and with y
    // reflected about the line one block below the top edge (doubled
    // coordinates: y2 -> 2*10 - y2).
    let g = uniform_grid(21, 21, true);
    let p = params(10, 7, 70);
    let out = generate_layout(&g, p);
    for d in out.iter().skip(1) {
        let mx = d.center_x2;
        let my = 20 - d.center_y2;
        assert!(
            out.iter().skip(1).any(|e| e.center_x2 == mx && e.center_y2 == my),
            "no mirror partner for ({}, {})",
            d.center_x2,
            d.center_y2
        );
    }
}

#[test]
fn layout_is_idempotent() {
    let rows: Vec<Vec<bool>> = (0..9).map(|r| (0..11).map(|c| (r + c) % 3 == 0).collect()).collect();
    let g1 = grid_from_rows(rows.clone());
    let g2 = grid_from_rows(rows);
    let p = params(7, 2, 21);
    let out1: Vec<ShapeDescriptor> = generate_layout(&g1, p);
    let out2: Vec<ShapeDescriptor> = generate_layout(&g2, p);
    assert_eq!(out1, out2);
}

#[test]
fn grid_rejects_ragged_rows() {
    let rows = vec![vec![true, false], vec![true]];
    assert!(ModuleGrid::new(rows).is_none());
}

#[test]
fn grid_rejects_empty() {
    assert!(ModuleGrid::new(Vec::new()).is_none());
    assert!(ModuleGrid::new(vec![Vec::new()]).is_none());
}

#[test]
fn params_reject_zero_sizes() {
    assert!(LayoutParams::new(0, 7, 70).is_none());
    assert!(LayoutParams::new(10, 0, 70).is_none());
    assert!(LayoutParams::new(10, 7, 0).is_none());
    assert!(LayoutParams::new(10, 7, 70).is_some());
}

#[test]
fn grid_accessors() {
    let g = grid_from_rows(vec![vec![true, false, true], vec![false, true, false]]);
    assert_eq!(g.width(), 3);
    assert_eq!(g.height(), 2);
    assert!(g.is_dark(0, 0));
    assert!(!g.is_dark(0, 1));
    assert!(!g.is_dark(1, 2));
}
