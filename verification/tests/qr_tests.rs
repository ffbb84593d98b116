use qr_layout::layout::generate_layout;
use qr_layout::layout::LayoutParams;
use qr_layout::layout::ShapeColor;
use qr_layout::layout::ShapeKind;
use qr_layout::qr::layout_for_payload;
use qr_layout::qr::qr_module_grid;

#[test]
fn encoded_grid_is_square_standard_size() {
    let data: Vec<u8> = b"Merry christmas NERDS!".to_vec();
    let g = qr_module_grid(&data).expect("payload fits a QR code");
    let w = g.width();
    assert_eq!(w, g.height());
    assert!((21..=177).contains(&w));
    // Normal QR versions have 4v + 17 modules per side.
    assert_eq!((w - 17) % 4, 0);
    // The top-left finder pattern starts with a dark module.
    assert!(g.is_dark(0, 0));
}

#[test]
fn encoded_grid_is_deterministic() {
    let data: Vec<u8> = b"same payload".to_vec();
    let g1 = qr_module_grid(&data).expect("payload fits a QR code");
    let g2 = qr_module_grid(&data).expect("payload fits a QR code");
    assert_eq!(g1.width(), g2.width());
    for r in 0..g1.height() {
        for c in 0..g1.width() {
            assert_eq!(g1.is_dark(r, c), g2.is_dark(r, c));
        }
    }
}

#[test]
fn payload_layout_matches_grid_layout() {
    let data: Vec<u8> = b"Merry christmas NERDS!".to_vec();
    let p = LayoutParams::new(10, 7, 70).expect("positive sizes");
    let g = qr_module_grid(&data).expect("payload fits a QR code");
    let direct = generate_layout(&g, p);
    let combined = layout_for_payload(&data, p).expect("payload fits a QR code");
    assert_eq!(direct, combined);
}

#[test]
fn payload_layout_count() {
    let data: Vec<u8> = b"Merry christmas NERDS!".to_vec();
    let p = LayoutParams::new(10, 7, 70).expect("positive sizes");
    let g = qr_module_grid(&data).expect("payload fits a QR code");
    let w = g.width();
    let out = layout_for_payload(&data, p).expect("payload fits a QR code");
    // The exclusion spans 70/10 = 7 modules in each dimension, fully inside
    // any standard QR grid, so exactly 49 cells are dropped.
    assert_eq!(out.len(), 1 + w * w - 49);
    // The plate comes first; the next descriptor is the dark top-left finder
    // module, inside a corner zone.
    assert_eq!(out[0].color, ShapeColor::Background);
    assert_eq!(out[1].kind, ShapeKind::Square);
    assert_eq!(out[1].color, ShapeColor::Foreground);
}

#[test]
fn payload_layout_mixes_colors() {
    // A real QR code holds both dark and light modules, so the layout must
    // hold both foreground and background shapes after the plate.
    let data: Vec<u8> = b"mixed modules".to_vec();
    let p = LayoutParams::new(10, 7, 70).expect("positive sizes");
    let out = layout_for_payload(&data, p).expect("payload fits a QR code");
    let fg = out.iter().skip(1).filter(|d| d.color == ShapeColor::Foreground).count();
    let bg = out.iter().skip(1).filter(|d| d.color == ShapeColor::Background).count();
    assert!(fg > 0);
    assert!(bg > 0);
}

#[test]
fn oversized_payload_is_refused() {
    // Far beyond the capacity of the largest QR version.
    let data: Vec<u8> = vec![b'a'; 10000];
    assert!(qr_module_grid(&data).is_none());
    let p = LayoutParams::new(10, 7, 70).expect("positive sizes");
    assert!(layout_for_payload(&data, p).is_none());
}
