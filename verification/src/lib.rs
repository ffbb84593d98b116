//! Maps a QR code's module grid to a list of styled 2D shape descriptors:
//! a full-grid backing plate, circles for data modules, squares for the
//! three corner-marker zones, and a cleared central zone reserved for an
//! overlay image. The layout pass is a pure, verified function; the QR
//! encoding itself comes from the qrcode crate behind a trusted boundary.

pub mod grid;
pub mod laws;
pub mod layout;
pub mod qr;
