//! Geometry values reported by the display server.

use vstd::prelude::*;

verus! {

/// A rectangle in server pixel coordinates: x origin, y origin, width and
/// height, in that order. It describes either a monitor's bounds or, by
/// convention, a window's geometry. Widths and heights are unsigned, so
/// they are non-negative by construction.
#[derive(Clone, Copy, PartialEq, Eq, Structural, Debug)]
pub struct Rectangle(pub u32, pub u32, pub u32, pub u32);

/// Pixel dimensions of one logical screen of the display server. Logical
/// screens are distinct from the monitors a multi-monitor extension
/// reports: the server may expose several independent screens in addition
/// to monitors within one screen, and this layer exposes both notions.
#[derive(Clone, Copy, PartialEq, Eq, Structural, Debug)]
pub struct ScreenSize {
    pub width: u32,
    pub height: u32,
}

} // verus!
