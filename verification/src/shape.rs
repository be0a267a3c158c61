//! What the loop asks the renderer to paint, as plain values.

use vstd::prelude::*;

verus! {

/// The colours the loop paints with.
#[derive(Debug, Clone, Copy, PartialEq, Eq, Structural)]
pub enum Color {
    /// The background.
    White,
    Black,
    Red,
}

impl Color {
    /// The red, green and blue parts of the colour.
    pub fn rgb(&self) -> (parts: (u8, u8, u8))
        ensures
            parts == match *self {
                Color::White => (255u8, 255u8, 255u8),
                Color::Black => (0u8, 0u8, 0u8),
                Color::Red => (255u8, 0u8, 0u8),
            },
    {
        match self {
            Color::White => (255, 255, 255),
            Color::Black => (0, 0, 0),
            Color::Red => (255, 0, 0),
        }
    }
}

/// A filled circle: its centre, its radius and its colour.
#[derive(Debug, Clone, Copy, PartialEq, Eq, Structural)]
pub struct FilledCircle {
    pub x: i16,
    pub y: i16,
    pub radius: i16,
    pub color: Color,
}

/// A filled rectangle: its top left corner, its size and its colour.
#[derive(Debug, Clone, Copy, PartialEq, Eq, Structural)]
pub struct FilledRect {
    pub x: i32,
    pub y: i32,
    pub width: u32,
    pub height: u32,
    pub color: Color,
}

/// Whether `v` can be written as an `i16`.
pub open spec fn fits_i16(v: int) -> bool {
    i16::MIN <= v <= i16::MAX
}

/// The `i16` that has the low sixteen bits of `v`.
pub open spec fn wrap_i16(v: int) -> int {
    (v + 32768) % 65536 - 32768
}

/// Keeps the low sixteen bits of `v`.
pub fn low_i16(v: i32) -> (low: i16)
    ensures
        low == wrap_i16(v as int),
        fits_i16(v as int) ==> low == v,
{
    let shifted: i64 = v as i64 + 32768 + 0x8000_0000;
    (shifted % 65536 - 32768) as i16
}

/// `v` as an `i16`, where it is one.
pub fn to_i16(v: i32) -> (narrow: Option<i16>)
    ensures
        narrow == if fits_i16(v as int) {
            Some(v as i16)
        } else {
            None
        },
{
    if -32768 <= v && v <= 32767 {
        Some(v as i16)
    } else {
        None
    }
}

} // verus!
