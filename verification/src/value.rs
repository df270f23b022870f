//! The small value types the graphics family passes around: a packed
//! colour, an integer rectangle, a window handle and a display orientation.

#![allow(non_snake_case)]

use vstd::prelude::*;

verus! {

/// XNA `Color`: four eight-bit channels.
#[derive(Clone, Copy, Debug, Default, Eq, Hash, PartialEq, Structural)]
pub struct Color {
    pub r: u8,
    pub g: u8,
    pub b: u8,
    pub a: u8,
}

impl Color {
    /// A colour from its four channels.
    pub fn from_rgba(r: u8, g: u8, b: u8, a: u8) -> (c: Self)
        ensures
            c == (Color { r, g, b, a }),
    {
        Color { r, g, b, a }
    }

    /// XNA `Color.White`: every channel full.
    pub fn White() -> (c: Self)
        ensures
            c == (Color { r: 255, g: 255, b: 255, a: 255 }),
    {
        Color { r: 255, g: 255, b: 255, a: 255 }
    }

    /// XNA `Color.R`.
    pub fn R(&self) -> (v: u8)
        ensures
            v == self.r,
    {
        self.r
    }

    /// XNA `Color.G`.
    pub fn G(&self) -> (v: u8)
        ensures
            v == self.g,
    {
        self.g
    }

    /// XNA `Color.B`.
    pub fn B(&self) -> (v: u8)
        ensures
            v == self.b,
    {
        self.b
    }

    /// XNA `Color.A`.
    pub fn A(&self) -> (v: u8)
        ensures
            v == self.a,
    {
        self.a
    }
}

/// XNA `Rectangle`: an integer position and size.
#[derive(Clone, Copy, Debug, Default, Eq, Hash, PartialEq, Structural)]
pub struct Rectangle {
    pub X: i32,
    pub Y: i32,
    pub Width: i32,
    pub Height: i32,
}

impl Rectangle {
    /// XNA `Rectangle(x, y, width, height)`.
    pub fn new(x: i32, y: i32, width: i32, height: i32) -> (r: Self)
        ensures
            r == (Rectangle { X: x, Y: y, Width: width, Height: height }),
    {
        Rectangle { X: x, Y: y, Width: width, Height: height }
    }
}

/// An opaque platform window handle, stored and handed back unchanged.
#[derive(Clone, Copy, Debug, Default, Eq, Hash, PartialEq, Structural)]
pub struct WindowHandle(pub u64);

/// XNA `DisplayOrientation`, an open set of orientation flags.
#[derive(Clone, Copy, Debug, Default, Eq, Hash, PartialEq, Structural)]
pub struct DisplayOrientation(pub i32);

impl DisplayOrientation {
    /// `DisplayOrientation.Default`: no orientation flag.
    pub fn Default() -> (r: Self)
        ensures
            r.0 == 0,
    {
        DisplayOrientation(0)
    }

    /// The orientation a flag word names.
    pub fn from_bits(bits: i32) -> (r: Self)
        ensures
            r.0 == bits,
    {
        DisplayOrientation(bits)
    }

    /// The orientation's flag word.
    pub fn bits(&self) -> (r: i32)
        ensures
            r == self.0,
    {
        self.0
    }
}

} // verus!
