//! The RGB color model used by the drawing API.
//!
//! A `Color` wraps the 32-bit color value that the native engine consumes.
//! The red component sits in bits 16..24, green in bits 8..16 and blue in
//! bits 0..8 of the value.

use vstd::prelude::*;

verus! {

/// A 32-bit color value, laid out as `0x00RRGGBB`.
#[derive(Debug, Copy, Clone, PartialEq, Eq, Hash, Structural)]
pub struct Color {
    value: u32,
}

impl View for Color {
    type V = u32;

    closed spec fn view(&self) -> u32 {
        self.value
    }
}

impl Color {
    /// The color with the given raw value, for use in specifications.
    pub closed spec fn spec_from(value: u32) -> Color {
        Color { value }
    }

    /// Packs the three components into a color value.
    pub fn new(r: u8, g: u8, b: u8) -> (c: Color)
        ensures
            c@ == ((r as u32) << 16) | ((g as u32) << 8) | (b as u32),
            c == Color::spec_from(((r as u32) << 16) | ((g as u32) << 8) | (b as u32)),
    {
        Color { value: ((r as u32) << 16) | ((g as u32) << 8) | (b as u32) }
    }

    /// Wraps a raw color value unchanged.
    pub fn from_colorref(value: u32) -> (c: Color)
        ensures
            c@ == value,
            c == Color::spec_from(value),
    {
        Color { value }
    }

    /// The raw color value.
    pub fn as_colorref(&self) -> (v: u32)
        ensures
            v == self@,
    {
        self.value
    }

    /// The red component.
    pub fn r(&self) -> (v: u8)
        ensures
            v == ((self@ >> 16) & 0xFF) as u8,
    {
        ((self.value >> 16) & 0xFF) as u8
    }

    /// The green component.
    pub fn g(&self) -> (v: u8)
        ensures
            v == ((self@ >> 8) & 0xFF) as u8,
    {
        ((self.value >> 8) & 0xFF) as u8
    }

    /// The blue component.
    pub fn b(&self) -> (v: u8)
        ensures
            v == (self@ & 0xFF) as u8,
    {
        (self.value & 0xFF) as u8
    }
}

/// The raw value of a specification-level color is the value it was made
/// from.
pub proof fn lemma_spec_from(value: u32)
    ensures
        Color::spec_from(value)@ == value,
{
}

impl Color {
    /// Black, from the classic sixteen-color palette of the engine.
    pub fn black() -> (c: Color)
        ensures
            c == Color::spec_from(0x000000),
    {
        Color { value: 0x000000 }
    }

    /// Blue, from the classic palette.
    pub fn blue() -> (c: Color)
        ensures
            c == Color::spec_from(0xAA0000),
    {
        Color { value: 0xAA0000 }
    }

    /// Green, from the classic palette.
    pub fn green() -> (c: Color)
        ensures
            c == Color::spec_from(0x00AA00),
    {
        Color { value: 0x00AA00 }
    }

    /// Cyan, from the classic palette.
    pub fn cyan() -> (c: Color)
        ensures
            c == Color::spec_from(0xAAAA00),
    {
        Color { value: 0xAAAA00 }
    }

    /// Red, from the classic palette.
    pub fn red() -> (c: Color)
        ensures
            c == Color::spec_from(0x0000AA),
    {
        Color { value: 0x0000AA }
    }

    /// Magenta, from the classic palette.
    pub fn magenta() -> (c: Color)
        ensures
            c == Color::spec_from(0xAA00AA),
    {
        Color { value: 0xAA00AA }
    }

    /// Brown, from the classic palette.
    pub fn brown() -> (c: Color)
        ensures
            c == Color::spec_from(0x0055AA),
    {
        Color { value: 0x0055AA }
    }

    /// Light gray, from the classic palette.
    pub fn light_gray() -> (c: Color)
        ensures
            c == Color::spec_from(0xAAAAAA),
    {
        Color { value: 0xAAAAAA }
    }

    /// Dark gray, from the classic palette.
    pub fn dark_gray() -> (c: Color)
        ensures
            c == Color::spec_from(0x555555),
    {
        Color { value: 0x555555 }
    }

    /// Light blue, from the classic palette.
    pub fn light_blue() -> (c: Color)
        ensures
            c == Color::spec_from(0xFF5555),
    {
        Color { value: 0xFF5555 }
    }

    /// Light green, from the classic palette.
    pub fn light_green() -> (c: Color)
        ensures
            c == Color::spec_from(0x55FF55),
    {
        Color { value: 0x55FF55 }
    }

    /// Light cyan, from the classic palette.
    pub fn light_cyan() -> (c: Color)
        ensures
            c == Color::spec_from(0xFFFF55),
    {
        Color { value: 0xFFFF55 }
    }

    /// Light red, from the classic palette.
    pub fn light_red() -> (c: Color)
        ensures
            c == Color::spec_from(0x5555FF),
    {
        Color { value: 0x5555FF }
    }

    /// Light magenta, from the classic palette.
    pub fn light_magenta() -> (c: Color)
        ensures
            c == Color::spec_from(0xFF55FF),
    {
        Color { value: 0xFF55FF }
    }

    /// Yellow, from the classic palette.
    pub fn yellow() -> (c: Color)
        ensures
            c == Color::spec_from(0x55FFFF),
    {
        Color { value: 0x55FFFF }
    }

    /// White, from the classic palette.
    pub fn white() -> (c: Color)
        ensures
            c == Color::spec_from(0xFFFFFF),
    {
        Color { value: 0xFFFFFF }
    }
}

/// Two colors are equal exactly when their raw values are equal.
pub proof fn lemma_color_eq(a: Color, b: Color)
    ensures
        a == b <==> a@ == b@,
{
}

/// Packing three components and reading them back returns the components:
/// `new` and the accessors `r`, `g`, `b` invert each other.
pub proof fn lemma_new_components(r: u8, g: u8, b: u8)
    ensures
        ((((r as u32) << 16) | ((g as u32) << 8) | (b as u32)) >> 16) & 0xFF == r,
        ((((r as u32) << 16) | ((g as u32) << 8) | (b as u32)) >> 8) & 0xFF == g,
        (((r as u32) << 16) | ((g as u32) << 8) | (b as u32)) & 0xFF == b,
{
    assert(((((r as u32) << 16) | ((g as u32) << 8) | (b as u32)) >> 16) & 0xFF == r)
        by (bit_vector);
    assert(((((r as u32) << 16) | ((g as u32) << 8) | (b as u32)) >> 8) & 0xFF == g)
        by (bit_vector);
    assert((((r as u32) << 16) | ((g as u32) << 8) | (b as u32)) & 0xFF == b)
        by (bit_vector);
}

} // verus!
