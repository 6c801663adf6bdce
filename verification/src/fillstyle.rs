//! Fill styles of the drawing context.
//!
//! A fill style decides how closed figures are filled: with the solid
//! fill color, not at all, with a hatch pattern, or with an 8x8 bit
//! pattern.  Fills drawn from a whole native image are applied by the
//! engine directly and have no model here.

use vstd::prelude::*;

verus! {

/// A hatch pattern for pattern fills.
#[derive(Debug, Clone, Copy, PartialEq, Eq, Hash, Structural)]
pub enum Hatch {
    /// Horizontal lines.
    Horizontal,
    /// Vertical lines.
    Vertical,
    /// Downward diagonal lines.
    FDiagonal,
    /// Upward diagonal lines.
    BDiagonal,
    /// A horizontal and vertical cross.
    Cross,
    /// A diagonal cross.
    DiagCross,
}

impl Hatch {
    /// The numeric hatch value of the device interface.
    pub open spec fn spec_code(self) -> i32 {
        match self {
            Hatch::Horizontal => 0,
            Hatch::Vertical => 1,
            Hatch::FDiagonal => 2,
            Hatch::BDiagonal => 3,
            Hatch::Cross => 4,
            Hatch::DiagCross => 5,
        }
    }

    /// The numeric hatch value of the device interface.
    pub fn code(&self) -> (v: i32)
        ensures
            v == self.spec_code(),
    {
        match self {
            Hatch::Horizontal => 0,
            Hatch::Vertical => 1,
            Hatch::FDiagonal => 2,
            Hatch::BDiagonal => 3,
            Hatch::Cross => 4,
            Hatch::DiagCross => 5,
        }
    }

    /// The hatch pattern named by a device value, if any.
    pub fn from_code(code: i32) -> (h: Option<Hatch>)
        ensures
            0 <= code <= 5 ==> (h matches Some(p) && p.spec_code() == code),
            code < 0 || code > 5 ==> h is None,
    {
        if code == 0 {
            Some(Hatch::Horizontal)
        } else if code == 1 {
            Some(Hatch::Vertical)
        } else if code == 2 {
            Some(Hatch::FDiagonal)
        } else if code == 3 {
            Some(Hatch::BDiagonal)
        } else if code == 4 {
            Some(Hatch::Cross)
        } else if code == 5 {
            Some(Hatch::DiagCross)
        } else {
            None
        }
    }
}

/// A fill style of the drawing context.
#[derive(Debug, Clone, Copy, PartialEq, Eq)]
pub enum FillStyle {
    /// A solid fill with the current fill color.
    Solid,
    /// No fill at all.
    Null,
    /// A hatch-pattern fill.
    Hatched(Hatch),
    /// A fill from an 8x8 bit pattern: each set bit paints the fill
    /// color, each clear bit is transparent.
    Pattern8x8([u8; 8]),
}

impl FillStyle {
    /// A solid fill.
    pub fn solid() -> (s: FillStyle)
        ensures
            s == FillStyle::Solid,
    {
        FillStyle::Solid
    }

    /// No fill.
    pub fn null() -> (s: FillStyle)
        ensures
            s == FillStyle::Null,
    {
        FillStyle::Null
    }

    /// A hatch-pattern fill.
    pub fn hatched(hatch: Hatch) -> (s: FillStyle)
        ensures
            s == FillStyle::Hatched(hatch),
    {
        FillStyle::Hatched(hatch)
    }

    /// An 8x8 bit-pattern fill.
    pub fn pattern8x8(pattern8x8: [u8; 8]) -> (s: FillStyle)
        ensures
            s == FillStyle::Pattern8x8(pattern8x8),
    {
        FillStyle::Pattern8x8(pattern8x8)
    }


    /// The fill style read back from the device's style and hatch codes.
    /// Style codes 3 and 5 of the device interface carry a native image
    /// and have no model here; they and every unnamed code give `None`.
    pub fn from_device(style: i32, hatch: i32) -> (r: Option<FillStyle>)
        ensures
            style == 0 ==> r == Some(FillStyle::Solid),
            style == 1 ==> r == Some(FillStyle::Null),
            style == 2 && 0 <= hatch <= 5 ==> (r matches Some(f) && f matches
                FillStyle::Hatched(h) && h.spec_code() == hatch),
            style == 2 && !(0 <= hatch <= 5) ==> r is None,
            !(0 <= style <= 2) ==> r is None,
    {
        if style == 0 {
            Some(FillStyle::Solid)
        } else if style == 1 {
            Some(FillStyle::Null)
        } else if style == 2 {
            match Hatch::from_code(hatch) {
                Some(h) => Some(FillStyle::Hatched(h)),
                None => None,
            }
        } else {
            None
        }
    }

    /// The numeric style value of the device interface.
    pub open spec fn spec_style(self) -> i32 {
        match self {
            FillStyle::Solid => 0,
            FillStyle::Null => 1,
            FillStyle::Hatched(_) => 2,
            FillStyle::Pattern8x8(_) => 3,
        }
    }

    /// The numeric style value of the device interface.
    pub fn get_style(&self) -> (v: i32)
        ensures
            v == self.spec_style(),
    {
        match self {
            FillStyle::Solid => 0,
            FillStyle::Null => 1,
            FillStyle::Hatched(_) => 2,
            FillStyle::Pattern8x8(_) => 3,
        }
    }

    /// The hatch pattern of a hatched fill, `None` for any other style.
    pub fn as_hatch(&self) -> (h: Option<&Hatch>)
        ensures
            (self matches FillStyle::Hatched(p) ==> h == Some(p)),
            !(*self is Hatched) ==> h is None,
    {
        match self {
            FillStyle::Hatched(hatch) => Some(hatch),
            _ => None,
        }
    }

    /// Replaces the hatch pattern of a hatched fill; any other style is
    /// left as it is.
    pub fn set_hatch(&mut self, hatch: Hatch)
        ensures
            (*old(self)) is Hatched ==> *final(self) == FillStyle::Hatched(hatch),
            !((*old(self)) is Hatched) ==> *final(self) == *old(self),
    {
        if let FillStyle::Hatched(h) = self {
            *h = hatch;
        }
    }
}

} // verus!
