//! Device-state modes of the drawing context.
//!
//! Each enum mirrors one piece of ambient device state that the native
//! engine keeps: the polygon fill rule, the background mode for text, and
//! the binary raster operation combining pen and screen pixels.  The
//! `code` methods give the numeric value that the device interface speaks.

use vstd::prelude::*;

verus! {

/// How the interior of a polygon is determined when filling it.
#[derive(Debug, Clone, Copy, PartialEq, Eq, Hash, Structural)]
pub enum PolyFillMode {
    /// The even-odd rule: a point is inside when a ray from it crosses the
    /// boundary an odd number of times.
    Alternate,
    /// The winding rule: a point is inside when the boundary winds around
    /// it a net number of times other than zero.
    Winding,
}

impl PolyFillMode {
    /// The even-odd fill rule.
    pub fn alternate() -> (m: PolyFillMode)
        ensures
            m == PolyFillMode::Alternate,
    {
        PolyFillMode::Alternate
    }

    /// The winding fill rule.
    pub fn winding() -> (m: PolyFillMode)
        ensures
            m == PolyFillMode::Winding,
    {
        PolyFillMode::Winding
    }

    /// The numeric mode value of the device interface.
    pub fn code(&self) -> (v: i32)
        ensures
            v == self.spec_code(),
    {
        match self {
            PolyFillMode::Alternate => 1,
            PolyFillMode::Winding => 2,
        }
    }

    /// The numeric mode value of the device interface.
    pub open spec fn spec_code(self) -> i32 {
        match self {
            PolyFillMode::Alternate => 1,
            PolyFillMode::Winding => 2,
        }
    }

    /// The fill rule named by a device mode value, if any.
    pub fn from_code(code: i32) -> (m: Option<PolyFillMode>)
        ensures
            code == 1 ==> m == Some(PolyFillMode::Alternate),
            code == 2 ==> m == Some(PolyFillMode::Winding),
            code != 1 && code != 2 ==> m is None,
    {
        if code == 1 {
            Some(PolyFillMode::Alternate)
        } else if code == 2 {
            Some(PolyFillMode::Winding)
        } else {
            None
        }
    }
}

/// Whether drawing text and patterns paints the background first.
#[derive(Debug, Clone, Copy, PartialEq, Eq, Hash, Structural)]
pub enum BkMode {
    /// The background area is filled with the background color first.
    Opaque,
    /// The background is left as it is; only foreground pixels are drawn.
    Transparent,
}

impl BkMode {
    /// The opaque background mode.
    pub fn opaque() -> (m: BkMode)
        ensures
            m == BkMode::Opaque,
    {
        BkMode::Opaque
    }

    /// The transparent background mode.
    pub fn transparent() -> (m: BkMode)
        ensures
            m == BkMode::Transparent,
    {
        BkMode::Transparent
    }

    /// The numeric mode value of the device interface.
    pub fn code(&self) -> (v: i32)
        ensures
            v == self.spec_code(),
    {
        match self {
            BkMode::Opaque => 2,
            BkMode::Transparent => 1,
        }
    }

    /// The numeric mode value of the device interface.
    pub open spec fn spec_code(self) -> i32 {
        match self {
            BkMode::Opaque => 2,
            BkMode::Transparent => 1,
        }
    }

    /// The background mode named by a device mode value, if any.
    pub fn from_code(code: i32) -> (m: Option<BkMode>)
        ensures
            code == 2 ==> m == Some(BkMode::Opaque),
            code == 1 ==> m == Some(BkMode::Transparent),
            code != 1 && code != 2 ==> m is None,
    {
        if code == 2 {
            Some(BkMode::Opaque)
        } else if code == 1 {
            Some(BkMode::Transparent)
        } else {
            None
        }
    }
}

/// The binary raster operation: how a drawn pen pixel combines with the
/// screen pixel already there.
#[derive(Debug, Clone, Copy, PartialEq, Eq, Hash, Structural)]
pub enum Rop2 {
    /// Drawn pixel = black.
    Black,
    /// Drawn pixel = pen color.
    CopyPen,
    /// Drawn pixel = screen AND (NOT pen).
    MaskNotPen,
    /// Drawn pixel = screen AND pen.
    MaskPen,
    /// Drawn pixel = (NOT screen) AND pen.
    MaskPenNot,
    /// Drawn pixel = screen OR (NOT pen).
    MergeNotPen,
    /// Drawn pixel = screen OR pen.
    MergePen,
    /// Drawn pixel = (NOT screen) OR pen.
    MergePenNot,
    /// Drawn pixel = screen, unchanged.
    Nop,
    /// Drawn pixel = NOT screen.
    Not,
    /// Drawn pixel = NOT pen.
    NotCopyPen,
    /// Drawn pixel = NOT (screen AND pen).
    NotMaskPen,
    /// Drawn pixel = NOT (screen OR pen).
    NotMergePen,
    /// Drawn pixel = NOT (screen XOR pen).
    NotXorPen,
    /// Drawn pixel = white.
    White,
    /// Drawn pixel = screen XOR pen.
    XorPen,
}

impl Rop2 {
    /// The black raster operation.
    pub fn black() -> (m: Rop2)
        ensures
            m == Rop2::Black,
    {
        Rop2::Black
    }

    /// The pen-copy raster operation.
    pub fn copy_pen() -> (m: Rop2)
        ensures
            m == Rop2::CopyPen,
    {
        Rop2::CopyPen
    }

    /// The mask-not-pen raster operation.
    pub fn mask_not_pen() -> (m: Rop2)
        ensures
            m == Rop2::MaskNotPen,
    {
        Rop2::MaskNotPen
    }

    /// The mask-pen raster operation.
    pub fn mask_pen() -> (m: Rop2)
        ensures
            m == Rop2::MaskPen,
    {
        Rop2::MaskPen
    }

    /// The mask-pen-not raster operation.
    pub fn mask_pen_not() -> (m: Rop2)
        ensures
            m == Rop2::MaskPenNot,
    {
        Rop2::MaskPenNot
    }

    /// The merge-not-pen raster operation.
    pub fn merge_not_pen() -> (m: Rop2)
        ensures
            m == Rop2::MergeNotPen,
    {
        Rop2::MergeNotPen
    }

    /// The merge-pen raster operation.
    pub fn merge_pen() -> (m: Rop2)
        ensures
            m == Rop2::MergePen,
    {
        Rop2::MergePen
    }

    /// The merge-pen-not raster operation.
    pub fn merge_pen_not() -> (m: Rop2)
        ensures
            m == Rop2::MergePenNot,
    {
        Rop2::MergePenNot
    }

    /// The no-op raster operation.
    pub fn nop() -> (m: Rop2)
        ensures
            m == Rop2::Nop,
    {
        Rop2::Nop
    }

    /// The screen-invert raster operation.
    pub fn not() -> (m: Rop2)
        ensures
            m == Rop2::Not,
    {
        Rop2::Not
    }

    /// The not-copy-pen raster operation.
    pub fn not_copy_pen() -> (m: Rop2)
        ensures
            m == Rop2::NotCopyPen,
    {
        Rop2::NotCopyPen
    }

    /// The not-mask-pen raster operation.
    pub fn not_mask_pen() -> (m: Rop2)
        ensures
            m == Rop2::NotMaskPen,
    {
        Rop2::NotMaskPen
    }

    /// The not-merge-pen raster operation.
    pub fn not_merge_pen() -> (m: Rop2)
        ensures
            m == Rop2::NotMergePen,
    {
        Rop2::NotMergePen
    }

    /// The not-xor-pen raster operation.
    pub fn not_xor_pen() -> (m: Rop2)
        ensures
            m == Rop2::NotXorPen,
    {
        Rop2::NotXorPen
    }

    /// The white raster operation.
    pub fn white() -> (m: Rop2)
        ensures
            m == Rop2::White,
    {
        Rop2::White
    }

    /// The xor-pen raster operation.
    pub fn xor_pen() -> (m: Rop2)
        ensures
            m == Rop2::XorPen,
    {
        Rop2::XorPen
    }

    /// The numeric mode value of the device interface.
    pub open spec fn spec_code(self) -> i32 {
        match self {
            Rop2::Black => 1,
            Rop2::NotMergePen => 2,
            Rop2::MaskNotPen => 3,
            Rop2::NotCopyPen => 4,
            Rop2::MaskPenNot => 5,
            Rop2::Not => 6,
            Rop2::XorPen => 7,
            Rop2::NotMaskPen => 8,
            Rop2::MaskPen => 9,
            Rop2::NotXorPen => 10,
            Rop2::Nop => 11,
            Rop2::MergeNotPen => 12,
            Rop2::CopyPen => 13,
            Rop2::MergePenNot => 14,
            Rop2::MergePen => 15,
            Rop2::White => 16,
        }
    }

    /// The numeric mode value of the device interface.
    pub fn code(&self) -> (v: i32)
        ensures
            v == self.spec_code(),
    {
        match self {
            Rop2::Black => 1,
            Rop2::NotMergePen => 2,
            Rop2::MaskNotPen => 3,
            Rop2::NotCopyPen => 4,
            Rop2::MaskPenNot => 5,
            Rop2::Not => 6,
            Rop2::XorPen => 7,
            Rop2::NotMaskPen => 8,
            Rop2::MaskPen => 9,
            Rop2::NotXorPen => 10,
            Rop2::Nop => 11,
            Rop2::MergeNotPen => 12,
            Rop2::CopyPen => 13,
            Rop2::MergePenNot => 14,
            Rop2::MergePen => 15,
            Rop2::White => 16,
        }
    }

    /// The raster operation named by a device mode value, if any.
    pub fn from_code(code: i32) -> (m: Option<Rop2>)
        ensures
            1 <= code <= 16 ==> (m matches Some(r) && r.spec_code() == code),
            code < 1 || code > 16 ==> m is None,
    {
        if code == 1 {
            Some(Rop2::Black)
        } else if code == 2 {
            Some(Rop2::NotMergePen)
        } else if code == 3 {
            Some(Rop2::MaskNotPen)
        } else if code == 4 {
            Some(Rop2::NotCopyPen)
        } else if code == 5 {
            Some(Rop2::MaskPenNot)
        } else if code == 6 {
            Some(Rop2::Not)
        } else if code == 7 {
            Some(Rop2::XorPen)
        } else if code == 8 {
            Some(Rop2::NotMaskPen)
        } else if code == 9 {
            Some(Rop2::MaskPen)
        } else if code == 10 {
            Some(Rop2::NotXorPen)
        } else if code == 11 {
            Some(Rop2::Nop)
        } else if code == 12 {
            Some(Rop2::MergeNotPen)
        } else if code == 13 {
            Some(Rop2::CopyPen)
        } else if code == 14 {
            Some(Rop2::MergePenNot)
        } else if code == 15 {
            Some(Rop2::MergePen)
        } else if code == 16 {
            Some(Rop2::White)
        } else {
            None
        }
    }
}

} // verus!
