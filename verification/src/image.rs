//! Raster operation codes and errors of the image interface.
//!
//! Image pixels themselves live in the native engine; this module holds
//! the ternary raster-operation codes that image blits are parameterized
//! with, and the errors that loading an image can report.

use vstd::prelude::*;

verus! {

/// A ternary raster operation for image blits: how source, destination
/// and pattern pixels combine.  `Other` carries any further code of the
/// native code space unchanged.
#[derive(Debug, Copy, Clone, PartialEq, Eq, Hash, Structural)]
pub enum Rop {
    /// Destination = black.
    Blackness,
    /// Destination = NOT (source OR destination).
    NotSrcErase,
    /// Destination = NOT source.
    NotSrcCopy,
    /// Destination = NOT destination.
    DstInvert,
    /// Destination = destination XOR pattern.
    PatInvert,
    /// Destination = source XOR destination.
    SrcInvert,
    /// Destination = source AND destination.
    SrcAnd,
    /// Destination = (NOT source) OR destination.
    MergePaint,
    /// Destination = source AND pattern.
    MergeCopy,
    /// Destination = source.
    SrcCopy,
    /// Destination = source OR destination.
    SrcPaint,
    /// Destination = pattern.
    PatCopy,
    /// Any other code, carried unchanged.
    Other(u32),
}

impl Rop {
    /// The numeric code of this raster operation.
    pub open spec fn spec_code(self) -> u32 {
        match self {
            Rop::Blackness => 0x00000042,
            Rop::NotSrcErase => 0x001100A6,
            Rop::NotSrcCopy => 0x00330008,
            Rop::DstInvert => 0x00550009,
            Rop::PatInvert => 0x005A0049,
            Rop::SrcInvert => 0x00660046,
            Rop::SrcAnd => 0x008800C6,
            Rop::MergePaint => 0x00BB0226,
            Rop::MergeCopy => 0x00C000CA,
            Rop::SrcCopy => 0x00CC0020,
            Rop::SrcPaint => 0x00EE0086,
            Rop::PatCopy => 0x00F00021,
            Rop::Other(code) => code,
        }
    }

    /// The raster operation named by a numeric code; codes with no name
    /// of their own come back as `Other`.
    pub open spec fn spec_of_code(code: u32) -> Rop {
        if code == 0x00000042 {
            Rop::Blackness
        } else if code == 0x001100A6 {
            Rop::NotSrcErase
        } else if code == 0x00330008 {
            Rop::NotSrcCopy
        } else if code == 0x00550009 {
            Rop::DstInvert
        } else if code == 0x005A0049 {
            Rop::PatInvert
        } else if code == 0x00660046 {
            Rop::SrcInvert
        } else if code == 0x008800C6 {
            Rop::SrcAnd
        } else if code == 0x00BB0226 {
            Rop::MergePaint
        } else if code == 0x00C000CA {
            Rop::MergeCopy
        } else if code == 0x00CC0020 {
            Rop::SrcCopy
        } else if code == 0x00EE0086 {
            Rop::SrcPaint
        } else if code == 0x00F00021 {
            Rop::PatCopy
        } else {
            Rop::Other(code)
        }
    }

    /// The numeric code of this raster operation.
    pub fn as_u32(&self) -> (v: u32)
        ensures
            v == self.spec_code(),
    {
        match self {
            Rop::Blackness => 0x00000042,
            Rop::NotSrcErase => 0x001100A6,
            Rop::NotSrcCopy => 0x00330008,
            Rop::DstInvert => 0x00550009,
            Rop::PatInvert => 0x005A0049,
            Rop::SrcInvert => 0x00660046,
            Rop::SrcAnd => 0x008800C6,
            Rop::MergePaint => 0x00BB0226,
            Rop::MergeCopy => 0x00C000CA,
            Rop::SrcCopy => 0x00CC0020,
            Rop::SrcPaint => 0x00EE0086,
            Rop::PatCopy => 0x00F00021,
            Rop::Other(code) => *code,
        }
    }

    /// The raster operation named by a numeric code.
    pub fn from_u32(code: u32) -> (r: Rop)
        ensures
            r == Rop::spec_of_code(code),
    {
        if code == 0x00000042 {
            Rop::Blackness
        } else if code == 0x001100A6 {
            Rop::NotSrcErase
        } else if code == 0x00330008 {
            Rop::NotSrcCopy
        } else if code == 0x00550009 {
            Rop::DstInvert
        } else if code == 0x005A0049 {
            Rop::PatInvert
        } else if code == 0x00660046 {
            Rop::SrcInvert
        } else if code == 0x008800C6 {
            Rop::SrcAnd
        } else if code == 0x00BB0226 {
            Rop::MergePaint
        } else if code == 0x00C000CA {
            Rop::MergeCopy
        } else if code == 0x00CC0020 {
            Rop::SrcCopy
        } else if code == 0x00EE0086 {
            Rop::SrcPaint
        } else if code == 0x00F00021 {
            Rop::PatCopy
        } else {
            Rop::Other(code)
        }
    }
}

/// Naming the raster operation of any code and reading the code back
/// gives the code: the mapping between codes and named operations is
/// lossless over the whole code space.
pub proof fn lemma_rop_round_trip(code: u32)
    ensures
        Rop::spec_of_code(code).spec_code() == code,
{
}

/// An error of an image operation, decoded from the native error code.
#[derive(Debug, Clone, Copy, PartialEq, Eq, Structural)]
pub enum ImageError {
    /// The named file does not exist.
    FileNotFound,
    /// The named resource does not exist.
    ResourceNotFound,
    /// Any other failure, with its native error code.
    Unknown(i32),
}

impl ImageError {
    /// The error decoded from a native error code.  Code `0` means
    /// success and names no error.
    pub fn from_code(code: i32) -> (e: ImageError)
        requires
            code != 0,
        ensures
            code == 2 ==> e == ImageError::FileNotFound,
            code == 5007 ==> e == ImageError::ResourceNotFound,
            code != 2 && code != 5007 ==> e == ImageError::Unknown(code),
    {
        if code == 2 {
            ImageError::FileNotFound
        } else if code == 5007 {
            ImageError::ResourceNotFound
        } else {
            ImageError::Unknown(code)
        }
    }
}

} // verus!
