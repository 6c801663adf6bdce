//! Types of the render-surface interface.
//!
//! Creating and destroying the window, and every draw call, happen in the
//! native engine; these are the plain values that the calls are
//! parameterized with: a rectangle, the flood-fill mode, and the options
//! a surface is created with.

use vstd::prelude::*;

verus! {

/// An axis-aligned rectangle in device coordinates.
#[derive(Debug, Clone, Copy, PartialEq, Eq, Structural)]
pub struct RECT {
    /// The x coordinate of the left edge.
    pub left: i32,
    /// The y coordinate of the top edge.
    pub top: i32,
    /// The x coordinate of the right edge.
    pub right: i32,
    /// The y coordinate of the bottom edge.
    pub bottom: i32,
}

impl RECT {
    /// The rectangle with the given edges.
    pub fn new(left: i32, top: i32, right: i32, bottom: i32) -> (r: RECT)
        ensures
            r == (RECT { left, top, right, bottom }),
    {
        RECT { left, top, right, bottom }
    }
}

/// How a flood fill decides where to stop.
#[derive(Debug, Clone, Copy, PartialEq, Eq, Hash, Structural)]
pub enum FloodFillType {
    /// Fill outward until pixels of the given border color are met.
    Border,
    /// Fill the connected area of pixels that share the starting color.
    Surface,
}

impl FloodFillType {
    /// The numeric fill-type value of the device interface.
    pub open spec fn spec_code(self) -> i32 {
        match self {
            FloodFillType::Border => 0,
            FloodFillType::Surface => 1,
        }
    }

    /// The numeric fill-type value of the device interface.
    pub fn code(&self) -> (v: i32)
        ensures
            v == self.spec_code(),
    {
        match self {
            FloodFillType::Border => 0,
            FloodFillType::Surface => 1,
        }
    }
}

/// The options a render surface is created with; each may be set
/// independently of the others.
#[derive(Debug, Clone, Copy, PartialEq, Eq, Structural)]
pub struct InitFlags {
    /// Keep the console window visible beside the surface.
    pub show_console: bool,
    /// Disable the close button of the window.
    pub no_close: bool,
    /// Disable the minimize button of the window.
    pub no_minimize: bool,
    /// Deliver double-click messages.
    pub dbl_clks: bool,
}

impl InitFlags {
    /// No option set.
    pub fn none() -> (f: InitFlags)
        ensures
            f == (InitFlags {
                show_console: false,
                no_close: false,
                no_minimize: false,
                dbl_clks: false,
            }),
    {
        InitFlags { show_console: false, no_close: false, no_minimize: false, dbl_clks: false }
    }

    /// The combined flag bits of the native interface: the console bit is
    /// 1, the no-close bit 2, the no-minimize bit 4 and the double-click
    /// bit 8.
    pub fn bits(&self) -> (v: u32)
        ensures
            v == self.spec_bits(),
    {
        let a: u32 = if self.show_console {
            1
        } else {
            0
        };
        let b: u32 = if self.no_close {
            2
        } else {
            0
        };
        let c: u32 = if self.no_minimize {
            4
        } else {
            0
        };
        let d: u32 = if self.dbl_clks {
            8
        } else {
            0
        };
        a | b | c | d
    }

    /// The combined flag bits of the native interface.
    pub open spec fn spec_bits(self) -> u32 {
        (if self.show_console {
            1u32
        } else {
            0u32
        }) | (if self.no_close {
            2u32
        } else {
            0u32
        }) | (if self.no_minimize {
            4u32
        } else {
            0u32
        }) | (if self.dbl_clks {
            8u32
        } else {
            0u32
        })
    }
}

} // verus!
