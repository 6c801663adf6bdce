//! The logical font description used for text drawing.
//!
//! A `LogFont` mirrors the logical-font record of the native text engine
//! as plain values: size, slope, weight, decorations and rendering
//! options.  The face name is carried as an ordinary string; the engine
//! truncates names longer than its fixed buffer.

use vstd::prelude::*;

verus! {

/// A logical font description.
#[derive(Debug, Clone)]
pub struct LogFont {
    /// Character height in logical units; negative values select by glyph
    /// height.
    pub height: i32,
    /// Average character width, or 0 to match the height.
    pub width: i32,
    /// Escapement of a line of text, in tenths of a degree.
    pub escapement: i32,
    /// Orientation of each character, in tenths of a degree.
    pub orientation: i32,
    /// Weight from 0 to 1000; 400 is normal, 700 bold.
    pub weight: i32,
    /// Whether the font is italic.
    pub italic: bool,
    /// Whether the text is underlined.
    pub underline: bool,
    /// Whether the text is struck out.
    pub strike_out: bool,
    /// The character set selector of the native interface.
    pub char_set: u8,
    /// The output precision selector of the native interface.
    pub out_precision: u8,
    /// The clipping precision selector of the native interface.
    pub clip_precision: u8,
    /// The output quality selector of the native interface.
    pub quality: u8,
    /// The pitch-and-family selector of the native interface.
    pub pitch_and_family: u8,
    /// The face name.
    pub face_name: String,
}

impl LogFont {
    /// A plain font of the given height and width with every other
    /// attribute at its neutral value.
    pub fn new(height: i32, width: i32, face_name: String) -> (f: LogFont)
        ensures
            f.height == height,
            f.width == width,
            f.escapement == 0,
            f.orientation == 0,
            f.weight == 0,
            !f.italic,
            !f.underline,
            !f.strike_out,
            f.char_set == 0,
            f.out_precision == 0,
            f.clip_precision == 0,
            f.quality == 0,
            f.pitch_and_family == 0,
            f.face_name@ == face_name@,
    {
        LogFont {
            height,
            width,
            escapement: 0,
            orientation: 0,
            weight: 0,
            italic: false,
            underline: false,
            strike_out: false,
            char_set: 0,
            out_precision: 0,
            clip_precision: 0,
            quality: 0,
            pitch_and_family: 0,
            face_name,
        }
    }
}

} // verus!
