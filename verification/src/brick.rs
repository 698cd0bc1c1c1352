//! Brick data.
//!
//! A `BaseBrick` is the immutable input bundle of one render call: the
//! templated text, the color scheme, the normalized scroll offset and the
//! font-size scale pair. Offsets are in milli-units of the shape's
//! dimensions (an offset of `(500, 250)` shifts the text block half the
//! shape's width right and a quarter of its height down), and the scale is
//! a pair of milli-pixel font sizes whose arithmetic mean is the effective
//! font size.

use vstd::prelude::*;

use crate::color::ColorScheme;

verus! {

/// The input bundle of one render call.
#[derive(Clone)]
pub struct BaseBrick {
    /// Templated text: `\n` separates lines, `*` and `$` are the drop and
    /// variable markers.
    pub content: String,
    /// The color tokens written into the emitted SVG.
    pub color_scheme: ColorScheme,
    /// Normalized horizontal scroll offset, in milli-units of the shape's
    /// width; may be negative.
    pub offset_x: i64,
    /// Normalized vertical scroll offset, in milli-units of the shape's
    /// height; may be negative.
    pub offset_y: i64,
    /// Horizontal font-size scale, in milli-pixels.
    pub scale_x: u64,
    /// Vertical font-size scale, in milli-pixels.
    pub scale_y: u64,
}

impl Default for BaseBrick {
    /// An empty brick: no text, the default color scheme, no offset, and
    /// the catalog's standard scale pair of 18.75 by 13 pixels.
    fn default() -> (r: BaseBrick)
        ensures
            r.content@.len() == 0,
            r.color_scheme.name@ == "Blue"@,
            r.color_scheme.color@ == "#408ac5"@,
            r.color_scheme.shade@ == "#27567c"@,
            r.color_scheme.border@ == "#383838"@,
            r.color_scheme.text@ == "#ffffff"@,
            r.offset_x == 0 && r.offset_y == 0,
            r.scale_x == 18750 && r.scale_y == 13000,
    {
        BaseBrick {
            content: String::new(),
            color_scheme: ColorScheme::default(),
            offset_x: 0,
            offset_y: 0,
            scale_x: 18750,
            scale_y: 13000,
        }
    }
}

} // verus!
