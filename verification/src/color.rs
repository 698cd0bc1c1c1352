//! Color schemes.
//!
//! A scheme bundles the color tokens of one brick look: background, shade,
//! border and text color, each an opaque color string (hex, with an
//! optional alpha pair). The engine never parses these tokens, it only
//! writes them into the SVG it emits; the consuming shape and rasterizer
//! interpret them.

use vstd::prelude::*;

verus! {

/// One named set of color tokens.
#[derive(Clone)]
pub struct ColorScheme {
    pub name: String,
    pub color: String,
    pub shade: String,
    pub border: String,
    pub text: String,
}

impl Default for ColorScheme {
    /// The blue scheme: the look a brick starts with.
    fn default() -> (r: ColorScheme)
        ensures
            r.name@ == "Blue"@,
            r.color@ == "#408ac5"@,
            r.shade@ == "#27567c"@,
            r.border@ == "#383838"@,
            r.text@ == "#ffffff"@,
    {
        ColorScheme {
            name: String::from_str("Blue"),
            color: String::from_str("#408ac5"),
            shade: String::from_str("#27567c"),
            border: String::from_str("#383838"),
            text: String::from_str("#ffffff"),
        }
    }
}

} // verus!
