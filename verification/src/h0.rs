//! The H0 brick: a thin horizontal shape.
//!
//! The one shape whose silhouette lives in this crate. Its document wraps
//! the layout engine's fragment in a complete SVG: a style block holding
//! the scheme's color tokens, the three decorative path groups of the
//! silhouette, then the rendered text. The engine itself is shape-agnostic;
//! the shape only supplies its pixel dimensions and its paths.

use vstd::prelude::*;

use crate::color::ColorScheme;
use crate::font::FontHandle;
use crate::layout::{content_svg, render};

verus! {

/// Pixel width of the H0 silhouette.
pub const WIDTH: u32 = 350;

/// Pixel height of the H0 silhouette.
pub const LENGTH: u32 = 16;

/// The document up to the rendered text: SVG header, the style block
/// carrying the scheme's background, border and shade tokens, and the
/// three decorative path groups of the silhouette.
#[verifier::opaque]
pub open spec fn h0_prelude(color: Seq<char>, shade: Seq<char>, border: Seq<char>) -> Seq<char> {
    "<svg xmlns=\"http://www.w3.org/2000/svg\" viewBox=\"0 0 350 16\"><style>.background { fill: "@
        + color + "; }.border { fill: "@ + border + "; }.shade { stop-color: "@ + shade
        + "; }</style><g viewBox=\"0 10 350 16\"><path class=\"background\" d=\"M0,5h355v5h-355z\" /></g><g viewbox=\"0 0 350 16\"><path class=\"background\" d=\"M0,2.000l11,0l1.75,4.125l19.5,0l1.75,-4.125l320,0l0,4.125l-355,0l0,-4.125z\" /><path class=\"border\" d=\"M347.736,0l-315.056,0.001l0,0.008l-1.749,4.117l-16.858,0l-1.752,-4.126l-0.019,0.008l0,-0.007l-12.302,0l0,2l10.998,0l1.748,4.115l0.005,-0.002l0,0.012l19.502,0l0,-0.003l0.002,0.001l1.752,-4.123l320,-0.001l0,-2z\" /><path fill-opacity=\"0.4\" fill=\"#fff\" d=\"M347.736,2.063l-313.753,-0.063l0,0.003l-0.008,-0.003l-1.751,4.125l-19.484,0l-1.74,-4.098l0,-0.027l-11,0l0,2l9.665,0l1.753,4.127l0.005,-0.002l22.115,0l0,-0.001l0.008,0.003l1.753,-4.127l320,0.063l0,-2z\" stroke-opacity=\"0.4\" /></g><g viewbox=\"0 0 350 16\"><path class=\"background\" d=\"M0,9.667l12.318,-0.004l1.75,4.125l16.857,0.014l1.75,-4.125l12.367,-0.004l-45.042,-0.006z\" /><path class=\"border\" d=\"M347.736,9.657l-315.056,0.001l0,0.008l-1.749,4.117l-16.858,0l-1.752,-4.126l-0.019,0.008l0,-0.007l-12.302,0l0,2l10.998,0l1.748,4.115l0.005,-0.002l0,0.012l19.502,0l0,-0.003l0.002,0.001l1.752,-4.123l317.729,-0.001l0,-2z\" /></g>"@
}

/// The complete H0 document: the prelude, the engine's fragment for
/// `content` at the catalog's standard scale with no offset against the
/// H0 dimensions, and the closing tag.
pub open spec fn h0_document(
    data: Seq<u8>,
    content: Seq<char>,
    color: Seq<char>,
    shade: Seq<char>,
    border: Seq<char>,
    text: Seq<char>,
) -> Seq<char> {
    h0_prelude(color, shade, border) + content_svg(
        data,
        18750,
        13000,
        text,
        content,
        0,
        0,
        WIDTH as int,
        LENGTH as int,
    ) + "</svg>"@
}

/// The H0 brick: its templated text.
pub struct BrickH0 {
    content: String,
}

impl BrickH0 {
    /// An H0 brick with no text yet.
    pub fn new() -> (r: BrickH0)
        ensures
            r@.len() == 0,
    {
        BrickH0 { content: String::new() }
    }

    /// Replaces the brick's text.
    pub fn set_content(&mut self, content: &str)
        ensures
            final(self)@ == content@,
    {
        self.content = String::from_str(content);
    }

    /// The brick's text.
    pub fn get_content(&self) -> (r: &str)
        ensures
            r@ == self@,
    {
        self.content.as_str()
    }

    /// The complete SVG document of this brick under the given colors:
    /// the H0 silhouette with the brick's text laid out over it.
    pub fn to_svg(&self, font: &FontHandle, color_scheme: &ColorScheme) -> (r: String)
        ensures
            r@ == h0_document(
                font@,
                self@,
                color_scheme.color@,
                color_scheme.shade@,
                color_scheme.border@,
                color_scheme.text@,
            ),
    {
        let mut out = String::new();
        out.append(
            "<svg xmlns=\"http://www.w3.org/2000/svg\" viewBox=\"0 0 350 16\"><style>.background { fill: ",
        );
        out.append(color_scheme.color.as_str());
        out.append("; }.border { fill: ");
        out.append(color_scheme.border.as_str());
        out.append("; }.shade { stop-color: ");
        out.append(color_scheme.shade.as_str());
        out.append(
            "; }</style><g viewBox=\"0 10 350 16\"><path class=\"background\" d=\"M0,5h355v5h-355z\" /></g><g viewbox=\"0 0 350 16\"><path class=\"background\" d=\"M0,2.000l11,0l1.75,4.125l19.5,0l1.75,-4.125l320,0l0,4.125l-355,0l0,-4.125z\" /><path class=\"border\" d=\"M347.736,0l-315.056,0.001l0,0.008l-1.749,4.117l-16.858,0l-1.752,-4.126l-0.019,0.008l0,-0.007l-12.302,0l0,2l10.998,0l1.748,4.115l0.005,-0.002l0,0.012l19.502,0l0,-0.003l0.002,0.001l1.752,-4.123l320,-0.001l0,-2z\" /><path fill-opacity=\"0.4\" fill=\"#fff\" d=\"M347.736,2.063l-313.753,-0.063l0,0.003l-0.008,-0.003l-1.751,4.125l-19.484,0l-1.74,-4.098l0,-0.027l-11,0l0,2l9.665,0l1.753,4.127l0.005,-0.002l22.115,0l0,-0.001l0.008,0.003l1.753,-4.127l320,0.063l0,-2z\" stroke-opacity=\"0.4\" /></g><g viewbox=\"0 0 350 16\"><path class=\"background\" d=\"M0,9.667l12.318,-0.004l1.75,4.125l16.857,0.014l1.75,-4.125l12.367,-0.004l-45.042,-0.006z\" /><path class=\"border\" d=\"M347.736,9.657l-315.056,0.001l0,0.008l-1.749,4.117l-16.858,0l-1.752,-4.126l-0.019,0.008l0,-0.007l-12.302,0l0,2l10.998,0l1.748,4.115l0.005,-0.002l0,0.012l19.502,0l0,-0.003l0.002,0.001l1.752,-4.123l317.729,-0.001l0,-2z\" /></g>",
        );
        proof {
            reveal(h0_prelude);
        }
        assert(out@ =~= h0_prelude(color_scheme.color@, color_scheme.shade@, color_scheme.border@));
        let frag = render(font, self.content.as_str(), color_scheme, 18750, 13000, 0, 0, WIDTH, LENGTH);
        out.append(frag.as_str());
        out.append("</svg>");
        assert(out@ =~= h0_document(
            font@,
            self@,
            color_scheme.color@,
            color_scheme.shade@,
            color_scheme.border@,
            color_scheme.text@,
        ));
        out
    }
}

impl View for BrickH0 {
    type V = Seq<char>;

    closed spec fn view(&self) -> Seq<char> {
        self.content@
    }
}

} // verus!
