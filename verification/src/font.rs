//! Font-metrics provider.
//!
//! The engine measures text with one embedded bold sans-serif font. A
//! `FontHandle` is the caller-constructed, read-only handle around the raw
//! bytes of that font file: it is built once and passed by reference into
//! every layout call. It answers two queries, the cap height of the font
//! at a given scale and the advance width of a text run at a given scale,
//! both in milli-pixels (thousandths of a pixel).
//!
//! A scale is a pair of milli-pixel font sizes `(sx, sy)`: `sx` drives the
//! horizontal metrics and `sy` the vertical ones. The font library scales
//! every metric linearly in the requested pixel size, so the milli-pixel
//! values are handed to it directly as sizes and its answers are already
//! in milli-pixels; they are truncated to whole milli-pixels and clamped
//! to `0 ..= MAX_METRIC_MILLI`.
//!
//! Malformed font bytes are absorbed, never reported: bytes that do not
//! parse as a font make every metric zero, and a font that parses but
//! cannot lay a run out — a glyph without horizontal metrics, whether the
//! tables are absent or a variation delta pushes them out of range, or a
//! character map entry pointing outside the glyph set — makes that run's
//! advance zero. Text degrades to zero-height, zero-width runs; no input
//! makes a metric query fail or panic.

use rusttype::{point, Font, Scale};
use ttf_parser::{Face, GlyphId};
use vstd::prelude::*;

verus! {

/// Every metric answered by a `FontHandle` lies in `0 ..= MAX_METRIC_MILLI`
/// milli-pixels (one million pixels).
pub const MAX_METRIC_MILLI: i64 = 1_000_000_000;

/// A font, held as the raw bytes of a TrueType font file.
///
/// The handle is immutable once built; its view is the byte sequence of
/// the font file, and both metric queries are functions of that view and
/// the scale alone.
pub struct FontHandle {
    data: Vec<u8>,
}

impl View for FontHandle {
    type V = Seq<u8>;

    closed spec fn view(&self) -> Seq<u8> {
        self.data@
    }
}

/// Whether `data` loads as a font: the soft-failure switch of the cap
/// height. Bytes that do not load yield a cap height of zero.
pub uninterp spec fn loads_as_font(data: Seq<u8>) -> bool;

/// Whether the font given by `data` can lay the run `text` out: it loads,
/// and the glyph each character maps to — and glyph zero, the fallback for
/// unmapped characters — lies in the glyph set and carries horizontal
/// metrics. A run that cannot be laid out has an advance of zero.
pub uninterp spec fn lays_out(data: Seq<u8>, text: Seq<char>) -> bool;

/// The cap height, in milli-pixels, that the font given by `data` yields at
/// scale `(sx, sy)`: ascent − descent + line gap, truncated and clamped to
/// `0 ..= MAX_METRIC_MILLI`; zero when `data` does not load as a font.
pub uninterp spec fn cap_height_of(data: Seq<u8>, sx: int, sy: int) -> int;

/// The advance width, in milli-pixels, of the text run `text` laid out
/// glyph by glyph (with the font's own kerning) in the font given by
/// `data` at scale `(sx, sy)`, truncated and clamped to
/// `0 ..= MAX_METRIC_MILLI`; zero when the font cannot lay the run out.
pub uninterp spec fn advance_of(data: Seq<u8>, sx: int, sy: int, text: Seq<char>) -> int;

impl FontHandle {
    /// Wraps the bytes of a font file. Nothing is validated here: bytes
    /// that are not a usable font simply make metrics zero.
    pub fn from_bytes(data: Vec<u8>) -> (r: FontHandle)
        ensures
            r@ == data@,
    {
        FontHandle { data }
    }

    /// Relies on rusttype's `Font::try_from_bytes` and `Font::v_metrics`:
    /// the vertical metrics are the font's table values scaled linearly by
    /// the requested pixel height, so asking at the milli-pixel size gives
    /// milli-pixel answers. A failed font load yields zero, and the result
    /// is clamped to `0 ..= MAX_METRIC_MILLI`.
    #[verifier::external_body]
    pub(crate) fn cap_height_milli(&self, sx: u64, sy: u64) -> (r: i64)
        ensures
            r == cap_height_of(self@, sx as int, sy as int),
            0 <= r <= MAX_METRIC_MILLI,
            !loads_as_font(self@) ==> r == 0,
    {
        let font = match Font::try_from_bytes(&self.data) {
            Some(f) => f,
            None => return 0,
        };
        let vm = font.v_metrics(Scale { x: sx as _, y: sy as _ });
        ((vm.ascent - vm.descent + vm.line_gap) as i64).clamp(0, MAX_METRIC_MILLI)
    }

    /// Relies on ttf-parser, the parser layer under rusttype (one build of
    /// it serves both): whether the bytes parse as a face in which glyph
    /// zero — the fallback for unmapped characters — and the glyph each
    /// character of `text` maps to lie in the glyph set and answer both
    /// horizontal-metric queries. These are exactly the lookups rusttype's
    /// layout resolves with asserts rather than reports. A run the font
    /// cannot lay out has an advance of zero at every scale, which the
    /// second clause records.
    #[verifier::external_body]
    fn can_lay_out(&self, text: &str) -> (r: bool)
        ensures
            r == lays_out(self@, text@),
            !r ==> forall|gx: int, gy: int| #[trigger] advance_of(self@, gx, gy, text@) == 0,
    {
        Face::from_slice(&self.data, 0).map_or(false, |f| {
            let ok = |g| f.glyph_hor_advance(g).is_some()
                && f.glyph_hor_side_bearing(g).is_some();
            ok(GlyphId(0)) && !text.chars().any(|c| f.glyph_index(c).map_or(false, |g|
                g.0 >= f.number_of_glyphs() || !ok(g)))
        })
    }

    /// Relies on rusttype's `Font::try_from_bytes` and `Font::layout`: the
    /// advance of a run is the last glyph's position plus that glyph's own
    /// advance width, rusttype's documented recipe for the width of a laid
    /// out run; metrics scale linearly in the requested pixel size, so
    /// asking at the milli-pixel size gives milli-pixel answers. An empty
    /// run has no glyphs and yields zero, and the result is clamped to
    /// `0 ..= MAX_METRIC_MILLI`. Layout asserts that each glyph it touches
    /// has an id in the glyph set and horizontal metrics, so runs the font
    /// cannot lay out are required away.
    #[verifier::external_body]
    fn advance_raw(&self, sx: u64, sy: u64, text: &str) -> (r: i64)
        requires
            lays_out(self@, text@),
        ensures
            r == advance_of(self@, sx as int, sy as int, text@),
            0 <= r <= MAX_METRIC_MILLI,
            text@.len() == 0 ==> r == 0,
    {
        let font = match Font::try_from_bytes(&self.data) {
            Some(f) => f,
            None => return 0,
        };
        let scale = Scale { x: sx as _, y: sy as _ };
        let width = font
            .layout(text, scale, point(0 as _, 0 as _))
            .map(|g| g.position().x + g.unpositioned().h_metrics().advance_width)
            .last()
            .unwrap_or_default();
        (width as i64).clamp(0, MAX_METRIC_MILLI)
    }

    /// The advance of `text` at scale `(sx, sy)`: laid out by the font
    /// library where the font can lay the run out, and absorbed to zero
    /// where it cannot — a degraded render, never a failure.
    pub(crate) fn advance_milli(&self, sx: u64, sy: u64, text: &str) -> (r: i64)
        ensures
            r == advance_of(self@, sx as int, sy as int, text@),
            0 <= r <= MAX_METRIC_MILLI,
            text@.len() == 0 ==> r == 0,
            !lays_out(self@, text@) ==> r == 0,
    {
        if self.can_lay_out(text) {
            self.advance_raw(sx, sy, text)
        } else {
            0
        }
    }

    /// The cap height of the font at scale `(sx, sy)`, in milli-pixels;
    /// zero when the bytes do not load as a font.
    pub fn cap_height(&self, sx: u64, sy: u64) -> (r: i64)
        ensures
            r == cap_height_of(self@, sx as int, sy as int),
            0 <= r <= MAX_METRIC_MILLI,
            !loads_as_font(self@) ==> r == 0,
    {
        self.cap_height_milli(sx, sy)
    }

    /// The advance width of `text` and the cap height of the font, both at
    /// scale `(sx, sy)` and in milli-pixels; each is zero when the font
    /// fails its query, rather than an error.
    pub fn metrics(&self, text: &str, sx: u64, sy: u64) -> (r: (i64, i64))
        ensures
            r.0 == advance_of(self@, sx as int, sy as int, text@),
            0 <= r.0 <= MAX_METRIC_MILLI,
            text@.len() == 0 ==> r.0 == 0,
            !lays_out(self@, text@) ==> r.0 == 0,
            r.1 == cap_height_of(self@, sx as int, sy as int),
            0 <= r.1 <= MAX_METRIC_MILLI,
            !loads_as_font(self@) ==> r.1 == 0,
    {
        (self.advance_milli(sx, sy, text), self.cap_height_milli(sx, sy))
    }
}

} // verus!
