//! Marker-driven layout engine.
//!
//! The engine turns the text of a brick into one composed SVG fragment: a
//! sequence of nested `<g>` groups of text runs, each group translated by
//! the running horizontal advance of its predecessors, one outer group per
//! `\n`-delimited line.
//!
//! Two marker characters are structural, never literal. A drop marker
//! (`*`) starts a segment rendered at a fixed 0.8 scale-down whose
//! reported advance is 0.8 times the full-scale advance of its text. A
//! variable marker (`$`) starts a segment rendered with an underline, at
//! full scale and full advance. Splitting is bounded to the first two
//! occurrences of a marker: a line is cut into at most three parts
//! (before, marked, rest), and the rest is reprocessed from the top of
//! the marker hierarchy, variable marker first; the remainder after a
//! drop segment also goes back to the top, so both marker kinds may
//! interleave freely. There is no escape mechanism.
//!
//! All pixel quantities are milli-pixels (see `numfmt`); every advance is
//! asked of the font handle, under the names `advance_of` and
//! `cap_height_of`. The spec functions below state the output exactly,
//! character for character.
//!
//! User text is written into the text elements as it stands: characters
//! with XML meaning (`<`, `&`, `>`) pass through unescaped, a deliberate
//! carry-over of the engine's known gap. Content holding them can yield a
//! document its consumer rejects as malformed; the rasterization plan
//! surfaces that as a typed failure, never a crash.

use vstd::prelude::*;

use crate::brick::BaseBrick;
use crate::color::ColorScheme;
use crate::font::{advance_of, cap_height_of, FontHandle, MAX_METRIC_MILLI};
use crate::numfmt::{fmt_milli, fmt_milli_spec};

verus! {

/// Starts a segment rendered with an underline at full scale.
pub const VARIABLE_MARKER: char = '$';

/// Starts a segment rendered at a 0.8 scale-down with advance scaled alike.
pub const DROP_MARKER: char = '*';

/// The effective font size of a scale pair: the arithmetic mean of its two
/// milli-pixel font sizes (whole milli-pixels, rounded down).
pub open spec fn font_size_of(sx: int, sy: int) -> int {
    (sx + sy) / 2
}

/// The advance reported for a drop segment: 0.8 times the full-scale
/// advance `a`, in whole milli-pixels (rounded down).
pub open spec fn drop_advance(a: int) -> int {
    (4 * a) / 5
}

/// The vertical position of line `idx`: lines stack at 1.1 times the cap
/// height, below a fixed 20-pixel top margin and the denormalized
/// vertical offset `offy` (all milli-pixels).
pub open spec fn line_y(idx: nat, cap: int, offy: int) -> int {
    (11 * idx * cap) / 10 + 20000 + offy
}

/// The index of the first occurrence of `c` in `s`, or `s.len()` when `s`
/// does not contain `c`.
pub open spec fn find(s: Seq<char>, c: char) -> int
    decreases s.len(),
{
    if s.len() == 0 {
        0
    } else if s[0] == c {
        0
    } else {
        1 + find(s.drop_first(), c)
    }
}

pub proof fn lemma_find_bounds(s: Seq<char>, c: char)
    ensures
        0 <= find(s, c) <= s.len(),
        find(s, c) < s.len() ==> s[find(s, c)] == c,
        forall|k: int| 0 <= k < find(s, c) ==> s[k] != c,
    decreases s.len(),
{
    if s.len() > 0 && s[0] != c {
        lemma_find_bounds(s.drop_first(), c);
        assert forall|k: int| 0 <= k < find(s, c) implies s[k] != c by {
            if k > 0 {
                assert(s.drop_first()[k - 1] == s[k]);
            }
        }
    }
}

/// `find` returns `j` exactly when nothing before `j` is `c` and either
/// `s[j]` is `c` or `j` is the length.
pub proof fn lemma_find_is(s: Seq<char>, c: char, j: int)
    requires
        0 <= j <= s.len(),
        forall|k: int| 0 <= k < j ==> s[k] != c,
        j < s.len() ==> s[j] == c,
    ensures
        find(s, c) == j,
    decreases j,
{
    if j == 0 {
        if s.len() > 0 {
            assert(find(s, c) == 0);
        }
    } else {
        assert(s[0] != c);
        assert(forall|k: int| 0 <= k < j - 1 ==> #[trigger] s.drop_first()[k] == s[k + 1]);
        if j < s.len() {
            assert(s.drop_first()[j - 1] == s[j]);
        }
        lemma_find_is(s.drop_first(), c, j - 1);
    }
}

/// The opening of a group translated `x` milli-pixels to the right.
#[verifier::opaque]
pub open spec fn wrap_open(x: int) -> Seq<char> {
    "<g transform=\"translate("@ + fmt_milli_spec(x) + " 0)\">"@
}

/// A fragment wrapped in a group translated `x` milli-pixels to the right.
pub open spec fn wrap_at(x: int, body: Seq<char>) -> Seq<char> {
    wrap_open(x) + body + "</g>"@
}

/// The opening of a line group translated to `(x, y)` milli-pixels.
#[verifier::opaque]
pub open spec fn line_open(x: int, y: int) -> Seq<char> {
    "<g transform=\"translate("@ + fmt_milli_spec(x) + " "@ + fmt_milli_spec(y) + ")\">"@
}

/// A line fragment wrapped in a group translated to `(x, y)` milli-pixels.
pub open spec fn line_at(x: int, y: int, body: Seq<char>) -> Seq<char> {
    line_open(x, y) + body + "</g>"@
}

/// The style attribute shared by every text run: fill color and the
/// effective font size `fs` in milli-pixels.
#[verifier::opaque]
pub open spec fn text_style(tc: Seq<char>, fs: int) -> Seq<char> {
    "style=\"fill:"@ + tc + ";font-size:"@ + fmt_milli_spec(fs)
        + "px;font-family:'Roboto',sans-serif;font-weight:bold;\""@
}

/// A plain text run.
#[verifier::opaque]
pub open spec fn text_el(content: Seq<char>, tc: Seq<char>, fs: int) -> Seq<char> {
    "<text xml:space=\"preserve\" "@ + text_style(tc, fs) + ">"@ + content + "</text>"@
}

/// A drop text run: a plain run under a fixed 0.8 scale-down transform.
#[verifier::opaque]
pub open spec fn drop_el(content: Seq<char>, tc: Seq<char>, fs: int) -> Seq<char> {
    "<text xml:space=\"preserve\" "@ + text_style(tc, fs) + " transform=\"scale(0.8)\">"@
        + content + "</text>"@
}

/// A variable text run: a plain run plus an underline primitive spanning
/// exactly `adv`, the full-scale advance of the run's text, drawn slightly
/// above the baseline.
#[verifier::opaque]
pub open spec fn variable_el(content: Seq<char>, tc: Seq<char>, fs: int, adv: int) -> Seq<char> {
    "<g><text xml:space=\"preserve\" "@ + text_style(tc, fs) + ">"@ + content
        + "</text><line stroke=\""@ + tc + "\" x1=\"0\" y1=\"-0.1\" x2=\""@ + fmt_milli_spec(adv)
        + "\" y2=\"-0.1\"/></g>"@
}

/// One drop-segment pass over `s`: split on the first two drop markers
/// into at most three parts. The first part is a plain run, the second a
/// drop run advancing 0.8 times its full-scale advance, and the remainder
/// goes back to the top of the marker hierarchy. Each part is wrapped at
/// the running advance of its predecessors.
pub open spec fn line_segment_svg(data: Seq<u8>, sx: int, sy: int, tc: Seq<char>, s: Seq<char>)
    -> Seq<char>
    decreases s.len(), 0nat,
    via line_segment_svg_decreases
{
    let fs = font_size_of(sx, sy);
    let i = find(s, DROP_MARKER);
    if i == s.len() {
        wrap_at(0, text_el(s, tc, fs))
    } else {
        let part0 = s.subrange(0, i);
        let rest = s.subrange(i + 1, s.len() as int);
        let a0 = advance_of(data, sx, sy, part0);
        let j = find(rest, DROP_MARKER);
        if j == rest.len() {
            wrap_at(0, text_el(part0, tc, fs)) + wrap_at(a0, drop_el(rest, tc, fs))
        } else {
            let part1 = rest.subrange(0, j);
            let part2 = rest.subrange(j + 1, rest.len() as int);
            let a1 = advance_of(data, sx, sy, part1);
            wrap_at(0, text_el(part0, tc, fs)) + wrap_at(a0, drop_el(part1, tc, fs)) + wrap_at(
                a0 + drop_advance(a1),
                line_svg(data, sx, sy, tc, part2),
            )
        }
    }
}

#[via_fn]
proof fn line_segment_svg_decreases(data: Seq<u8>, sx: int, sy: int, tc: Seq<char>, s: Seq<char>) {
    lemma_find_bounds(s, DROP_MARKER);
    let i = find(s, DROP_MARKER);
    if i < s.len() {
        lemma_find_bounds(s.subrange(i + 1, s.len() as int), DROP_MARKER);
    }
}

/// One line of content: split on the first two variable markers into at
/// most three parts. The first part takes a drop-segment pass, the second
/// is a variable run at full scale and full advance, and the remainder is
/// reprocessed from the top. Each part is wrapped at the running advance
/// of its predecessors, where the advance of the first part is that of its
/// raw text, drop markers included.
pub open spec fn line_svg(data: Seq<u8>, sx: int, sy: int, tc: Seq<char>, s: Seq<char>)
    -> Seq<char>
    decreases s.len(), 1nat,
    via line_svg_decreases
{
    let fs = font_size_of(sx, sy);
    let i = find(s, VARIABLE_MARKER);
    if i == s.len() {
        wrap_at(0, line_segment_svg(data, sx, sy, tc, s))
    } else {
        let part0 = s.subrange(0, i);
        let rest = s.subrange(i + 1, s.len() as int);
        let a0 = advance_of(data, sx, sy, part0);
        let j = find(rest, VARIABLE_MARKER);
        if j == rest.len() {
            wrap_at(0, line_segment_svg(data, sx, sy, tc, part0)) + wrap_at(
                a0,
                variable_el(rest, tc, fs, advance_of(data, sx, sy, rest)),
            )
        } else {
            let part1 = rest.subrange(0, j);
            let part2 = rest.subrange(j + 1, rest.len() as int);
            let a1 = advance_of(data, sx, sy, part1);
            wrap_at(0, line_segment_svg(data, sx, sy, tc, part0)) + wrap_at(
                a0,
                variable_el(part1, tc, fs, a1),
            ) + wrap_at(a0 + a1, line_svg(data, sx, sy, tc, part2))
        }
    }
}

#[via_fn]
proof fn line_svg_decreases(data: Seq<u8>, sx: int, sy: int, tc: Seq<char>, s: Seq<char>) {
    lemma_find_bounds(s, VARIABLE_MARKER);
    let i = find(s, VARIABLE_MARKER);
    if i < s.len() {
        lemma_find_bounds(s.subrange(i + 1, s.len() as int), VARIABLE_MARKER);
    }
}

/// The lines of `s` from line index `idx` on: each `\n`-delimited line is
/// laid out by `line_svg` and wrapped in a group at the denormalized
/// offset `(offx, line_y(idx, cap, offy))`; the line groups are
/// concatenated in line order.
pub open spec fn lines_svg(
    data: Seq<u8>,
    sx: int,
    sy: int,
    tc: Seq<char>,
    s: Seq<char>,
    idx: nat,
    offx: int,
    offy: int,
    cap: int,
) -> Seq<char>
    decreases s.len(),
    via lines_svg_decreases
{
    let i = find(s, '\n');
    let y = line_y(idx, cap, offy);
    if i == s.len() {
        line_at(offx, y, line_svg(data, sx, sy, tc, s))
    } else {
        line_at(offx, y, line_svg(data, sx, sy, tc, s.subrange(0, i))) + lines_svg(
            data,
            sx,
            sy,
            tc,
            s.subrange(i + 1, s.len() as int),
            idx + 1,
            offx,
            offy,
            cap,
        )
    }
}

#[via_fn]
proof fn lines_svg_decreases(
    data: Seq<u8>,
    sx: int,
    sy: int,
    tc: Seq<char>,
    s: Seq<char>,
    idx: nat,
    offx: int,
    offy: int,
    cap: int,
) {
    lemma_find_bounds(s, '\n');
}

/// The index of the first occurrence of `c` in `s`, or the character
/// length of `s` when `s` does not contain `c`.
fn find_in(s: &str, c: char) -> (r: usize)
    ensures
        r as int == find(s@, c),
        r <= s@.len(),
{
    let n = s.unicode_len();
    let mut i: usize = 0;
    while i < n
        invariant
            i <= n,
            n == s@.len(),
            forall|k: int| 0 <= k < i ==> s@[k] != c,
        decreases n - i,
    {
        if s.get_char(i) == c {
            proof {
                lemma_find_is(s@, c, i as int);
            }
            return i;
        }
        i += 1;
    }
    proof {
        lemma_find_is(s@, c, n as int);
    }
    n
}

/// Opens a group translated `x` milli-pixels to the right.
fn emit_wrap_open(out: &mut String, x: i64)
    ensures
        final(out)@ == old(out)@ + wrap_open(x as int),
{
    out.append("<g transform=\"translate(");
    let f = fmt_milli(x as i128);
    out.append(f.as_str());
    out.append(" 0)\">");
    proof {
        reveal(wrap_open);
    }
    assert(out@ =~= old(out)@ + wrap_open(x as int));
}

/// Opens a line group translated to `(x, y)` milli-pixels.
fn emit_line_open(out: &mut String, x: i128, y: i128)
    requires
        x != i128::MIN,
        y != i128::MIN,
    ensures
        final(out)@ == old(out)@ + line_open(x as int, y as int),
{
    out.append("<g transform=\"translate(");
    let fx = fmt_milli(x);
    out.append(fx.as_str());
    out.append(" ");
    let fy = fmt_milli(y);
    out.append(fy.as_str());
    out.append(")\">");
    proof {
        reveal(line_open);
    }
    assert(out@ =~= old(out)@ + line_open(x as int, y as int));
}

/// Writes the style attribute shared by every text run.
fn emit_style(out: &mut String, tc: &str, fs: i128)
    requires
        fs != i128::MIN,
    ensures
        final(out)@ == old(out)@ + text_style(tc@, fs as int),
{
    out.append("style=\"fill:");
    out.append(tc);
    out.append(";font-size:");
    let f = fmt_milli(fs);
    out.append(f.as_str());
    out.append("px;font-family:'Roboto',sans-serif;font-weight:bold;\"");
    proof {
        reveal(text_style);
    }
    assert(out@ =~= old(out)@ + text_style(tc@, fs as int));
}

/// Writes a plain text run.
fn emit_text(out: &mut String, content: &str, tc: &str, fs: i128)
    requires
        fs != i128::MIN,
    ensures
        final(out)@ == old(out)@ + text_el(content@, tc@, fs as int),
{
    out.append("<text xml:space=\"preserve\" ");
    emit_style(out, tc, fs);
    out.append(">");
    out.append(content);
    out.append("</text>");
    proof {
        reveal(text_el);
    }
    assert(out@ =~= old(out)@ + text_el(content@, tc@, fs as int));
}

/// Writes a drop text run.
fn emit_drop(out: &mut String, content: &str, tc: &str, fs: i128)
    requires
        fs != i128::MIN,
    ensures
        final(out)@ == old(out)@ + drop_el(content@, tc@, fs as int),
{
    out.append("<text xml:space=\"preserve\" ");
    emit_style(out, tc, fs);
    out.append(" transform=\"scale(0.8)\">");
    out.append(content);
    out.append("</text>");
    proof {
        reveal(drop_el);
    }
    assert(out@ =~= old(out)@ + drop_el(content@, tc@, fs as int));
}

/// Writes a variable text run with its underline spanning `adv`.
fn emit_variable(out: &mut String, content: &str, tc: &str, fs: i128, adv: i64)
    requires
        fs != i128::MIN,
    ensures
        final(out)@ == old(out)@ + variable_el(content@, tc@, fs as int, adv as int),
{
    out.append("<g><text xml:space=\"preserve\" ");
    emit_style(out, tc, fs);
    out.append(">");
    out.append(content);
    out.append("</text><line stroke=\"");
    out.append(tc);
    out.append("\" x1=\"0\" y1=\"-0.1\" x2=\"");
    let f = fmt_milli(adv as i128);
    out.append(f.as_str());
    out.append("\" y2=\"-0.1\"/></g>");
    proof {
        reveal(variable_el);
    }
    assert(out@ =~= old(out)@ + variable_el(content@, tc@, fs as int, adv as int));
}

/// The reported advance of a drop segment whose full-scale advance is `a`.
fn drop_advance_exec(a: i64) -> (r: i64)
    requires
        0 <= a <= MAX_METRIC_MILLI,
    ensures
        r == drop_advance(a as int),
        0 <= r <= MAX_METRIC_MILLI,
{
    ((4 * (a as u64)) / 5) as i64
}

/// Writes one drop-segment pass over `s` (split on the drop marker).
#[verifier::rlimit(60)]
fn render_line_segment(
    font: &FontHandle,
    sx: u64,
    sy: u64,
    tc: &str,
    fs: i128,
    s: &str,
    out: &mut String,
)
    requires
        fs == font_size_of(sx as int, sy as int),
        0 <= fs,
    ensures
        final(out)@ == old(out)@ + line_segment_svg(font@, sx as int, sy as int, tc@, s@),
    decreases s@.len(), 0nat,
{
    let n = s.unicode_len();
    let i = find_in(s, DROP_MARKER);
    proof {
        lemma_find_bounds(s@, DROP_MARKER);
    }
    if i == n {
        emit_wrap_open(out, 0);
        emit_text(out, s, tc, fs);
        out.append("</g>");
        assert(out@ =~= old(out)@ + line_segment_svg(font@, sx as int, sy as int, tc@, s@));
    } else {
        let part0 = s.substring_char(0, i);
        let rest = s.substring_char(i + 1, n);
        let a0 = font.advance_milli(sx, sy, part0);
        let m = rest.unicode_len();
        let j = find_in(rest, DROP_MARKER);
        proof {
            lemma_find_bounds(rest@, DROP_MARKER);
        }
        emit_wrap_open(out, 0);
        emit_text(out, part0, tc, fs);
        out.append("</g>");
        emit_wrap_open(out, a0);
        if j == m {
            emit_drop(out, rest, tc, fs);
            out.append("</g>");
            assert(out@ =~= old(out)@ + line_segment_svg(font@, sx as int, sy as int, tc@, s@));
        } else {
            let part1 = rest.substring_char(0, j);
            let part2 = rest.substring_char(j + 1, m);
            let a1 = font.advance_milli(sx, sy, part1);
            emit_drop(out, part1, tc, fs);
            out.append("</g>");
            emit_wrap_open(out, a0 + drop_advance_exec(a1));
            render_line(font, sx, sy, tc, fs, part2, out);
            out.append("</g>");
            assert(out@ =~= old(out)@ + line_segment_svg(font@, sx as int, sy as int, tc@, s@));
        }
    }
}

/// Writes one line of content (split on the variable marker).
#[verifier::rlimit(60)]
fn render_line(font: &FontHandle, sx: u64, sy: u64, tc: &str, fs: i128, s: &str, out: &mut String)
    requires
        fs == font_size_of(sx as int, sy as int),
        0 <= fs,
    ensures
        final(out)@ == old(out)@ + line_svg(font@, sx as int, sy as int, tc@, s@),
    decreases s@.len(), 1nat,
{
    let ghost data = font@;
    let ghost base = out@;
    let n = s.unicode_len();
    let i = find_in(s, VARIABLE_MARKER);
    proof {
        lemma_find_bounds(s@, VARIABLE_MARKER);
    }
    if i == n {
        emit_wrap_open(out, 0);
        render_line_segment(font, sx, sy, tc, fs, s, out);
        out.append("</g>");
        assert(out@ =~= base + line_svg(data, sx as int, sy as int, tc@, s@));
    } else {
        let part0 = s.substring_char(0, i);
        let rest = s.substring_char(i + 1, n);
        let a0 = font.advance_milli(sx, sy, part0);
        let m = rest.unicode_len();
        let j = find_in(rest, VARIABLE_MARKER);
        proof {
            lemma_find_bounds(rest@, VARIABLE_MARKER);
        }
        let ghost w0 = wrap_at(0, line_segment_svg(data, sx as int, sy as int, tc@, part0@));
        emit_wrap_open(out, 0);
        render_line_segment(font, sx, sy, tc, fs, part0, out);
        out.append("</g>");
        assert(out@ =~= base + w0);
        emit_wrap_open(out, a0);
        if j == m {
            let a1 = font.advance_milli(sx, sy, rest);
            let ghost w1 = wrap_at(a0 as int, variable_el(rest@, tc@, fs as int, a1 as int));
            emit_variable(out, rest, tc, fs, a1);
            out.append("</g>");
            assert(out@ =~= base + w0 + w1);
            assert(line_svg(data, sx as int, sy as int, tc@, s@) =~= w0 + w1);
            assert(out@ =~= base + line_svg(data, sx as int, sy as int, tc@, s@));
        } else {
            let part1 = rest.substring_char(0, j);
            let part2 = rest.substring_char(j + 1, m);
            let a1 = font.advance_milli(sx, sy, part1);
            let ghost w1 = wrap_at(a0 as int, variable_el(part1@, tc@, fs as int, a1 as int));
            emit_variable(out, part1, tc, fs, a1);
            out.append("</g>");
            assert(out@ =~= base + w0 + w1);
            let ghost w2 = wrap_at(
                a0 as int + a1 as int,
                line_svg(data, sx as int, sy as int, tc@, part2@),
            );
            emit_wrap_open(out, a0 + a1);
            render_line(font, sx, sy, tc, fs, part2, out);
            out.append("</g>");
            assert(out@ =~= base + w0 + w1 + w2);
            assert(line_svg(data, sx as int, sy as int, tc@, s@) =~= w0 + w1 + w2);
            assert(out@ =~= base + line_svg(data, sx as int, sy as int, tc@, s@));
        }
    }
}

/// The vertical position of line `idx`, computed without overflow. The
/// literal bounds are powers of two: a denormalized offset, a 64-bit
/// milli-offset times a 32-bit pixel dimension, stays within 2^95, and
/// the resulting position within 2^97.
fn line_y_exec(idx: usize, cap: i64, offy: i128) -> (y: i128)
    requires
        0 <= cap <= MAX_METRIC_MILLI,
        -39614081257132168796771975168i128 <= offy <= 39614081257132168796771975168i128,
    ensures
        y == line_y(idx as nat, cap as int, offy as int),
        -158456325028528675187087900672i128 <= y <= 158456325028528675187087900672i128,
{
    proof {
        assert(0 <= 11 * (idx as int) * (cap as int) <= 11 * 0xFFFF_FFFF_FFFF_FFFF
            * 1_000_000_000int) by (nonlinear_arith)
            requires
                0 <= idx as int <= 0xFFFF_FFFF_FFFF_FFFF,
                0 <= cap as int <= 1_000_000_000,
        ;
    }
    let t: u128 = 11 * (idx as u128) * (cap as u128);
    let q: u128 = t / 10;
    (q as i128) + 20000 + offy
}

/// Writes the lines of `s` from line index `idx` on (split on newlines).
fn render_lines(
    font: &FontHandle,
    sx: u64,
    sy: u64,
    tc: &str,
    fs: i128,
    s: &str,
    idx: usize,
    offx: i128,
    offy: i128,
    cap: i64,
    out: &mut String,
)
    requires
        fs == font_size_of(sx as int, sy as int),
        0 <= fs,
        0 <= cap <= MAX_METRIC_MILLI,
        -39614081257132168796771975168i128 <= offx <= 39614081257132168796771975168i128,
        -39614081257132168796771975168i128 <= offy <= 39614081257132168796771975168i128,
        idx as int + s@.len() <= usize::MAX as int,
    ensures
        final(out)@ == old(out)@ + lines_svg(
            font@,
            sx as int,
            sy as int,
            tc@,
            s@,
            idx as nat,
            offx as int,
            offy as int,
            cap as int,
        ),
    decreases s@.len(),
{
    let ghost data = font@;
    let ghost base = out@;
    let y = line_y_exec(idx, cap, offy);
    let n = s.unicode_len();
    let i = find_in(s, '\n');
    proof {
        lemma_find_bounds(s@, '\n');
    }
    if i == n {
        emit_line_open(out, offx, y);
        render_line(font, sx, sy, tc, fs, s, out);
        out.append("</g>");
        assert(out@ =~= base + lines_svg(
            data,
            sx as int,
            sy as int,
            tc@,
            s@,
            idx as nat,
            offx as int,
            offy as int,
            cap as int,
        ));
    } else {
        let line = s.substring_char(0, i);
        let rem = s.substring_char(i + 1, n);
        let ghost l0 = line_at(
            offx as int,
            y as int,
            line_svg(data, sx as int, sy as int, tc@, line@),
        );
        emit_line_open(out, offx, y);
        render_line(font, sx, sy, tc, fs, line, out);
        out.append("</g>");
        assert(out@ =~= base + l0);
        render_lines(font, sx, sy, tc, fs, rem, idx + 1, offx, offy, cap, out);
        assert(out@ =~= base + lines_svg(
            data,
            sx as int,
            sy as int,
            tc@,
            s@,
            idx as nat,
            offx as int,
            offy as int,
            cap as int,
        ));
    }
}

/// Renders templated text into one composed SVG fragment: every
/// `\n`-delimited line is laid out by the marker hierarchy and wrapped in
/// a group at the denormalized offset and its stacked vertical position,
/// the groups concatenated in line order. The result is the fragment the
/// consuming shape embeds in its own document.
pub fn render(
    font: &FontHandle,
    content: &str,
    color_scheme: &ColorScheme,
    sx: u64,
    sy: u64,
    offx_n: i64,
    offy_n: i64,
    width: u32,
    height: u32,
) -> (r: String)
    ensures
        r@ == content_svg(
            font@,
            sx as int,
            sy as int,
            color_scheme.text@,
            content@,
            offx_n as int,
            offy_n as int,
            width as int,
            height as int,
        ),
{
    let fsu: u128 = (sx as u128 + sy as u128) / 2;
    let fs: i128 = fsu as i128;
    let cap = font.cap_height_milli(sx, sy);
    proof {
        assert(-39614081257132168796771975168 <= (offx_n as int) * (width as int)
            <= 39614081257132168796771975168 && -39614081257132168796771975168 <= (offy_n as int)
            * (height as int) <= 39614081257132168796771975168) by (nonlinear_arith)
            requires
                -0x8000_0000_0000_0000 <= offx_n as int <= 0x7FFF_FFFF_FFFF_FFFF,
                0 <= width as int <= 0xFFFF_FFFF,
                -0x8000_0000_0000_0000 <= offy_n as int <= 0x7FFF_FFFF_FFFF_FFFF,
                0 <= height as int <= 0xFFFF_FFFF,
        ;
    }
    let offx: i128 = (offx_n as i128) * (width as i128);
    let offy: i128 = (offy_n as i128) * (height as i128);
    // Measuring the content once shows the line renderer that the line
    // index, which never passes the character count, stays in bounds.
    let content_chars: usize = content.unicode_len();
    proof {
        assert(content_chars as int == content@.len());
    }
    let mut out = String::new();
    render_lines(font, sx, sy, color_scheme.text.as_str(), fs, content, 0, offx, offy, cap, &mut out);
    out
}

/// Renders a whole brick against the shape's pixel dimensions; the same
/// layout as `render`, taking the bundled input of one render call.
pub fn parse_content(font: &FontHandle, brick: &BaseBrick, width: u32, height: u32) -> (r: String)
    ensures
        r@ == content_svg(
            font@,
            brick.scale_x as int,
            brick.scale_y as int,
            brick.color_scheme.text@,
            brick.content@,
            brick.offset_x as int,
            brick.offset_y as int,
            width as int,
            height as int,
        ),
{
    render(
        font,
        brick.content.as_str(),
        &brick.color_scheme,
        brick.scale_x,
        brick.scale_y,
        brick.offset_x,
        brick.offset_y,
        width,
        height,
    )
}

/// The composed SVG fragment of a whole render call: `content` laid out
/// with the font given by `data` at scale `(sx, sy)`, text color `tc`,
/// the normalized offset `(offx_n, offy_n)` (milli-units) denormalized
/// against the shape's pixel dimensions `(w, h)`.
pub open spec fn content_svg(
    data: Seq<u8>,
    sx: int,
    sy: int,
    tc: Seq<char>,
    content: Seq<char>,
    offx_n: int,
    offy_n: int,
    w: int,
    h: int,
) -> Seq<char> {
    lines_svg(
        data,
        sx,
        sy,
        tc,
        content,
        0,
        offx_n * w,
        offy_n * h,
        cap_height_of(data, sx, sy),
    )
}

} // verus!
