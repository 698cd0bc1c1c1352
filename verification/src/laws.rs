//! Laws of the layout engine.
//!
//! Each proof function here states one property of the rendered output as
//! a whole, over the spec functions that `render` and `parse_content` are
//! proved against.

use vstd::prelude::*;

use crate::font::advance_of;
use crate::font::cap_height_of;
use crate::layout::{
    content_svg, drop_advance, drop_el, find, font_size_of, lemma_find_bounds, lemma_find_is,
    line_at, line_segment_svg, line_svg, line_y, lines_svg, text_el, variable_el, wrap_at,
    DROP_MARKER, VARIABLE_MARKER,
};
use crate::numfmt::fmt_milli_spec;

verus! {

/// `s` holds no marker of either kind.
pub open spec fn no_marker(s: Seq<char>) -> bool {
    forall|k: int| 0 <= k < s.len() ==> s[k] != DROP_MARKER && s[k] != VARIABLE_MARKER
}

/// `s` holds no variable marker.
pub open spec fn no_variable_marker(s: Seq<char>) -> bool {
    forall|k: int| 0 <= k < s.len() ==> s[k] != VARIABLE_MARKER
}

/// The first marker of a marked concatenation stands right after the
/// unmarked prefix.
proof fn lemma_find_marker_concat(a: Seq<char>, rest: Seq<char>, c: char)
    requires
        forall|k: int| 0 <= k < a.len() ==> a[k] != c,
    ensures
        find(a + seq![c] + rest, c) == a.len(),
{
    let s = a + seq![c] + rest;
    assert(s[a.len() as int] == c);
    assert(forall|k: int| 0 <= k < a.len() ==> #[trigger] s[k] == a[k]);
    lemma_find_is(s, c, a.len() as int);
}

/// A line without markers is laid out as exactly one plain text run.
pub proof fn lemma_line_no_markers(data: Seq<u8>, sx: int, sy: int, tc: Seq<char>, s: Seq<char>)
    requires
        no_marker(s),
    ensures
        line_svg(data, sx, sy, tc, s) == wrap_at(
            0,
            wrap_at(0, text_el(s, tc, font_size_of(sx, sy))),
        ),
{
    lemma_find_is(s, VARIABLE_MARKER, s.len() as int);
    lemma_find_is(s, DROP_MARKER, s.len() as int);
    assert(find(s, VARIABLE_MARKER) == s.len());
    assert(find(s, DROP_MARKER) == s.len());
    assert(line_segment_svg(data, sx, sy, tc, s) == wrap_at(
        0,
        text_el(s, tc, font_size_of(sx, sy)),
    ));
}

/// The output of a render whose content holds no markers: one plain text
/// run per line, each line group at `line_y(idx, cap, offy)`.
pub open spec fn plain_lines_svg(
    tc: Seq<char>,
    fs: int,
    s: Seq<char>,
    idx: nat,
    offx: int,
    offy: int,
    cap: int,
) -> Seq<char>
    decreases s.len(),
    via plain_lines_svg_decreases
{
    let i = find(s, '\n');
    let y = line_y(idx, cap, offy);
    if i == s.len() {
        line_at(offx, y, wrap_at(0, wrap_at(0, text_el(s, tc, fs))))
    } else {
        line_at(offx, y, wrap_at(0, wrap_at(0, text_el(s.subrange(0, i), tc, fs))))
            + plain_lines_svg(tc, fs, s.subrange(i + 1, s.len() as int), idx + 1, offx, offy, cap)
    }
}

#[via_fn]
proof fn plain_lines_svg_decreases(
    tc: Seq<char>,
    fs: int,
    s: Seq<char>,
    idx: nat,
    offx: int,
    offy: int,
    cap: int,
) {
    lemma_find_bounds(s, '\n');
}

/// For content with no markers the output is exactly one text run per
/// line, and line `idx` sits at `line_y(idx, cap, offy)`: 1.1 times the
/// cap height per line below the 20-pixel margin and the vertical offset.
pub proof fn lemma_no_marker_lines(
    data: Seq<u8>,
    sx: int,
    sy: int,
    tc: Seq<char>,
    s: Seq<char>,
    idx: nat,
    offx: int,
    offy: int,
    cap: int,
)
    requires
        no_marker(s),
    ensures
        lines_svg(data, sx, sy, tc, s, idx, offx, offy, cap) == plain_lines_svg(
            tc,
            font_size_of(sx, sy),
            s,
            idx,
            offx,
            offy,
            cap,
        ),
    decreases s.len(),
{
    let i = find(s, '\n');
    lemma_find_bounds(s, '\n');
    if i == s.len() {
        lemma_line_no_markers(data, sx, sy, tc, s);
    } else {
        let line = s.subrange(0, i);
        assert(no_marker(line)) by {
            assert(forall|k: int| 0 <= k < line.len() ==> #[trigger] line[k] == s[k]);
        }
        lemma_line_no_markers(data, sx, sy, tc, line);
        let rem = s.subrange(i + 1, s.len() as int);
        assert(no_marker(rem)) by {
            assert(forall|k: int| 0 <= k < rem.len() ==> #[trigger] rem[k] == s[k + i + 1]);
        }
        lemma_no_marker_lines(data, sx, sy, tc, rem, idx + 1, offx, offy, cap);
    }
}

/// The same, stated of the whole render: a markerless content denormalizes
/// its offset and yields one text run per line at the stacked positions.
pub proof fn lemma_no_marker_render(
    data: Seq<u8>,
    sx: int,
    sy: int,
    tc: Seq<char>,
    content: Seq<char>,
    offx_n: int,
    offy_n: int,
    w: int,
    h: int,
)
    requires
        no_marker(content),
    ensures
        content_svg(data, sx, sy, tc, content, offx_n, offy_n, w, h) == plain_lines_svg(
            tc,
            font_size_of(sx, sy),
            content,
            0,
            offx_n * w,
            offy_n * h,
            cap_height_of(data, sx, sy),
        ),
{
    lemma_no_marker_lines(
        data,
        sx,
        sy,
        tc,
        content,
        0,
        offx_n * w,
        offy_n * h,
        cap_height_of(data, sx, sy),
    );
}

/// A line's vertical position does not depend on its text or markers: any
/// single-line content is wrapped at exactly `line_y(idx, cap, offy)`.
pub proof fn lemma_line_position_independent(
    data: Seq<u8>,
    sx: int,
    sy: int,
    tc: Seq<char>,
    s: Seq<char>,
    idx: nat,
    offx: int,
    offy: int,
    cap: int,
)
    requires
        forall|k: int| 0 <= k < s.len() ==> s[k] != '\n',
    ensures
        lines_svg(data, sx, sy, tc, s, idx, offx, offy, cap) == line_at(
            offx,
            line_y(idx, cap, offy),
            line_svg(data, sx, sy, tc, s),
        ),
{
    lemma_find_is(s, '\n', s.len() as int);
}

/// A drop segment reports 0.8 times the full-scale advance of its text:
/// in `a*b*c` the part after the second marker is laid out at
/// `advance(a) + drop_advance(advance(b))`, while the drop run `b` itself
/// is placed at `advance(a)`.
pub proof fn lemma_drop_segment(
    data: Seq<u8>,
    sx: int,
    sy: int,
    tc: Seq<char>,
    a: Seq<char>,
    b: Seq<char>,
    c: Seq<char>,
)
    requires
        no_marker(a),
        no_marker(b),
    ensures
        ({
            let fs = font_size_of(sx, sy);
            let a0 = advance_of(data, sx, sy, a);
            let a1 = advance_of(data, sx, sy, b);
            line_segment_svg(data, sx, sy, tc, a + seq![DROP_MARKER] + b + seq![DROP_MARKER] + c)
                == wrap_at(0, text_el(a, tc, fs)) + wrap_at(a0, drop_el(b, tc, fs)) + wrap_at(
                a0 + drop_advance(a1),
                line_svg(data, sx, sy, tc, c),
            )
        }),
{
    let m = seq![DROP_MARKER];
    let s = a + m + b + m + c;
    assert(s =~= a + m + (b + m + c));
    lemma_find_marker_concat(a, b + m + c, DROP_MARKER);
    let i = find(s, DROP_MARKER);
    assert(i == a.len());
    assert(s.subrange(0, i) =~= a);
    let rest = s.subrange(i + 1, s.len() as int);
    assert(rest =~= b + m + c);
    lemma_find_marker_concat(b, c, DROP_MARKER);
    let j = find(rest, DROP_MARKER);
    assert(j == b.len());
    assert(rest.subrange(0, j) =~= b);
    assert(rest.subrange(j + 1, rest.len() as int) =~= c);
}

/// A drop segment at the end of a line: `a*b` is a plain run `a` and a
/// drop run `b` placed at `advance(a)`.
pub proof fn lemma_drop_segment_tail(
    data: Seq<u8>,
    sx: int,
    sy: int,
    tc: Seq<char>,
    a: Seq<char>,
    b: Seq<char>,
)
    requires
        no_marker(a),
        no_marker(b),
    ensures
        ({
            let fs = font_size_of(sx, sy);
            line_segment_svg(data, sx, sy, tc, a + seq![DROP_MARKER] + b) == wrap_at(
                0,
                text_el(a, tc, fs),
            ) + wrap_at(advance_of(data, sx, sy, a), drop_el(b, tc, fs))
        }),
{
    let m = seq![DROP_MARKER];
    let s = a + m + b;
    lemma_find_marker_concat(a, b, DROP_MARKER);
    let i = find(s, DROP_MARKER);
    assert(s.subrange(0, i) =~= a);
    let rest = s.subrange(i + 1, s.len() as int);
    assert(rest =~= b);
    lemma_find_is(rest, DROP_MARKER, rest.len() as int);
}

/// A variable segment is rendered at full scale and full advance: in
/// `x$y$z` the variable run `y` carries `advance(y)` (its underline spans
/// exactly that), sits at `advance(x)`, and the rest follows at
/// `advance(x) + advance(y)`.
pub proof fn lemma_variable_segment(
    data: Seq<u8>,
    sx: int,
    sy: int,
    tc: Seq<char>,
    x: Seq<char>,
    y: Seq<char>,
    z: Seq<char>,
)
    requires
        no_variable_marker(x),
        no_variable_marker(y),
    ensures
        ({
            let fs = font_size_of(sx, sy);
            let a0 = advance_of(data, sx, sy, x);
            let a1 = advance_of(data, sx, sy, y);
            line_svg(data, sx, sy, tc, x + seq![VARIABLE_MARKER] + y + seq![VARIABLE_MARKER] + z)
                == wrap_at(0, line_segment_svg(data, sx, sy, tc, x)) + wrap_at(
                a0,
                variable_el(y, tc, fs, a1),
            ) + wrap_at(a0 + a1, line_svg(data, sx, sy, tc, z))
        }),
{
    let m = seq![VARIABLE_MARKER];
    let s = x + m + y + m + z;
    assert(s =~= x + m + (y + m + z));
    lemma_find_marker_concat(x, y + m + z, VARIABLE_MARKER);
    let i = find(s, VARIABLE_MARKER);
    assert(i == x.len());
    assert(s.subrange(0, i) =~= x);
    let rest = s.subrange(i + 1, s.len() as int);
    assert(rest =~= y + m + z);
    lemma_find_marker_concat(y, z, VARIABLE_MARKER);
    let j = find(rest, VARIABLE_MARKER);
    assert(j == y.len());
    assert(rest.subrange(0, j) =~= y);
    assert(rest.subrange(j + 1, rest.len() as int) =~= z);
}

/// A variable segment at the end of a line: `x$y` is a drop-segment pass
/// over `x` and a variable run `y` at full advance, placed at
/// `advance(x)`.
pub proof fn lemma_variable_segment_tail(
    data: Seq<u8>,
    sx: int,
    sy: int,
    tc: Seq<char>,
    x: Seq<char>,
    y: Seq<char>,
)
    requires
        no_variable_marker(x),
        no_variable_marker(y),
    ensures
        ({
            let fs = font_size_of(sx, sy);
            line_svg(data, sx, sy, tc, x + seq![VARIABLE_MARKER] + y) == wrap_at(
                0,
                line_segment_svg(data, sx, sy, tc, x),
            ) + wrap_at(
                advance_of(data, sx, sy, x),
                variable_el(y, tc, fs, advance_of(data, sx, sy, y)),
            )
        }),
{
    let m = seq![VARIABLE_MARKER];
    let s = x + m + y;
    lemma_find_marker_concat(x, y, VARIABLE_MARKER);
    let i = find(s, VARIABLE_MARKER);
    assert(s.subrange(0, i) =~= x);
    let rest = s.subrange(i + 1, s.len() as int);
    assert(rest =~= y);
    lemma_find_is(rest, VARIABLE_MARKER, rest.len() as int);
}

/// The reported advance of a drop segment is 0.8 times the full-scale
/// advance, in whole milli-pixels: five times the reported advance falls
/// short of four times the full advance by less than one part in five.
pub proof fn lemma_drop_advance_is_four_fifths(a: int)
    requires
        a >= 0,
    ensures
        5 * drop_advance(a) <= 4 * a < 5 * (drop_advance(a) + 1),
{
    assert(5 * ((4 * a) / 5) <= 4 * a < 5 * ((4 * a) / 5 + 1)) by (nonlinear_arith)
        requires
            a >= 0,
    ;
}

/// The underline of a variable run spans exactly its advance: a variable
/// run is the plain run plus a line primitive from `x1="0"` to `x2=adv`.
pub proof fn lemma_variable_underline(content: Seq<char>, tc: Seq<char>, fs: int, adv: int)
    ensures
        variable_el(content, tc, fs, adv) == "<g>"@ + text_el(content, tc, fs)
            + "<line stroke=\""@ + tc + "\" x1=\"0\" y1=\"-0.1\" x2=\""@ + fmt_milli_spec(adv)
            + "\" y2=\"-0.1\"/></g>"@,
{
    reveal(variable_el);
    reveal(text_el);
    reveal_strlit("<g><text xml:space=\"preserve\" ");
    reveal_strlit("<g>");
    reveal_strlit("<text xml:space=\"preserve\" ");
    reveal_strlit("</text><line stroke=\"");
    reveal_strlit("</text>");
    reveal_strlit("<line stroke=\"");
    assert(variable_el(content, tc, fs, adv) =~= "<g>"@ + text_el(content, tc, fs)
        + "<line stroke=\""@ + tc + "\" x1=\"0\" y1=\"-0.1\" x2=\""@ + fmt_milli_spec(adv)
        + "\" y2=\"-0.1\"/></g>"@);
}

/// Rendering is a pure function of its inputs: two renders of the same
/// content, colors, scale, offset and dimensions are equal, character for
/// character.
pub proof fn lemma_render_idempotent(
    r1: Seq<char>,
    r2: Seq<char>,
    data: Seq<u8>,
    sx: int,
    sy: int,
    tc: Seq<char>,
    content: Seq<char>,
    offx_n: int,
    offy_n: int,
    w: int,
    h: int,
)
    requires
        r1 == content_svg(data, sx, sy, tc, content, offx_n, offy_n, w, h),
        r2 == content_svg(data, sx, sy, tc, content, offx_n, offy_n, w, h),
    ensures
        r1 == r2,
{
}

} // verus!
