use brick_svg::{fmt_milli, render, ColorScheme, FontHandle};

fn be16(v: &mut Vec<u8>, x: u16) {
    v.extend_from_slice(&x.to_be_bytes());
}

fn be32(v: &mut Vec<u8>, x: u32) {
    v.extend_from_slice(&x.to_be_bytes());
}

// A minimal TrueType font: ascender 800, descender -200, line gap 0 (so
// the cap height at scale `(sx, sy)` is exactly `sy`), one glyph with an
// advance of 500 font units, and no character map, so every character
// falls back to that glyph. At scale x the advance of a character is
// 500 * sx / 1000, half the horizontal font size. Without `with_metrics`
// the metrics table is left out entirely: the font still parses, but no
// glyph can be laid out.
fn font_data(with_metrics: bool) -> Vec<u8> {
    let n_tables: u16 = if with_metrics { 4 } else { 3 };
    let head_off: u32 = 12 + 16 * n_tables as u32;
    let hhea_off: u32 = head_off + 54;
    let hmtx_off: u32 = hhea_off + 36;
    let maxp_off: u32 = if with_metrics { hmtx_off + 4 } else { hmtx_off };
    let mut f = Vec::new();
    be32(&mut f, 0x00010000); // sfnt version
    be16(&mut f, n_tables);
    be16(&mut f, 0);
    be16(&mut f, 0);
    be16(&mut f, 0);
    let mut records = vec![(*b"head", head_off, 54u32), (*b"hhea", hhea_off, 36)];
    if with_metrics {
        records.push((*b"hmtx", hmtx_off, 4));
    }
    records.push((*b"maxp", maxp_off, 6));
    for (tag, off, len) in records {
        f.extend_from_slice(&tag);
        be32(&mut f, 0); // checksum, not validated
        be32(&mut f, off);
        be32(&mut f, len);
    }
    // head
    be32(&mut f, 0x00010000); // version
    be32(&mut f, 0); // revision
    be32(&mut f, 0); // checksum adjustment
    be32(&mut f, 0x5F0F3CF5); // magic
    be16(&mut f, 0); // flags
    be16(&mut f, 1000); // units per em
    f.extend_from_slice(&[0u8; 16]); // created + modified
    f.extend_from_slice(&[0u8; 8]); // bounding box
    be16(&mut f, 0); // mac style
    be16(&mut f, 0); // lowest rec ppem
    be16(&mut f, 0); // direction hint
    be16(&mut f, 0); // index-to-location format
    be16(&mut f, 0); // glyph data format
    // hhea
    be32(&mut f, 0x00010000); // version
    be16(&mut f, 800); // ascender
    be16(&mut f, (-200i16) as u16); // descender
    be16(&mut f, 0); // line gap
    f.extend_from_slice(&[0u8; 24]);
    be16(&mut f, 1); // number of long metrics
    if with_metrics {
        // hmtx
        be16(&mut f, 500); // advance of glyph 0
        be16(&mut f, 0); // side bearing
    }
    // maxp
    be32(&mut f, 0x00005000); // version
    be16(&mut f, 1); // glyph count
    f
}

fn mini_font() -> FontHandle {
    FontHandle::from_bytes(font_data(true))
}

// The complete font again, plus variation tables: one axis (fvar) and an
// HVAR store whose single delta drags glyph 0's advance below zero. The
// store's one region is all-zero, so it applies in full at the default
// coordinates: the effective advance of every character is negative, a
// font the library must absorb, never crash on.
fn variable_font_data() -> Vec<u8> {
    let mut f = Vec::new();
    be32(&mut f, 0x00010000); // sfnt version
    be16(&mut f, 6); // table count
    be16(&mut f, 0);
    be16(&mut f, 0);
    be16(&mut f, 0);
    for (tag, off, len) in [
        (*b"HVAR", 108u32, 48u32),
        (*b"fvar", 156, 36),
        (*b"head", 192, 54),
        (*b"hhea", 246, 36),
        (*b"hmtx", 282, 4),
        (*b"maxp", 286, 6),
    ] {
        f.extend_from_slice(&tag);
        be32(&mut f, 0); // checksum, not validated
        be32(&mut f, off);
        be32(&mut f, len);
    }
    // HVAR: header, then an item variation store
    be32(&mut f, 0x00010000); // version
    be32(&mut f, 16); // variation store offset
    be32(&mut f, 0); // no advance mapping: glyph ids index directly
    be32(&mut f, 0); // no side-bearing mapping
    be16(&mut f, 1); // store format
    be32(&mut f, 12); // region list offset, from the store's start
    be16(&mut f, 1); // variation data count
    be32(&mut f, 22); // offset of the one variation data table
    be16(&mut f, 1); // region list: axis count
    be16(&mut f, 1); // region count
    be16(&mut f, 0); // the region on its one axis: start
    be16(&mut f, 0); // peak (zero: applies at the default coordinates)
    be16(&mut f, 0); // end
    be16(&mut f, 1); // variation data: item count
    be16(&mut f, 1); // short delta count
    be16(&mut f, 1); // region index count
    be16(&mut f, 0); // the region index
    be16(&mut f, (-600i16) as u16); // the delta: 500 - 600 is negative
    // fvar
    be32(&mut f, 0x00010000); // version
    be16(&mut f, 16); // axes array offset
    be16(&mut f, 2); // reserved
    be16(&mut f, 1); // axis count
    be16(&mut f, 20); // axis size
    be16(&mut f, 0); // instance count
    be16(&mut f, 0); // instance size
    f.extend_from_slice(b"wght"); // axis tag
    be32(&mut f, 0x00190000); // minimum, 400.0
    be32(&mut f, 0x00190000); // default
    be32(&mut f, 0x00190000); // maximum
    be16(&mut f, 0); // flags
    be16(&mut f, 0); // name id
    // head, hhea, hmtx and maxp as in the plain font
    let plain = font_data(true);
    f.extend_from_slice(&plain[76..]);
    f
}

fn metricless_font() -> FontHandle {
    FontHandle::from_bytes(font_data(false))
}

#[test]
fn cap_height_scales_with_the_vertical_size() {
    let font = mini_font();
    assert_eq!(font.cap_height(18750, 13000), 13000);
    assert_eq!(font.cap_height(18750, 26000), 26000);
    assert_eq!(font.cap_height(10000, 1000), 1000);
}

#[test]
fn advances_scale_with_the_horizontal_size() {
    let font = mini_font();
    assert_eq!(font.metrics("A", 18750, 13000), (9375, 13000));
    assert_eq!(font.metrics("AB", 18750, 13000), (18750, 13000));
    assert_eq!(font.metrics("ABCD", 1000, 1000), (2000, 1000));
    assert_eq!(font.metrics("", 18750, 13000), (0, 13000));
}

#[test]
fn drop_marker_shifts_the_tail_by_four_fifths() {
    let font = mini_font();
    let scheme = ColorScheme::default();
    let out = render(&font, "A*B*C", &scheme, 18750, 13000, 0, 0, 350, 16);
    // "A" advances 9.375 px; the drop segment "B" reports 0.8 of that, so
    // "C" starts at 9.375 + 7.5 px.
    assert!(out.contains("<g transform=\"translate(9.375 0)\">"));
    assert!(out.contains("<g transform=\"translate(16.875 0)\">"));
    // The drop run itself keeps the full-scale layout under a 0.8 scale
    // transform.
    assert!(out.contains("transform=\"scale(0.8)\">B</text>"));
}

#[test]
fn variable_marker_keeps_the_full_advance() {
    let font = mini_font();
    let scheme = ColorScheme::default();
    let out = render(&font, "X$Y$Z", &scheme, 18750, 13000, 0, 0, 350, 16);
    // "X" advances 9.375 px; the variable run "Y" keeps its full 9.375 px,
    // so "Z" starts at 18.75 px, and the underline spans 9.375 px.
    assert!(out.contains("<g transform=\"translate(9.375 0)\">"));
    assert!(out.contains("<g transform=\"translate(18.75 0)\">"));
    assert!(out.contains("x1=\"0\" y1=\"-0.1\" x2=\"9.375\" y2=\"-0.1\""));
}

#[test]
fn lines_stack_at_one_point_one_cap_heights() {
    let font = mini_font();
    let scheme = ColorScheme::default();
    let out = render(&font, "A\nB\nC", &scheme, 18750, 13000, 0, 0, 350, 16);
    // cap height 13 px: lines at 20, 20 + 14.3 and 20 + 28.6 px.
    assert!(out.contains("<g transform=\"translate(0 20)\">"));
    assert!(out.contains("<g transform=\"translate(0 34.3)\">"));
    assert!(out.contains("<g transform=\"translate(0 48.6)\">"));
}

#[test]
fn a_font_without_metrics_absorbs_to_zero_advances() {
    // The font parses, so its vertical metrics are real, but no glyph can
    // be laid out: advances degrade to zero instead of failing.
    let font = metricless_font();
    assert_eq!(font.cap_height(18750, 13000), 13000);
    assert_eq!(font.metrics("A", 18750, 13000), (0, 13000));
    assert_eq!(font.metrics("some longer run", 18750, 13000), (0, 13000));
    let scheme = ColorScheme::default();
    let out = render(&font, "A*B*C", &scheme, 18750, 13000, 0, 0, 350, 16);
    assert!(out.contains("<g transform=\"translate(0 20)\">"));
}

#[test]
fn a_variable_font_with_negative_advances_absorbs_to_zero() {
    let font = FontHandle::from_bytes(variable_font_data());
    // The variation store leaves the vertical metrics untouched.
    assert_eq!(font.cap_height(18750, 13000), 13000);
    // Every character's effective advance is negative, which the font
    // library reports as no advance at all: the run cannot be laid out,
    // so it degrades to zero width instead of failing.
    assert_eq!(font.metrics("A", 18750, 13000), (0, 13000));
    let scheme = ColorScheme::default();
    let out = render(&font, "A*B", &scheme, 18750, 13000, 0, 0, 350, 16);
    assert!(out.contains("<g transform=\"translate(0 20)\">"));
}

#[test]
fn marker_split_leaves_markers_out_of_the_runs() {
    let font = mini_font();
    let scheme = ColorScheme::default();
    let style = format!(
        "style=\"fill:#ffffff;font-size:{}px;font-family:'Roboto',sans-serif;font-weight:bold;\"",
        fmt_milli(15875)
    );
    let out = render(&font, "A*B", &scheme, 18750, 13000, 0, 0, 350, 16);
    let expected = format!(
        "<g transform=\"translate(0 20)\"><g transform=\"translate(0 0)\"><g transform=\"translate(0 0)\"><text xml:space=\"preserve\" {st}>A</text></g><g transform=\"translate(9.375 0)\"><text xml:space=\"preserve\" {st} transform=\"scale(0.8)\">B</text></g></g></g>",
        st = style
    );
    assert_eq!(out, expected);
}
