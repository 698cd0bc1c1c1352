use brick_svg::{fmt_milli, render, ColorScheme, FontHandle};

// The byte vector here is not a loadable font, so every metric the handle
// answers is zero; the tests build their expected strings from the
// handle's own answers, so they hold for any font data.
fn test_font() -> FontHandle {
    FontHandle::from_bytes(vec![1, 2, 3, 4])
}

fn style() -> String {
    format!(
        "style=\"fill:#ffffff;font-size:{}px;font-family:'Roboto',sans-serif;font-weight:bold;\"",
        fmt_milli(15875)
    )
}

fn text_el(content: &str) -> String {
    format!("<text xml:space=\"preserve\" {}>{}</text>", style(), content)
}

fn drop_el(content: &str) -> String {
    format!(
        "<text xml:space=\"preserve\" {} transform=\"scale(0.8)\">{}</text>",
        style(),
        content
    )
}

fn variable_el(content: &str, adv: i64) -> String {
    format!(
        "<g><text xml:space=\"preserve\" {}>{}</text><line stroke=\"#ffffff\" x1=\"0\" y1=\"-0.1\" x2=\"{}\" y2=\"-0.1\"/></g>",
        style(),
        content,
        fmt_milli(adv as i128)
    )
}

fn wrap(x: i64, body: &str) -> String {
    format!("<g transform=\"translate({} 0)\">{}</g>", fmt_milli(x as i128), body)
}

fn line_at(x: i128, y: i128, body: &str) -> String {
    format!(
        "<g transform=\"translate({} {})\">{}</g>",
        fmt_milli(x),
        fmt_milli(y),
        body
    )
}

fn render_default(content: &str) -> String {
    let font = test_font();
    let scheme = ColorScheme::default();
    render(&font, content, &scheme, 18750, 13000, 0, 0, 350, 16)
}

#[test]
fn empty_content_is_one_empty_line() {
    let font = test_font();
    let cap = font.cap_height(18750, 13000) as i128;
    let expected = line_at(0, 20000 + 0 * cap, &wrap(0, &wrap(0, &text_el(""))));
    assert_eq!(render_default(""), expected);
}

#[test]
fn plain_text_is_one_text_run() {
    let expected = line_at(0, 20000, &wrap(0, &wrap(0, &text_el("Hello"))));
    assert_eq!(render_default("Hello"), expected);
}

#[test]
fn no_markers_means_one_text_run_per_line() {
    let out = render_default("Hi\nthere world\nlast");
    assert_eq!(out.matches("<text").count(), 3);
    assert_eq!(out.matches("<line").count(), 0);
    assert_eq!(out.matches("scale(0.8)").count(), 0);
}

#[test]
fn two_lines_stack_vertically() {
    let font = test_font();
    let cap = font.cap_height(18750, 13000) as i128;
    let y0 = 20000;
    let y1 = 11 * cap / 10 + 20000;
    let expected = format!(
        "{}{}",
        line_at(0, y0, &wrap(0, &wrap(0, &text_el("A")))),
        line_at(0, y1, &wrap(0, &wrap(0, &text_el("B"))))
    );
    assert_eq!(render_default("A\nB"), expected);
}

#[test]
fn offset_is_denormalized_against_dimensions() {
    let font = test_font();
    let scheme = ColorScheme::default();
    let out = render(&font, "A", &scheme, 18750, 13000, 500, 250, 350, 16);
    // offset x: 0.5 * 350 px = 175 px; offset y: 0.25 * 16 px = 4 px on the
    // 20 px margin.
    let expected = line_at(175000, 24000, &wrap(0, &wrap(0, &text_el("A"))));
    assert_eq!(out, expected);
}

#[test]
fn drop_marker_scales_advance_by_four_fifths() {
    let font = test_font();
    let (a1, _) = font.metrics("A", 18750, 13000);
    let (a2, _) = font.metrics("B", 18750, 13000);
    let inner = format!(
        "{}{}{}",
        wrap(0, &text_el("A")),
        wrap(a1, &drop_el("B")),
        wrap(a1 + 4 * a2 / 5, &wrap(0, &wrap(0, &text_el("C"))))
    );
    let expected = line_at(0, 20000, &wrap(0, &inner));
    assert_eq!(render_default("A*B*C"), expected);
}

#[test]
fn variable_marker_keeps_full_advance_and_underlines() {
    let font = test_font();
    let (ax, _) = font.metrics("X", 18750, 13000);
    let (ay, _) = font.metrics("Y", 18750, 13000);
    let expected = line_at(
        0,
        20000,
        &format!(
            "{}{}{}",
            wrap(0, &wrap(0, &text_el("X"))),
            wrap(ax, &variable_el("Y", ay)),
            wrap(ax + ay, &wrap(0, &wrap(0, &text_el("Z"))))
        ),
    );
    assert_eq!(render_default("X$Y$Z"), expected);
}

#[test]
fn variable_at_line_end_has_no_third_part() {
    let font = test_font();
    let (ax, _) = font.metrics("X", 18750, 13000);
    let (ay, _) = font.metrics("Y", 18750, 13000);
    let expected = line_at(
        0,
        20000,
        &format!(
            "{}{}",
            wrap(0, &wrap(0, &text_el("X"))),
            wrap(ax, &variable_el("Y", ay))
        ),
    );
    assert_eq!(render_default("X$Y"), expected);
}

#[test]
fn rendering_twice_is_byte_identical() {
    let first = render_default("A*B*C\nx$y$z mixed *drop* and $var$");
    let second = render_default("A*B*C\nx$y$z mixed *drop* and $var$");
    assert_eq!(first, second);
}

#[test]
fn marker_storms_terminate() {
    // Markers at boundaries, doubled markers, empty segments: every input
    // must come back as a finite fragment.
    for content in [
        "***", "$$$", "*$*$*$", "$*$*$*", "*A", "A*", "$A", "A$", "**", "$$", "\n\n\n", "*\n$",
        "$$$$$$$$$$$$$$$$$$$$", "********************",
    ] {
        let out = render_default(content);
        assert!(out.starts_with("<g transform=\"translate("));
        assert!(out.ends_with("</g>"));
    }
}

#[test]
fn markup_in_user_text_passes_through_unescaped() {
    // The engine's documented gap: XML-special characters are not escaped,
    // they land in the text element exactly as typed.
    let out = render_default("a<b & c>d");
    assert!(out.contains(">a<b & c>d</text>"));
}

#[test]
fn unloadable_font_degrades_to_zero_metrics() {
    let font = test_font();
    assert_eq!(font.cap_height(18750, 13000), 0);
    assert_eq!(font.metrics("anything at all", 18750, 13000), (0, 0));
    assert_eq!(font.metrics("", 18750, 13000), (0, 0));
}

#[test]
fn variable_underline_spans_reported_advance() {
    let out = render_default("a$bc$d");
    let font = test_font();
    let (a_bc, _) = font.metrics("bc", 18750, 13000);
    let underline = format!(
        "<line stroke=\"#ffffff\" x1=\"0\" y1=\"-0.1\" x2=\"{}\" y2=\"-0.1\"/>",
        fmt_milli(a_bc as i128)
    );
    assert!(out.contains(&underline));
}
