use badgen::compose::layout_run;
use badgen::node::SvgNode;
use badgen::node::escape_into;
use badgen::node::node_to_string;
use badgen::numfmt::push_cents;
use badgen::path::OutlineCmd;
use badgen::path::PathEvent;
use badgen::path::convert_outline;
use badgen::serialize::serialize_path;
use badgen::shape::ShapedGlyph;

fn cents(v: i64) -> String {
    let mut s = String::new();
    push_cents(&mut s, v);
    s
}

#[test]
fn cents_format_two_decimals() {
    assert_eq!(cents(0), "0.00");
    assert_eq!(cents(5), "0.05");
    assert_eq!(cents(-5), "-0.05");
    assert_eq!(cents(1234), "12.34");
    assert_eq!(cents(-1234567), "-12345.67");
    assert_eq!(cents(100), "1.00");
}

#[test]
fn serializer_emits_absolute_commands() {
    let path = vec![
        PathEvent::Begin { x: 100, y: 250 },
        PathEvent::Line { x: -50, y: 0 },
        PathEvent::Quadratic { cx: 10, cy: 20, x: 30, y: 40 },
        PathEvent::Cubic { c1x: 1, c1y: 2, c2x: 3, c2y: 4, x: 5, y: 6 },
        PathEvent::End { closed: true },
    ];
    let s = serialize_path(&path);
    assert_eq!(
        s,
        "M1.00,2.50L-0.50,0.00Q0.10,0.20 0.30,0.40C0.01,0.02 0.03,0.04 0.05,0.06Z"
    );
}

#[test]
fn serializer_round_trip_token_counts() {
    // one Begin, one Line, one Cubic, one closed End: exactly one M, one
    // L, one C, and a trailing Z
    let path = vec![
        PathEvent::Begin { x: 0, y: 0 },
        PathEvent::Line { x: 100, y: 0 },
        PathEvent::Cubic { c1x: 1, c1y: 2, c2x: 3, c2y: 4, x: 5, y: 6 },
        PathEvent::End { closed: true },
    ];
    let s = serialize_path(&path);
    assert_eq!(s.chars().filter(|c| *c == 'M').count(), 1);
    assert_eq!(s.chars().filter(|c| *c == 'L').count(), 1);
    assert_eq!(s.chars().filter(|c| *c == 'C').count(), 1);
    assert!(s.ends_with('Z'));

    let open_path = vec![
        PathEvent::Begin { x: 0, y: 0 },
        PathEvent::Line { x: 100, y: 0 },
        PathEvent::Cubic { c1x: 1, c1y: 2, c2x: 3, c2y: 4, x: 5, y: 6 },
        PathEvent::End { closed: false },
    ];
    let t = serialize_path(&open_path);
    assert!(!t.ends_with('Z'));
    assert_eq!(t.chars().filter(|c| *c == 'Z').count(), 0);
}

#[test]
fn converter_scales_offsets_and_flips_y() {
    // units-per-em 500 at font size 20: four hundredths per font unit
    let cmds = vec![
        OutlineCmd::MoveTo { x: 10, y: 20 },
        OutlineCmd::LineTo { x: -10, y: 5 },
        OutlineCmd::QuadTo { x1: 1, y1: 2, x: 3, y: 4 },
        OutlineCmd::Close,
    ];
    let events = convert_outline(&cmds, 500, 1000, 2000);
    assert_eq!(
        events,
        vec![
            PathEvent::Begin { x: 1040, y: 1920 },
            PathEvent::Line { x: 960, y: 1980 },
            PathEvent::Quadratic { cx: 1004, cy: 1992, x: 1012, y: 1984 },
            PathEvent::End { closed: true },
        ]
    );
}

#[test]
fn converter_empty_outline_is_empty_path() {
    let cmds: Vec<OutlineCmd> = Vec::new();
    let events = convert_outline(&cmds, 1000, 0, 0);
    assert!(events.is_empty());
    assert_eq!(serialize_path(&events), "");
}

#[test]
fn converter_terminates_unclosed_subpath() {
    let cmds = vec![OutlineCmd::MoveTo { x: 0, y: 0 }, OutlineCmd::LineTo { x: 10, y: 0 }];
    let events = convert_outline(&cmds, 1000, 0, 0);
    assert_eq!(
        events,
        vec![
            PathEvent::Begin { x: 0, y: 0 },
            PathEvent::Line { x: 20, y: 0 },
            PathEvent::End { closed: false },
        ]
    );
}

fn glyph(gid: u32, adv: i32) -> ShapedGlyph {
    ShapedGlyph { glyph_id: gid, x_advance: adv, y_advance: 0, x_offset: 0, y_offset: 0 }
}

#[test]
fn run_cursor_is_start_plus_scaled_advances() {
    // units-per-em 1000: two hundredths per font unit
    let glyphs = vec![glyph(7, 100), glyph(8, 50)];
    let table: Vec<Vec<OutlineCmd>> = Vec::new();
    let out = layout_run(&glyphs, &table, 1000, 1920, 1000).unwrap();
    assert_eq!(out.end_x, 1000 + (100 + 50) * 2);
    // no outlines: no paths, yet the cursor advanced
    assert!(out.paths.is_empty());
}

#[test]
fn run_places_glyphs_left_to_right() {
    let glyphs = vec![glyph(0, 100), glyph(0, 100), glyph(0, 100)];
    let dot = vec![OutlineCmd::MoveTo { x: 0, y: 0 }, OutlineCmd::LineTo { x: 10, y: 0 }, OutlineCmd::Close];
    let table = vec![dot];
    let out = layout_run(&glyphs, &table, 0, 0, 1000).unwrap();
    assert_eq!(out.paths.len(), 3);
    assert!(out.paths[0].starts_with("M0.00,"));
    assert!(out.paths[1].starts_with("M2.00,"));
    assert!(out.paths[2].starts_with("M4.00,"));
    assert_eq!(out.end_x, 600);
}

#[test]
fn run_empty_outline_glyph_advances_without_path() {
    let dot = vec![OutlineCmd::MoveTo { x: 0, y: 0 }, OutlineCmd::LineTo { x: 10, y: 0 }, OutlineCmd::Close];
    let empty: Vec<OutlineCmd> = Vec::new();
    let table = vec![dot, empty];
    // glyph 1 has an empty outline and contributes no path, but its
    // advance still moves the cursor before glyph 0 is placed again
    let glyphs = vec![glyph(0, 100), glyph(1, 300), glyph(0, 100)];
    let out = layout_run(&glyphs, &table, 0, 0, 1000).unwrap();
    assert_eq!(out.paths.len(), 2);
    assert!(out.paths[0].starts_with("M0.00,"));
    assert!(out.paths[1].starts_with("M8.00,"));
    assert_eq!(out.end_x, (100 + 300 + 100) * 2);
}

#[test]
fn nodes_serialize_with_escaping() {
    let leaf = SvgNode {
        tag: String::from("b"),
        attrs: Vec::new(),
        text: String::new(),
        children: Vec::new(),
    };
    let node = SvgNode {
        tag: String::from("a"),
        attrs: vec![(String::from("k"), String::from("v<1\"2"))],
        text: String::from("x&y"),
        children: vec![leaf],
    };
    assert_eq!(node_to_string(&node), "<a k=\"v&lt;1&quot;2\">x&amp;y<b/></a>");
}

#[test]
fn escaping_covers_all_special_characters() {
    let mut out = String::new();
    escape_into(&mut out, "a&b<c>d\"e");
    assert_eq!(out, "a&amp;b&lt;c&gt;d&quot;e");
}
