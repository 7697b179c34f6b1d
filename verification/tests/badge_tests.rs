use badgen::badge::BadgerOptions;
use badgen::badge::FontData;
use badgen::badge::badgen;
use badgen::badge::bare;
use badgen::badge::create_accessible_text;
use badgen::badge::create_text_outline;
use badgen::error::BadgeError;
use badgen::node::node_to_string;
use badgen::path::OutlineCmd;

// A tiny demonstration font: units-per-em 1000, a `.notdef` glyph of
// advance 600, and an `A` glyph (mapped from U+0041) of advance 540.
const FONT: [u8; 400] = [
    0, 1, 0, 0, 0, 7, 0, 64, 0, 2, 0, 48, 99, 109, 97, 112,
    0, 9, 0, 118, 0, 0, 1, 0, 0, 0, 0, 44, 103, 108, 121, 102,
    241, 203, 102, 152, 0, 0, 1, 52, 0, 0, 0, 92, 104, 101, 97, 100,
    242, 53, 221, 248, 0, 0, 0, 124, 0, 0, 0, 54, 104, 104, 101, 97,
    6, 97, 0, 202, 0, 0, 0, 180, 0, 0, 0, 36, 104, 109, 116, 120,
    4, 116, 0, 106, 0, 0, 0, 248, 0, 0, 0, 8, 108, 111, 99, 97,
    0, 46, 0, 20, 0, 0, 1, 44, 0, 0, 0, 6, 109, 97, 120, 112,
    0, 5, 0, 11, 0, 0, 0, 216, 0, 0, 0, 32, 0, 1, 0, 0,
    0, 1, 0, 0, 245, 156, 41, 68, 95, 15, 60, 245, 0, 2, 3, 232,
    0, 0, 0, 0, 180, 146, 244, 0, 0, 0, 0, 0, 220, 47, 166, 92,
    0, 6, 0, 0, 2, 88, 2, 188, 0, 0, 0, 3, 0, 2, 0, 0,
    0, 0, 0, 0, 0, 1, 0, 0, 4, 0, 254, 112, 0, 0, 2, 88,
    0, 6, 255, 255, 2, 88, 0, 1, 0, 0, 0, 0, 0, 0, 0, 0,
    0, 0, 0, 0, 0, 0, 0, 2, 0, 1, 0, 0, 0, 2, 0, 11,
    0, 2, 0, 0, 0, 0, 0, 0, 0, 0, 0, 0, 0, 0, 0, 0,
    0, 0, 0, 0, 0, 0, 0, 0, 2, 88, 0, 100, 2, 28, 0, 6,
    0, 0, 0, 1, 0, 0, 0, 3, 0, 0, 0, 12, 0, 4, 0, 32,
    0, 0, 0, 4, 0, 4, 0, 1, 0, 0, 0, 65, 255, 255, 0, 0,
    0, 65, 255, 255, 255, 192, 0, 1, 0, 0, 0, 0, 0, 0, 0, 20,
    0, 46, 0, 0, 0, 2, 0, 100, 0, 0, 2, 88, 2, 188, 0, 3,
    0, 7, 0, 0, 51, 17, 33, 17, 37, 33, 17, 33, 100, 1, 244, 254,
    52, 1, 164, 254, 92, 2, 188, 253, 68, 40, 2, 108, 0, 2, 0, 6,
    0, 0, 2, 29, 2, 144, 0, 2, 0, 10, 0, 0, 19, 51, 3, 1,
    19, 51, 19, 35, 39, 35, 7, 173, 196, 99, 254, 248, 218, 96, 221, 89,
    62, 239, 66, 1, 11, 1, 64, 253, 181, 2, 144, 253, 112, 200, 200, 0,
];

fn options(status: &str, label: Option<&str>) -> BadgerOptions {
    BadgerOptions {
        status: String::from(status),
        status_color: None,
        label: label.map(String::from),
        label_color: None,
        icon: None,
        scale: None,
    }
}

fn font_data(outlines: Vec<Vec<OutlineCmd>>) -> FontData {
    FontData { bytes: FONT.to_vec(), index: 0, outlines }
}

fn attr<'a>(node: &'a badgen::node::SvgNode, name: &str) -> &'a str {
    for (k, v) in node.attrs.iter() {
        if k == name {
            return v;
        }
    }
    panic!("attribute {} not found", name);
}

#[test]
fn bare_mode_title_is_status_exactly() {
    let doc = bare(options("all good", None)).unwrap();
    assert_eq!(attr(&doc, "aria-label"), "all good");
    assert_eq!(doc.children[0].tag, "title");
    assert_eq!(doc.children[0].text, "all good");
}

#[test]
fn badgen_without_label_renders_bare_mode() {
    let doc = badgen(options("ok", None), &font_data(Vec::new())).unwrap();
    assert_eq!(attr(&doc, "aria-label"), "ok");
    assert_eq!(doc.children[0].text, "ok");
    assert_eq!(attr(&doc, "width"), "11.60");
    assert_eq!(attr(&doc, "height"), "20.00");
}

#[test]
fn bare_scale_stretches_the_document() {
    let mut o = options("ok", None);
    o.scale = Some(250);
    let doc = bare(o).unwrap();
    assert_eq!(attr(&doc, "width"), "29.00");
    assert_eq!(attr(&doc, "height"), "50.00");
}

#[test]
fn empty_status_fails_validation_before_font_work() {
    // the font bytes are garbage: validation must fire first, in both
    // modes and whatever else is set
    let junk = FontData { bytes: vec![1, 2, 3], index: 0, outlines: Vec::new() };
    let mut o = options("", Some("build"));
    o.status_color = Some(String::from("red"));
    o.icon = Some(String::from("icon.png"));
    assert!(matches!(badgen(o, &junk), Err(BadgeError::ValidationError)));
    assert!(matches!(badgen(options("", None), &junk), Err(BadgeError::ValidationError)));
    assert!(matches!(bare(options("", None)), Err(BadgeError::ValidationError)));
}

#[test]
fn unparseable_font_fails_the_render() {
    let junk = FontData { bytes: vec![0, 1, 2, 3, 4], index: 0, outlines: Vec::new() };
    assert!(matches!(
        badgen(options("OK", Some("build")), &junk),
        Err(BadgeError::FontParseError)
    ));
}

#[test]
fn unresolvable_label_color_falls_back_to_default() {
    let mut o = options("ok", None);
    o.label_color = Some(String::from("not-a-color"));
    let doc = bare(o).unwrap();
    // children[1] is the background rectangle
    assert_eq!(attr(&doc.children[1], "fill"), "#2719D1");
}

#[test]
fn color_names_resolve_case_insensitively() {
    let mut o = options("ok", None);
    o.label_color = Some(String::from("RED"));
    let doc = bare(o).unwrap();
    assert_eq!(attr(&doc.children[1], "fill"), "#DA3633");
}

#[test]
fn full_mode_title_is_label_colon_status() {
    let doc = badgen(options("OK", Some("build")), &font_data(Vec::new())).unwrap();
    assert_eq!(attr(&doc, "aria-label"), "build: OK");
    assert_eq!(doc.children[0].tag, "title");
    assert_eq!(doc.children[0].text, "build: OK");
}

#[test]
fn full_mode_rectangles_partition_the_width() {
    // every character of "build" and "OK" maps to `.notdef` (advance
    // 600 font units = 12 badge units); label run 60, status run 24.
    let doc = badgen(options("OK", Some("build")), &font_data(Vec::new())).unwrap();
    // children: title, background group, label group, status group, style
    let bg = &doc.children[1];
    assert_eq!(bg.tag, "g");
    let rect1 = &bg.children[0];
    let rect2 = &bg.children[1];
    // label box: icon span 0 + spacer 4 + run 60 + half spacer 2
    assert_eq!(attr(rect1, "width"), "66.00");
    // status box: run 24 + half spacer 2 + trailing spacer 4
    assert_eq!(attr(rect2, "width"), "30.00");
    assert_eq!(attr(rect2, "x"), "66.00");
    // total width = icon span + label run + spacer + status run +
    // trailing margin = 0 + 60 + 4 + 24 + 12 = 96
    assert_eq!(attr(&doc, "viewBox"), "0 0 96.00 24.00");
    assert_eq!(attr(rect1, "fill"), "#2719D1");
    assert_eq!(attr(rect2, "fill"), "#F8AA00");
    let style = &doc.children[4];
    assert_eq!(style.tag, "style");
    assert_eq!(style.text, "svg {height: 1.50em;width: 6.00em;border-radius: 10.00px;}");
}

#[test]
fn glyph_paths_land_in_the_run_groups() {
    // give `.notdef` a visible outline so both runs produce paths
    let notdef = vec![
        OutlineCmd::MoveTo { x: 100, y: 0 },
        OutlineCmd::LineTo { x: 500, y: 0 },
        OutlineCmd::LineTo { x: 300, y: 700 },
        OutlineCmd::Close,
    ];
    let doc = badgen(options("OK", Some("build")), &font_data(vec![notdef])).unwrap();
    let label_group = &doc.children[2];
    let status_group = &doc.children[3];
    assert_eq!(label_group.tag, "g");
    assert_eq!(attr(label_group, "fill"), "#FDA902");
    assert_eq!(attr(status_group, "fill"), "#000000");
    assert_eq!(label_group.children.len(), 5);
    assert_eq!(status_group.children.len(), 2);
    let first = &label_group.children[0];
    assert_eq!(first.tag, "path");
    // label starts at 4 badge units; 100 font units is 2 more; the
    // baseline is 19.2 and Y is flipped
    assert_eq!(attr(first, "d"), "M6.00,19.20L14.00,19.20L10.00,5.20Z");
    assert_eq!(attr(first, "filter"), "url(#outlineBehindFilter)");
}

#[test]
fn identical_inputs_give_byte_identical_output() {
    let notdef = vec![
        OutlineCmd::MoveTo { x: 100, y: 0 },
        OutlineCmd::LineTo { x: 500, y: 0 },
        OutlineCmd::Close,
    ];
    let mut o = options("OK", Some("build"));
    o.status_color = Some(String::from("green"));
    let a = badgen(o.clone(), &font_data(vec![notdef.clone()])).unwrap();
    let b = badgen(o, &font_data(vec![notdef])).unwrap();
    assert_eq!(node_to_string(&a), node_to_string(&b));
}

#[test]
fn shaped_a_advances_by_its_metric() {
    // "A" maps to the A glyph of advance 540 font units = 10.8 units
    let doc = badgen(options("A", Some("A")), &font_data(Vec::new())).unwrap();
    let bg = &doc.children[1];
    // label box: spacer 4 + run 10.8 + half spacer 2
    assert_eq!(attr(&bg.children[0], "width"), "16.80");
    assert_eq!(attr(&doc, "viewBox"), "0 0 33.60 24.00");
}

#[test]
fn icon_reserves_its_span() {
    let mut o = options("OK", Some("build"));
    o.icon = Some(String::from("logo.png"));
    let doc = badgen(o, &font_data(Vec::new())).unwrap();
    assert_eq!(attr(&doc, "xmlns:xlink"), "http://www.w3.org/1999/xlink");
    let image = &doc.children[1];
    assert_eq!(image.tag, "image");
    assert_eq!(attr(image, "xlink:href"), "logo.png");
    let bg = &doc.children[2];
    // icon span 40 + spacer 4 + run 60 + half spacer 2
    assert_eq!(attr(&bg.children[0], "width"), "106.00");
}

#[test]
fn accessible_text_joins_label_and_status() {
    assert_eq!(create_accessible_text("build", "OK"), "build: OK");
}

#[test]
fn text_outline_filter_has_its_stages() {
    let f = create_text_outline();
    assert_eq!(f.tag, "filter");
    assert_eq!(f.children.len(), 4);
    assert_eq!(f.children[0].tag, "feMorphology");
    assert_eq!(f.children[3].tag, "feMerge");
    let s = node_to_string(&f);
    assert!(s.starts_with("<filter id=\"outlineBehindFilter\">"));
}

#[test]
fn badge_error_messages() {
    assert_eq!(BadgeError::ValidationError.message(), "<status> must be non-empty string");
    assert_eq!(BadgeError::FontParseError.message(), "Failed to parse font");
}

#[test]
fn empty_label_still_renders_full_mode() {
    let doc = badgen(options("OK", Some("")), &font_data(Vec::new())).unwrap();
    assert_eq!(attr(&doc, "aria-label"), ": OK");
    // an empty run measures nothing: label box is spacer 4 + half spacer 2
    let bg = &doc.children[1];
    assert_eq!(attr(&bg.children[0], "width"), "6.00");
}

#[test]
fn special_characters_are_escaped_in_markup() {
    let doc = bare(options("a<b&\"c\"", None)).unwrap();
    let s = node_to_string(&doc);
    assert!(s.contains("aria-label=\"a&lt;b&amp;&quot;c&quot;\""));
    assert!(s.contains("<title>a&lt;b&amp;&quot;c&quot;</title>"));
}
