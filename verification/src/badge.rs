//! Badge layout.
//!
//! Computes segment boundaries from measured text-run extents and emits
//! the background/foreground composition as a document tree. Two terminal
//! modes: full (label present) lays out icon span, label run and status
//! run left to right; bare (label absent) is a single segment sized from
//! fixed margins. An empty status fails validation before any font or
//! layout work, in either mode.
use vstd::prelude::*;
use vstd::string::StringExecFns;

use crate::color::default_label_color;
use crate::color::default_status_color;
use crate::color::resolve_color;
use crate::color::spec_resolve;
use crate::compose::RunOutput;
use crate::compose::advance_sum;
use crate::compose::cursor_after;
use crate::compose::layout_run;
use crate::compose::paths_view;
use crate::compose::run_fits;
use crate::compose::spec_run_paths;
use crate::error::BadgeError;
use crate::node::SvgNode;
use crate::numfmt::push_cents;
use crate::numfmt::spec_cents;
use crate::path::MAX_COORD;
use crate::path::OutlineCmd;
use crate::shape::ShapedGlyph;
use crate::shape::face_ok;
use crate::shape::face_units_per_em;
use crate::shape::shape_text;
use crate::shape::shaped_run_of;
use crate::shape::units_per_em_of;

verus! {

/// Badge height, in hundredths of a badge unit (1.2 times the font size).
pub const HEIGHT_CENTS: i64 = 2400;

/// Fixed spacing between segments (0.2 times the font size).
pub const SPACER_CENTS: i64 = 400;

/// Text baseline (0.8 times the badge height).
pub const BASELINE_CENTS: i64 = 1920;

/// Horizontal span an icon reserves: icon width plus right margin.
pub const ICON_SPAN_CENTS: i64 = 3000 + 1000;

/// Largest accepted badge scale, in hundredths of the multiplier.
pub const MAX_SCALE: i64 = 1000000000;

/// Default badge scale (a multiplier of one), in hundredths.
pub const DEFAULT_SCALE: i64 = 100;

/// Configuration of one badge render.
#[derive(Clone)]
pub struct BadgerOptions {
    /// The right-hand value. Required: an empty status fails validation.
    pub status: String,
    /// Optional color name for the status segment's background.
    pub status_color: Option<String>,
    /// The left-hand text describing the status; its absence switches the
    /// render to the reduced single-segment bare mode.
    pub label: Option<String>,
    /// Optional color name for the label segment's background (in bare
    /// mode, for the single segment).
    pub label_color: Option<String>,
    /// Optional reference to an embedded image; its presence reserves a
    /// fixed horizontal span.
    pub icon: Option<String>,
    /// Optional scale multiplier, in hundredths (100 is one); defaults to
    /// one.
    pub scale: Option<i64>,
}

impl Default for BadgerOptions {
    /// An empty configuration: no status, no label, no colors, no icon,
    /// default scale.
    fn default() -> (r: Self)
        ensures
            r.status@.len() == 0,
            r.status_color is None,
            r.label is None,
            r.label_color is None,
            r.icon is None,
            r.scale is None,
    {
        Self {
            status: String::new(),
            status_color: None,
            label: None,
            label_color: None,
            icon: None,
            scale: None,
        }
    }
}

/// A caller-supplied font: the raw bytes of the font container, the face
/// index within it, and the outline command table, indexed by glyph
/// identifier, extracted from that same face (a glyph without an entry,
/// or with an empty entry, has no visible outline).
pub struct FontData {
    pub bytes: Vec<u8>,
    pub index: u32,
    pub outlines: Vec<Vec<OutlineCmd>>,
}

/// The view of an optional string option.
pub open spec fn opt_view(o: Option<String>) -> Option<Seq<char>> {
    match o {
        Option::None => Option::None,
        Option::Some(s) => Option::Some(s@),
    }
}

/// The scale an options value renders at, in hundredths.
pub open spec fn scale_of(o: Option<i64>) -> int {
    match o {
        Option::None => DEFAULT_SCALE as int,
        Option::Some(s) => s as int,
    }
}

/// The accessible title of a full badge: `label`, `": "`, `status`.
pub open spec fn spec_acc_text(label: Seq<char>, status: Seq<char>) -> Seq<char> {
    label + ": "@ + status
}

/// The accessible title text of a labelled badge.
pub fn create_accessible_text(label: &str, status: &str) -> (r: String)
    ensures
        r@ == spec_acc_text(label@, status@),
{
    let mut out = String::new();
    out.append(label);
    out.append(": ");
    out.append(status);
    proof {
        assert(out@ =~= spec_acc_text(label@, status@));
    }
    out
}

/// One attribute holds this name and value.
pub open spec fn attr_is(a: (String, String), name: Seq<char>, value: Seq<char>) -> bool {
    a.0@ == name && a.1@ == value
}

/// Builds one attribute pair.
fn attr(name: &str, value: String) -> (r: (String, String))
    ensures
        attr_is(r, name@, value@),
{
    (String::from_str(name), value)
}

/// Builds one attribute pair from two literals.
fn attr2(name: &str, value: &str) -> (r: (String, String))
    ensures
        attr_is(r, name@, value@),
{
    (String::from_str(name), String::from_str(value))
}

/// The inline style block of a full badge: the badge height and width in
/// `em` (sixteenths of a badge unit, truncated to hundredths) and a fixed
/// border radius.
pub open spec fn spec_style_text(total_width: int) -> Seq<char> {
    "svg {height: "@ + spec_cents(HEIGHT_CENTS as int / 16) + "em;width: "@ + spec_cents(
        total_width / 16,
    ) + "em;border-radius: 10.00px;}"@
}

/// Renders one coordinate for an attribute value.
fn cents_string(v: i64) -> (r: String)
    requires
        v != i64::MIN,
    ensures
        r@ == spec_cents(v as int),
{
    let mut out = String::new();
    push_cents(&mut out, v);
    proof {
        assert(out@ =~= spec_cents(v as int));
    }
    out
}

/// A group node filled with one color whose children are exactly the
/// given serialized paths, each referencing the text-outline filter.
pub open spec fn paths_group_matches(g: SvgNode, fill: Seq<char>, paths: Seq<Seq<char>>) -> bool {
    &&& g.tag@ == "g"@
    &&& g.attrs@.len() == 1
    &&& attr_is(g.attrs@[0], "fill"@, fill)
    &&& g.text@.len() == 0
    &&& g.children@.len() == paths.len()
    &&& forall|i: int|
        0 <= i < paths.len() ==> {
            let c = #[trigger] g.children@[i];
            &&& c.tag@ == "path"@
            &&& c.attrs@.len() == 2
            &&& attr_is(c.attrs@[0], "d"@, paths[i])
            &&& attr_is(c.attrs@[1], "filter"@, "url(#outlineBehindFilter)"@)
            &&& c.text@.len() == 0
            &&& c.children@.len() == 0
        }
}

/// Assembles one glyph run's paths into a filled group.
fn paths_group(fill: &str, paths: Vec<String>) -> (r: SvgNode)
    ensures
        paths_group_matches(r, fill@, paths_view(paths@)),
{
    let mut children: Vec<SvgNode> = Vec::new();
    let mut i: usize = 0;
    while i < paths.len()
        invariant
            0 <= i <= paths@.len(),
            children@.len() == i,
            forall|j: int|
                0 <= j < i ==> {
                    let c = #[trigger] children@[j];
                    &&& c.tag@ == "path"@
                    &&& c.attrs@.len() == 2
                    &&& attr_is(c.attrs@[0], "d"@, paths@[j]@)
                    &&& attr_is(c.attrs@[1], "filter"@, "url(#outlineBehindFilter)"@)
                    &&& c.text@.len() == 0
                    &&& c.children@.len() == 0
                },
        decreases paths@.len() - i,
    {
        let mut attrs: Vec<(String, String)> = Vec::new();
        attrs.push(attr("d", paths[i].clone()));
        attrs.push(attr2("filter", "url(#outlineBehindFilter)"));
        children.push(
            SvgNode {
                tag: String::from_str("path"),
                attrs,
                text: String::new(),
                children: Vec::new(),
            },
        );
        i = i + 1;
    }
    let mut attrs: Vec<(String, String)> = Vec::new();
    attrs.push(attr2("fill", fill));
    SvgNode { tag: String::from_str("g"), attrs, text: String::new(), children }
}

/// The reusable text-outline filter: dilates the source alpha, floods it
/// with the outline color, clips the flood to the dilated shape, and
/// merges the outline behind the source graphic.
pub open spec fn filter_matches(r: SvgNode) -> bool {
    &&& r.tag@ == "filter"@
    &&& r.attrs@.len() == 1
    &&& attr_is(r.attrs@[0], "id"@, "outlineBehindFilter"@)
    &&& r.text@.len() == 0
    &&& r.children@.len() == 4
    &&& {
        let m = r.children@[0];
        &&& m.tag@ == "feMorphology"@
        &&& m.attrs@.len() == 4
        &&& attr_is(m.attrs@[0], "in"@, "SourceAlpha"@)
        &&& attr_is(m.attrs@[1], "operator"@, "dilate"@)
        &&& attr_is(m.attrs@[2], "radius"@, spec_cents(51))
        &&& attr_is(m.attrs@[3], "result"@, "dilated"@)
        &&& m.children@.len() == 0
    }
    &&& {
        let f = r.children@[1];
        &&& f.tag@ == "feFlood"@
        &&& f.attrs@.len() == 2
        &&& attr_is(f.attrs@[0], "color"@, "#DA1813"@)
        &&& attr_is(f.attrs@[1], "result"@, "outlineColor"@)
        &&& f.children@.len() == 0
    }
    &&& {
        let c = r.children@[2];
        &&& c.tag@ == "feComposite"@
        &&& c.attrs@.len() == 4
        &&& attr_is(c.attrs@[0], "in"@, "outlineColor"@)
        &&& attr_is(c.attrs@[1], "in2"@, "dilated"@)
        &&& attr_is(c.attrs@[2], "operator"@, "in"@)
        &&& attr_is(c.attrs@[3], "result"@, "outline"@)
        &&& c.children@.len() == 0
    }
    &&& {
        let g = r.children@[3];
        &&& g.tag@ == "feMerge"@
        &&& g.attrs@.len() == 0
        &&& g.children@.len() == 2
        &&& g.children@[0].tag@ == "feMergeNode"@
        &&& g.children@[0].attrs@.len() == 1
        &&& attr_is(g.children@[0].attrs@[0], "in"@, "outline"@)
        &&& g.children@[0].children@.len() == 0
        &&& g.children@[1].tag@ == "feMergeNode"@
        &&& g.children@[1].attrs@.len() == 1
        &&& attr_is(g.children@[1].attrs@[0], "in"@, "SourceGraphic"@)
        &&& g.children@[1].children@.len() == 0
    }
}

/// Builds the text-outline filter element. The glyph paths reference it
/// by its id; a document that wants the outline effect attaches this
/// element alongside them.
pub fn create_text_outline() -> (r: SvgNode)
    ensures
        filter_matches(r),
{
    let mut morphology_attrs: Vec<(String, String)> = Vec::new();
    morphology_attrs.push(attr2("in", "SourceAlpha"));
    morphology_attrs.push(attr2("operator", "dilate"));
    morphology_attrs.push(attr("radius", cents_string(51)));
    morphology_attrs.push(attr2("result", "dilated"));
    let morphology = SvgNode {
        tag: String::from_str("feMorphology"),
        attrs: morphology_attrs,
        text: String::new(),
        children: Vec::new(),
    };
    let mut flood_attrs: Vec<(String, String)> = Vec::new();
    flood_attrs.push(attr2("color", "#DA1813"));
    flood_attrs.push(attr2("result", "outlineColor"));
    let flood = SvgNode {
        tag: String::from_str("feFlood"),
        attrs: flood_attrs,
        text: String::new(),
        children: Vec::new(),
    };
    let mut composite_attrs: Vec<(String, String)> = Vec::new();
    composite_attrs.push(attr2("in", "outlineColor"));
    composite_attrs.push(attr2("in2", "dilated"));
    composite_attrs.push(attr2("operator", "in"));
    composite_attrs.push(attr2("result", "outline"));
    let composite = SvgNode {
        tag: String::from_str("feComposite"),
        attrs: composite_attrs,
        text: String::new(),
        children: Vec::new(),
    };
    let mut node_a_attrs: Vec<(String, String)> = Vec::new();
    node_a_attrs.push(attr2("in", "outline"));
    let mut node_b_attrs: Vec<(String, String)> = Vec::new();
    node_b_attrs.push(attr2("in", "SourceGraphic"));
    let mut merge_children: Vec<SvgNode> = Vec::new();
    merge_children.push(
        SvgNode {
            tag: String::from_str("feMergeNode"),
            attrs: node_a_attrs,
            text: String::new(),
            children: Vec::new(),
        },
    );
    merge_children.push(
        SvgNode {
            tag: String::from_str("feMergeNode"),
            attrs: node_b_attrs,
            text: String::new(),
            children: Vec::new(),
        },
    );
    let merge = SvgNode {
        tag: String::from_str("feMerge"),
        attrs: Vec::new(),
        text: String::new(),
        children: merge_children,
    };
    let mut filter_attrs: Vec<(String, String)> = Vec::new();
    filter_attrs.push(attr2("id", "outlineBehindFilter"));
    let mut filter_children: Vec<SvgNode> = Vec::new();
    filter_children.push(morphology);
    filter_children.push(flood);
    filter_children.push(composite);
    filter_children.push(merge);
    SvgNode {
        tag: String::from_str("filter"),
        attrs: filter_attrs,
        text: String::new(),
        children: filter_children,
    }
}

/// The `viewBox` text for a document of this width and height.
pub open spec fn spec_view_box(w: int, h: int) -> Seq<char> {
    "0 0 "@ + spec_cents(w) + " "@ + spec_cents(h)
}

/// Renders a `viewBox` attribute value.
fn view_box(w: i64, h: i64) -> (r: String)
    requires
        w != i64::MIN,
        h != i64::MIN,
    ensures
        r@ == spec_view_box(w as int, h as int),
{
    let mut out = String::new();
    out.append("0 0 ");
    push_cents(&mut out, w);
    out.append(" ");
    push_cents(&mut out, h);
    proof {
        assert(out@ =~= spec_view_box(w as int, h as int));
    }
    out
}

/// Fixed width of the bare badge's segment, in hundredths of the bare
/// document's coordinate units.
pub const BARE_RECT_WIDTH_CENTS: i64 = 11600;

/// Fixed height of the bare badge's coordinate space, in hundredths.
pub const BARE_HEIGHT_CENTS: i64 = 20000;

/// A bare badge document: a single segment rendered in the (resolved)
/// label color, with the accessible title equal to the status text alone.
pub open spec fn bare_doc_matches(
    r: SvgNode,
    status: Seq<char>,
    label_color: Option<Seq<char>>,
    scale: int,
) -> bool {
    &&& r.tag@ == "svg"@
    &&& r.text@.len() == 0
    &&& r.attrs@.len() == 6
    &&& attr_is(r.attrs@[0], "width"@, spec_cents(scale * 116 / 10))
    &&& attr_is(r.attrs@[1], "height"@, spec_cents(scale * 20))
    &&& attr_is(
        r.attrs@[2],
        "viewBox"@,
        spec_view_box(BARE_RECT_WIDTH_CENTS as int, BARE_HEIGHT_CENTS as int),
    )
    &&& attr_is(r.attrs@[3], "xmlns"@, "http://www.w3.org/2000/svg"@)
    &&& attr_is(r.attrs@[4], "role"@, "img"@)
    &&& attr_is(r.attrs@[5], "aria-label"@, status)
    &&& r.children@.len() == 2
    &&& {
        let t = r.children@[0];
        &&& t.tag@ == "title"@
        &&& t.attrs@.len() == 0
        &&& t.text@ == status
        &&& t.children@.len() == 0
    }
    &&& {
        let rect = r.children@[1];
        &&& rect.tag@ == "rect"@
        &&& rect.attrs@.len() == 4
        &&& attr_is(rect.attrs@[0], "fill"@, spec_resolve(label_color, default_label_color()))
        &&& attr_is(rect.attrs@[1], "x"@, spec_cents(0))
        &&& attr_is(rect.attrs@[2], "width"@, spec_cents(BARE_RECT_WIDTH_CENTS as int))
        &&& attr_is(rect.attrs@[3], "height"@, spec_cents(BARE_HEIGHT_CENTS as int))
        &&& rect.text@.len() == 0
        &&& rect.children@.len() == 0
    }
}

/// Renders a bare (single-segment) badge: no label, the whole badge sized
/// by fixed margins, colored by the label-color option (the documented
/// reuse of that option in bare mode), and titled with the status text
/// exactly. Fails only on an empty status.
pub fn bare(options: BadgerOptions) -> (r: Result<SvgNode, BadgeError>)
    requires
        0 <= scale_of(options.scale) <= MAX_SCALE,
    ensures
        r is Err <==> options.status@.len() == 0,
        r is Err ==> r->Err_0 == BadgeError::ValidationError,
        r is Ok ==> bare_doc_matches(
            r->Ok_0,
            options.status@,
            opt_view(options.label_color),
            scale_of(options.scale),
        ),
{
    if options.status.as_str().is_empty() {
        return Err(BadgeError::ValidationError);
    }
    let scale: i64 = match options.scale {
        Option::Some(s) => s,
        Option::None => DEFAULT_SCALE,
    };
    let color = resolve_color(&options.label_color, "#2719D1");
    let mut attrs: Vec<(String, String)> = Vec::new();
    attrs.push(attr("width", cents_string(scale * 116 / 10)));
    attrs.push(attr("height", cents_string(scale * 20)));
    attrs.push(attr("viewBox", view_box(BARE_RECT_WIDTH_CENTS, BARE_HEIGHT_CENTS)));
    attrs.push(attr2("xmlns", "http://www.w3.org/2000/svg"));
    attrs.push(attr2("role", "img"));
    attrs.push(attr("aria-label", options.status.clone()));
    let title = SvgNode {
        tag: String::from_str("title"),
        attrs: Vec::new(),
        text: options.status,
        children: Vec::new(),
    };
    let mut rect_attrs: Vec<(String, String)> = Vec::new();
    rect_attrs.push(attr("fill", color));
    rect_attrs.push(attr("x", cents_string(0)));
    rect_attrs.push(attr("width", cents_string(BARE_RECT_WIDTH_CENTS)));
    rect_attrs.push(attr("height", cents_string(BARE_HEIGHT_CENTS)));
    let rect = SvgNode {
        tag: String::from_str("rect"),
        attrs: rect_attrs,
        text: String::new(),
        children: Vec::new(),
    };
    let mut children: Vec<SvgNode> = Vec::new();
    children.push(title);
    children.push(rect);
    Ok(SvgNode { tag: String::from_str("svg"), attrs, text: String::new(), children })
}

/// Horizontal span the icon reserves: fixed icon width plus right margin
/// when an icon is present, nothing otherwise.
pub open spec fn spec_icon_span(icon: Option<Seq<char>>) -> int {
    if icon is Some {
        ICON_SPAN_CENTS as int
    } else {
        0
    }
}

/// Where the label run starts: after the icon span and one spacer.
pub open spec fn spec_label_start(icon: Option<Seq<char>>) -> int {
    spec_icon_span(icon) + SPACER_CENTS
}

/// The label run's right edge.
pub open spec fn spec_label_end(lrun: Seq<ShapedGlyph>, icon: Option<Seq<char>>, upem: int) -> int {
    cursor_after(lrun, spec_label_start(icon), upem, lrun.len() as int)
}

/// Where the status run starts: one spacer after the label run's end.
pub open spec fn spec_status_start(
    lrun: Seq<ShapedGlyph>,
    icon: Option<Seq<char>>,
    upem: int,
) -> int {
    spec_label_end(lrun, icon, upem) + SPACER_CENTS
}

/// The status run's right edge.
pub open spec fn spec_status_end(
    lrun: Seq<ShapedGlyph>,
    srun: Seq<ShapedGlyph>,
    icon: Option<Seq<char>>,
    upem: int,
) -> int {
    cursor_after(srun, spec_status_start(lrun, icon, upem), upem, srun.len() as int)
}

/// Width of the label background rectangle: up to the label run's end
/// plus half a spacer.
pub open spec fn spec_label_width(
    lrun: Seq<ShapedGlyph>,
    icon: Option<Seq<char>>,
    upem: int,
) -> int {
    spec_label_end(lrun, icon, upem) + SPACER_CENTS / 2
}

/// Width of the status run's box: the run's extent plus half a spacer.
pub open spec fn spec_status_width(
    lrun: Seq<ShapedGlyph>,
    srun: Seq<ShapedGlyph>,
    icon: Option<Seq<char>>,
    upem: int,
) -> int {
    spec_status_end(lrun, srun, icon, upem) - spec_status_start(lrun, icon, upem) + SPACER_CENTS / 2
}

/// Total document width: both boxes plus one trailing spacer.
pub open spec fn spec_total_width(
    lrun: Seq<ShapedGlyph>,
    srun: Seq<ShapedGlyph>,
    icon: Option<Seq<char>>,
    upem: int,
) -> int {
    spec_label_width(lrun, icon, upem) + spec_status_width(lrun, srun, icon, upem)
        + SPACER_CENTS
}

/// Whether a full (labelled) render of these inputs succeeds: the face
/// parses with a usable units-per-em and both shaped runs, laid out left
/// to right, keep every cursor and glyph origin in the representable
/// coordinate range.
pub open spec fn full_render_ok(
    bytes: Seq<u8>,
    index: int,
    label: Seq<char>,
    status: Seq<char>,
    icon: Option<Seq<char>>,
) -> bool {
    let upem = units_per_em_of(bytes, index);
    let lrun = shaped_run_of(bytes, index, label);
    let srun = shaped_run_of(bytes, index, status);
    let sstart = spec_status_start(lrun, icon, upem);
    &&& face_ok(bytes, index)
    &&& upem >= 1
    &&& run_fits(lrun, spec_label_start(icon), BASELINE_CENTS as int, upem)
    &&& -MAX_COORD <= sstart <= MAX_COORD
    &&& run_fits(srun, sstart, BASELINE_CENTS as int, upem)
}

/// A full (labelled) badge document: accessible title `label: status`,
/// two background rectangles sized from the measured runs, the two glyph
/// path groups, and the inline style block; an icon, when present, adds
/// the xlink namespace and an image element and shifts both runs right by
/// the icon span.
pub open spec fn full_doc_matches(
    r: SvgNode,
    label: Seq<char>,
    status: Seq<char>,
    label_color: Option<Seq<char>>,
    status_color: Option<Seq<char>>,
    icon: Option<Seq<char>>,
    lrun: Seq<ShapedGlyph>,
    srun: Seq<ShapedGlyph>,
    table: Seq<Vec<OutlineCmd>>,
    upem: int,
) -> bool {
    let acc = spec_acc_text(label, status);
    let label_width = spec_label_width(lrun, icon, upem);
    let status_width = spec_status_width(lrun, srun, icon, upem);
    let total_width = spec_total_width(lrun, srun, icon, upem);
    let off: int = if icon is Some {
        1
    } else {
        0
    };
    &&& r.tag@ == "svg"@
    &&& r.text@.len() == 0
    &&& r.attrs@.len() == 4 + off
    &&& attr_is(r.attrs@[0], "xmlns"@, "http://www.w3.org/2000/svg"@)
    &&& attr_is(r.attrs@[1], "role"@, "img"@)
    &&& attr_is(r.attrs@[2], "aria-label"@, acc)
    &&& attr_is(r.attrs@[3], "viewBox"@, spec_view_box(total_width, HEIGHT_CENTS as int))
    &&& (icon is Some ==> attr_is(
        r.attrs@[4],
        "xmlns:xlink"@,
        "http://www.w3.org/1999/xlink"@,
    ))
    &&& r.children@.len() == 5 + off
    &&& {
        let t = r.children@[0];
        &&& t.tag@ == "title"@
        &&& t.attrs@.len() == 0
        &&& t.text@ == acc
        &&& t.children@.len() == 0
    }
    &&& (icon is Some ==> {
        let img = r.children@[1];
        &&& img.tag@ == "image"@
        &&& img.attrs@.len() == 4
        &&& attr_is(img.attrs@[0], "x"@, spec_cents(0))
        &&& attr_is(img.attrs@[1], "y"@, spec_cents(4000))
        &&& attr_is(img.attrs@[2], "width"@, spec_cents(3000))
        &&& attr_is(img.attrs@[3], "xlink:href"@, icon->0)
        &&& img.children@.len() == 0
    })
    &&& {
        let bg = r.children@[1 + off];
        &&& bg.tag@ == "g"@
        &&& bg.attrs@.len() == 0
        &&& bg.text@.len() == 0
        &&& bg.children@.len() == 2
        &&& {
            let rect1 = bg.children@[0];
            &&& rect1.tag@ == "rect"@
            &&& rect1.attrs@.len() == 3
            &&& attr_is(
                rect1.attrs@[0],
                "fill"@,
                spec_resolve(label_color, default_label_color()),
            )
            &&& attr_is(rect1.attrs@[1], "width"@, spec_cents(label_width))
            &&& attr_is(rect1.attrs@[2], "height"@, spec_cents(HEIGHT_CENTS as int))
            &&& rect1.children@.len() == 0
        }
        &&& {
            let rect2 = bg.children@[1];
            &&& rect2.tag@ == "rect"@
            &&& rect2.attrs@.len() == 4
            &&& attr_is(
                rect2.attrs@[0],
                "fill"@,
                spec_resolve(status_color, default_status_color()),
            )
            &&& attr_is(rect2.attrs@[1], "x"@, spec_cents(label_width))
            &&& attr_is(rect2.attrs@[2], "width"@, spec_cents(status_width + SPACER_CENTS))
            &&& attr_is(rect2.attrs@[3], "height"@, spec_cents(HEIGHT_CENTS as int))
            &&& rect2.children@.len() == 0
        }
    }
    &&& paths_group_matches(
        r.children@[2 + off],
        "#FDA902"@,
        spec_run_paths(lrun, table, spec_label_start(icon), BASELINE_CENTS as int, upem),
    )
    &&& paths_group_matches(
        r.children@[3 + off],
        "#000000"@,
        spec_run_paths(
            srun,
            table,
            spec_status_start(lrun, icon, upem),
            BASELINE_CENTS as int,
            upem,
        ),
    )
    &&& {
        let st = r.children@[4 + off];
        &&& st.tag@ == "style"@
        &&& st.attrs@.len() == 0
        &&& st.text@ == spec_style_text(total_width)
        &&& st.children@.len() == 0
    }
}

/// Flooring division by sixteen (units to em-hundredths).
fn floor_div_16(v: i64) -> (r: i64)
    requires
        -(100 * MAX_COORD) <= v <= 100 * MAX_COORD,
    ensures
        r == v as int / 16,
{
    if v >= 0 {
        ((v as u64) / 16) as i64
    } else {
        let a: u64 = (-v) as u64;
        let q: u64 = (a + 15) / 16;
        proof {
            let qi = (a + 15) as int / 16;
            let ri = (a + 15) as int % 16;
            vstd::arithmetic::div_mod::lemma_fundamental_div_mod_converse(
                -(a as int),
                16,
                -qi,
                15 - ri,
            );
        }
        -(q as i64)
    }
}

/// Renders a badge from its options and a caller-supplied font.
///
/// An empty status fails validation before any font or layout work. With
/// no label the render delegates to the bare single-segment mode. With a
/// label, the label and status runs are shaped, converted and laid out
/// left to right; the result is a deterministic function of the options
/// and the font data alone.
pub fn badgen(options: BadgerOptions, font: &FontData) -> (r: Result<SvgNode, BadgeError>)
    requires
        0 <= scale_of(options.scale) <= MAX_SCALE,
    ensures
        options.status@.len() == 0 <==> (r is Err && r->Err_0 == BadgeError::ValidationError),
        options.status@.len() > 0 && options.label is None ==> r is Ok && bare_doc_matches(
            r->Ok_0,
            options.status@,
            opt_view(options.label_color),
            scale_of(options.scale),
        ),
        options.status@.len() > 0 && options.label is Some ==> {
            let bytes = font.bytes@;
            let index = font.index as int;
            let label = options.label->0@;
            let icon = opt_view(options.icon);
            &&& (r is Ok <==> full_render_ok(bytes, index, label, options.status@, icon))
            &&& (!face_ok(bytes, index) || units_per_em_of(bytes, index) < 1 ==> r is Err
                && r->Err_0 == BadgeError::FontParseError)
            &&& (face_ok(bytes, index) && units_per_em_of(bytes, index) >= 1 && !full_render_ok(
                bytes,
                index,
                label,
                options.status@,
                icon,
            ) ==> r is Err && r->Err_0 == BadgeError::OutlineError)
            &&& (r is Ok ==> full_doc_matches(
                r->Ok_0,
                label,
                options.status@,
                opt_view(options.label_color),
                opt_view(options.status_color),
                icon,
                shaped_run_of(bytes, index, label),
                shaped_run_of(bytes, index, options.status@),
                font.outlines@,
                units_per_em_of(bytes, index),
            ))
        },
{
    if options.status.as_str().is_empty() {
        return Err(BadgeError::ValidationError);
    }
    let label = match options.label {
        Option::None => {
            return bare(
                BadgerOptions {
                    status: options.status,
                    status_color: None,
                    label: None,
                    label_color: options.label_color,
                    icon: None,
                    scale: options.scale,
                },
            );
        },
        Option::Some(l) => l,
    };
    let status = options.status;
    let ghost bytes = font.bytes@;
    let ghost index = font.index as int;
    let upem: u16 = match face_units_per_em(font.bytes.as_slice(), font.index) {
        Option::None => {
            return Err(BadgeError::FontParseError);
        },
        Option::Some(u) => u,
    };
    if upem < 1 {
        return Err(BadgeError::FontParseError);
    }
    let label_run: Vec<ShapedGlyph> = match shape_text(
        font.bytes.as_slice(),
        font.index,
        label.as_str(),
    ) {
        Option::None => {
            return Err(BadgeError::FontParseError);
        },
        Option::Some(v) => v,
    };
    let status_run: Vec<ShapedGlyph> = match shape_text(
        font.bytes.as_slice(),
        font.index,
        status.as_str(),
    ) {
        Option::None => {
            return Err(BadgeError::FontParseError);
        },
        Option::Some(v) => v,
    };
    let label_start: i64 = if options.icon.is_some() {
        ICON_SPAN_CENTS + SPACER_CENTS
    } else {
        SPACER_CENTS
    };
    let label_out: RunOutput = match layout_run(
        &label_run,
        &font.outlines,
        label_start,
        BASELINE_CENTS,
        upem,
    ) {
        Result::Err(_) => {
            return Err(BadgeError::OutlineError);
        },
        Result::Ok(o) => o,
    };
    let status_start: i64 = label_out.end_x + SPACER_CENTS;
    if status_start < -MAX_COORD || status_start > MAX_COORD {
        return Err(BadgeError::OutlineError);
    }
    let status_out: RunOutput = match layout_run(
        &status_run,
        &font.outlines,
        status_start,
        BASELINE_CENTS,
        upem,
    ) {
        Result::Err(_) => {
            return Err(BadgeError::OutlineError);
        },
        Result::Ok(o) => o,
    };
    let label_width: i64 = label_out.end_x + SPACER_CENTS / 2;
    let status_width: i64 = status_out.end_x - status_start + SPACER_CENTS / 2;
    let total_width: i64 = label_width + status_width + SPACER_CENTS;

    let acc = create_accessible_text(label.as_str(), status.as_str());
    let label_bg = resolve_color(&options.label_color, "#2719D1");
    let status_bg = resolve_color(&options.status_color, "#F8AA00");

    let mut attrs: Vec<(String, String)> = Vec::new();
    attrs.push(attr2("xmlns", "http://www.w3.org/2000/svg"));
    attrs.push(attr2("role", "img"));
    attrs.push(attr("aria-label", acc.clone()));
    attrs.push(attr("viewBox", view_box(total_width, HEIGHT_CENTS)));
    if options.icon.is_some() {
        attrs.push(attr2("xmlns:xlink", "http://www.w3.org/1999/xlink"));
    }

    let mut children: Vec<SvgNode> = Vec::new();
    children.push(
        SvgNode {
            tag: String::from_str("title"),
            attrs: Vec::new(),
            text: acc,
            children: Vec::new(),
        },
    );
    match options.icon {
        Option::Some(icon_ref) => {
            let mut image_attrs: Vec<(String, String)> = Vec::new();
            image_attrs.push(attr("x", cents_string(0)));
            image_attrs.push(attr("y", cents_string(4000)));
            image_attrs.push(attr("width", cents_string(3000)));
            image_attrs.push(attr("xlink:href", icon_ref));
            children.push(
                SvgNode {
                    tag: String::from_str("image"),
                    attrs: image_attrs,
                    text: String::new(),
                    children: Vec::new(),
                },
            );
        },
        Option::None => {},
    }

    let mut rect1_attrs: Vec<(String, String)> = Vec::new();
    rect1_attrs.push(attr("fill", label_bg));
    rect1_attrs.push(attr("width", cents_string(label_width)));
    rect1_attrs.push(attr("height", cents_string(HEIGHT_CENTS)));
    let rect1 = SvgNode {
        tag: String::from_str("rect"),
        attrs: rect1_attrs,
        text: String::new(),
        children: Vec::new(),
    };
    let mut rect2_attrs: Vec<(String, String)> = Vec::new();
    rect2_attrs.push(attr("fill", status_bg));
    rect2_attrs.push(attr("x", cents_string(label_width)));
    rect2_attrs.push(attr("width", cents_string(status_width + SPACER_CENTS)));
    rect2_attrs.push(attr("height", cents_string(HEIGHT_CENTS)));
    let rect2 = SvgNode {
        tag: String::from_str("rect"),
        attrs: rect2_attrs,
        text: String::new(),
        children: Vec::new(),
    };
    let mut bg_children: Vec<SvgNode> = Vec::new();
    bg_children.push(rect1);
    bg_children.push(rect2);
    children.push(
        SvgNode {
            tag: String::from_str("g"),
            attrs: Vec::new(),
            text: String::new(),
            children: bg_children,
        },
    );

    children.push(paths_group("#FDA902", label_out.paths));
    children.push(paths_group("#000000", status_out.paths));

    let ghost em_w = total_width as int / 16;
    let mut style_body = String::new();
    style_body.append("svg {height: ");
    push_cents(&mut style_body, HEIGHT_CENTS / 16);
    style_body.append("em;width: ");
    push_cents(&mut style_body, floor_div_16(total_width));
    style_body.append("em;border-radius: 10.00px;}");
    proof {
        assert(style_body@ =~= spec_style_text(
            spec_total_width(
                shaped_run_of(bytes, index, label@),
                shaped_run_of(bytes, index, status@),
                opt_view(options.icon),
                upem as int,
            ),
        ));
    }
    children.push(
        SvgNode {
            tag: String::from_str("style"),
            attrs: Vec::new(),
            text: style_body,
            children: Vec::new(),
        },
    );

    Ok(SvgNode { tag: String::from_str("svg"), attrs, text: String::new(), children })
}

/// The total badge width decomposes exactly into the icon span, the label
/// run's width, one spacer, the status run's width, and a trailing margin
/// of two spacers; the two background rectangles' widths sum to the same
/// total.
pub proof fn lemma_total_width_decomposition(
    lrun: Seq<ShapedGlyph>,
    srun: Seq<ShapedGlyph>,
    icon: Option<Seq<char>>,
    upem: int,
)
    ensures
        spec_total_width(lrun, srun, icon, upem) == spec_icon_span(icon) + advance_sum(
            lrun,
            upem,
            lrun.len() as int,
        ) + SPACER_CENTS + advance_sum(srun, upem, srun.len() as int) + 2 * SPACER_CENTS,
        spec_total_width(lrun, srun, icon, upem) == spec_label_width(lrun, icon, upem) + (
        spec_status_width(lrun, srun, icon, upem) + SPACER_CENTS),
{
    crate::compose::lemma_cursor_is_advance_sum(
        lrun,
        spec_label_start(icon),
        upem,
        lrun.len() as int,
    );
    crate::compose::lemma_cursor_is_advance_sum(
        srun,
        spec_status_start(lrun, icon, upem),
        upem,
        srun.len() as int,
    );
}

/// In bare mode the accessible title — the `aria-label` attribute and the
/// `title` element's text — equals the status text exactly.
pub proof fn lemma_bare_title(
    r: SvgNode,
    status: Seq<char>,
    label_color: Option<Seq<char>>,
    scale: int,
)
    requires
        bare_doc_matches(r, status, label_color, scale),
    ensures
        r.attrs@[5].1@ == status,
        r.children@[0].text@ == status,
{
}

/// In full mode the accessible title — the `aria-label` attribute and the
/// `title` element's text — equals the label, `": "`, and the status,
/// exactly.
pub proof fn lemma_full_title(
    r: SvgNode,
    label: Seq<char>,
    status: Seq<char>,
    label_color: Option<Seq<char>>,
    status_color: Option<Seq<char>>,
    icon: Option<Seq<char>>,
    lrun: Seq<ShapedGlyph>,
    srun: Seq<ShapedGlyph>,
    table: Seq<Vec<OutlineCmd>>,
    upem: int,
)
    requires
        full_doc_matches(
            r,
            label,
            status,
            label_color,
            status_color,
            icon,
            lrun,
            srun,
            table,
            upem,
        ),
    ensures
        r.attrs@[2].1@ == label + ": "@ + status,
        r.children@[0].text@ == label + ": "@ + status,
{
}

} // verus!
