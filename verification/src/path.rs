//! Geometric paths.
//!
//! A glyph outline arrives as a sequence of drawing commands in font design
//! units (Y grows upward). The converter turns it into a path in badge
//! space: coordinates in integer hundredths of a badge unit (Y grows
//! downward), scaled by `font_size / units_per_em` and translated to the
//! glyph's origin.
use vstd::prelude::*;

verus! {

/// One glyph-outline drawing command, in font design units.
#[derive(Clone, Copy, PartialEq, Eq, Structural, Debug)]
pub enum OutlineCmd {
    MoveTo { x: i32, y: i32 },
    LineTo { x: i32, y: i32 },
    QuadTo { x1: i32, y1: i32, x: i32, y: i32 },
    CurveTo { x1: i32, y1: i32, x2: i32, y2: i32, x: i32, y: i32 },
    Close,
}

/// One drawing event of a badge-space path, coordinates in hundredths.
///
/// A well-formed path opens every subpath with `Begin`, draws with `Line`,
/// `Quadratic` and `Cubic`, and terminates it with `End`; `closed` records
/// whether the subpath was closed. A glyph may hold several subpaths
/// (letters with holes).
#[derive(Clone, Copy, PartialEq, Eq, Structural, Debug)]
pub enum PathEvent {
    Begin { x: i64, y: i64 },
    Line { x: i64, y: i64 },
    Quadratic { cx: i64, cy: i64, x: i64, y: i64 },
    Cubic { c1x: i64, c1y: i64, c2x: i64, c2y: i64, x: i64, y: i64 },
    End { closed: bool },
}

/// The mathematical counterpart of `PathEvent`, over unbounded integers.
pub enum GEvent {
    Begin { x: int, y: int },
    Line { x: int, y: int },
    Quadratic { cx: int, cy: int, x: int, y: int },
    Cubic { c1x: int, c1y: int, c2x: int, c2y: int, x: int, y: int },
    End { closed: bool },
}

impl View for PathEvent {
    type V = GEvent;

    open spec fn view(&self) -> GEvent {
        match *self {
            PathEvent::Begin { x, y } => GEvent::Begin { x: x as int, y: y as int },
            PathEvent::Line { x, y } => GEvent::Line { x: x as int, y: y as int },
            PathEvent::Quadratic { cx, cy, x, y } => GEvent::Quadratic {
                cx: cx as int,
                cy: cy as int,
                x: x as int,
                y: y as int,
            },
            PathEvent::Cubic { c1x, c1y, c2x, c2y, x, y } => GEvent::Cubic {
                c1x: c1x as int,
                c1y: c1y as int,
                c2x: c2x as int,
                c2y: c2y as int,
                x: x as int,
                y: y as int,
            },
            PathEvent::End { closed } => GEvent::End { closed },
        }
    }
}

/// The view of a whole path.
pub open spec fn events_view(p: Seq<PathEvent>) -> Seq<GEvent> {
    p.map_values(|e: PathEvent| e@)
}

/// Badge text font size, in hundredths of a badge unit.
pub const FONT_SIZE_CENTS: i64 = 2000;

/// A coordinate magnitude cap for cursor positions and glyph origins, in
/// hundredths. Values beyond it (possible only with absurd fonts or
/// degenerate inputs) are rejected rather than silently wrapped.
pub const MAX_COORD: i64 = 4000000000000000;

/// Largest magnitude `scaled` can return: `i32` magnitudes do not exceed
/// `2^31`, and the factor is at most `FONT_SIZE_CENTS`.
pub const SCALED_BOUND: i64 = 4294967296000;

/// Font units to badge hundredths: `v * FONT_SIZE_CENTS / upem`, the
/// division truncating toward zero.
pub open spec fn spec_scaled(v: int, upem: int) -> int
    recommends
        upem >= 1,
{
    if v >= 0 {
        (v * FONT_SIZE_CENTS) / upem
    } else {
        -((-v * FONT_SIZE_CENTS) / upem)
    }
}

/// Converts one font-unit coordinate to badge hundredths at the given
/// units-per-em.
pub fn scaled(v: i32, upem: u16) -> (r: i64)
    requires
        upem >= 1,
    ensures
        r == spec_scaled(v as int, upem as int),
        -SCALED_BOUND <= r <= SCALED_BOUND,
{
    let a: u64 = if v < 0 {
        (-(v as i64)) as u64
    } else {
        v as u64
    };
    let ghost ai: int = a as int;
    let ghost ui: int = upem as int;
    assert(ai * 2000 / ui <= ai * 2000 && ai * 2000 / ui >= 0) by (nonlinear_arith)
        requires
            ui >= 1 && 0 <= ai,
    ;
    let q: u64 = a * (FONT_SIZE_CENTS as u64) / (upem as u64);
    if v < 0 {
        -(q as i64)
    } else {
        q as i64
    }
}

/// Badge-space X of a font-space X: scale, then translate to the origin.
pub open spec fn pt_x(v: int, upem: int, ox: int) -> int {
    spec_scaled(v, upem) + ox
}

/// Badge-space Y of a font-space Y: scale, negate (font Y grows upward,
/// badge Y downward), then translate to the origin.
pub open spec fn pt_y(v: int, upem: int, oy: int) -> int {
    -spec_scaled(v, upem) + oy
}

/// All coordinates of the event have magnitude at most `b`.
pub open spec fn gevent_bounded(e: GEvent, b: int) -> bool {
    match e {
        GEvent::Begin { x, y } => -b <= x <= b && -b <= y <= b,
        GEvent::Line { x, y } => -b <= x <= b && -b <= y <= b,
        GEvent::Quadratic { cx, cy, x, y } => -b <= cx <= b && -b <= cy <= b && -b <= x <= b && -b
            <= y <= b,
        GEvent::Cubic { c1x, c1y, c2x, c2y, x, y } => -b <= c1x <= b && -b <= c1y <= b && -b <= c2x
            <= b && -b <= c2y <= b && -b <= x <= b && -b <= y <= b,
        GEvent::End { closed } => true,
    }
}

/// The badge-space path of an outline, threading the open-subpath state:
/// `MoveTo` begins a subpath (terminating an unclosed one first), drawing
/// commands outside a subpath are dropped, `Close` terminates the open
/// subpath as closed, and a subpath left open at the end is terminated
/// unclosed.
pub open spec fn spec_convert_rec(
    cmds: Seq<OutlineCmd>,
    upem: int,
    ox: int,
    oy: int,
    open: bool,
) -> Seq<GEvent>
    decreases cmds.len(),
{
    if cmds.len() == 0 {
        if open {
            seq![GEvent::End { closed: false }]
        } else {
            Seq::<GEvent>::empty()
        }
    } else {
        let rest = cmds.drop_first();
        match cmds.first() {
            OutlineCmd::MoveTo { x, y } => (if open {
                seq![GEvent::End { closed: false }]
            } else {
                Seq::<GEvent>::empty()
            }) + seq![
                GEvent::Begin { x: pt_x(x as int, upem, ox), y: pt_y(y as int, upem, oy) },
            ] + spec_convert_rec(rest, upem, ox, oy, true),
            OutlineCmd::LineTo { x, y } => if open {
                seq![GEvent::Line { x: pt_x(x as int, upem, ox), y: pt_y(y as int, upem, oy) }]
                    + spec_convert_rec(rest, upem, ox, oy, true)
            } else {
                spec_convert_rec(rest, upem, ox, oy, false)
            },
            OutlineCmd::QuadTo { x1, y1, x, y } => if open {
                seq![
                    GEvent::Quadratic {
                        cx: pt_x(x1 as int, upem, ox),
                        cy: pt_y(y1 as int, upem, oy),
                        x: pt_x(x as int, upem, ox),
                        y: pt_y(y as int, upem, oy),
                    },
                ] + spec_convert_rec(rest, upem, ox, oy, true)
            } else {
                spec_convert_rec(rest, upem, ox, oy, false)
            },
            OutlineCmd::CurveTo { x1, y1, x2, y2, x, y } => if open {
                seq![
                    GEvent::Cubic {
                        c1x: pt_x(x1 as int, upem, ox),
                        c1y: pt_y(y1 as int, upem, oy),
                        c2x: pt_x(x2 as int, upem, ox),
                        c2y: pt_y(y2 as int, upem, oy),
                        x: pt_x(x as int, upem, ox),
                        y: pt_y(y as int, upem, oy),
                    },
                ] + spec_convert_rec(rest, upem, ox, oy, true)
            } else {
                spec_convert_rec(rest, upem, ox, oy, false)
            },
            OutlineCmd::Close => if open {
                seq![GEvent::End { closed: true }] + spec_convert_rec(rest, upem, ox, oy, false)
            } else {
                spec_convert_rec(rest, upem, ox, oy, false)
            },
        }
    }
}

/// The badge-space path of a whole outline.
pub open spec fn spec_convert(cmds: Seq<OutlineCmd>, upem: int, ox: int, oy: int) -> Seq<GEvent> {
    spec_convert_rec(cmds, upem, ox, oy, false)
}

/// Converts one glyph outline (font units) into a badge-space path at the
/// given origin. An outline with no commands yields an empty path.
pub fn convert_outline(cmds: &Vec<OutlineCmd>, upem: u16, ox: i64, oy: i64) -> (r: Vec<PathEvent>)
    requires
        upem >= 1,
        -MAX_COORD <= ox <= MAX_COORD,
        -MAX_COORD <= oy <= MAX_COORD,
    ensures
        events_view(r@) == spec_convert(cmds@, upem as int, ox as int, oy as int),
        forall|j: int|
            0 <= j < r@.len() ==> gevent_bounded(#[trigger] r@[j]@, MAX_COORD + SCALED_BOUND),
{
    let mut out: Vec<PathEvent> = Vec::new();
    let mut open: bool = false;
    let mut i: usize = 0;
    let ghost total = spec_convert_rec(cmds@, upem as int, ox as int, oy as int, false);
    proof {
        assert(cmds@.skip(0) =~= cmds@);
        assert(events_view(out@) + total =~= total);
    }
    while i < cmds.len()
        invariant
            upem >= 1,
            -MAX_COORD <= ox <= MAX_COORD,
            -MAX_COORD <= oy <= MAX_COORD,
            0 <= i <= cmds.len(),
            events_view(out@) + spec_convert_rec(
                cmds@.skip(i as int),
                upem as int,
                ox as int,
                oy as int,
                open,
            ) == total,
            forall|j: int|
                0 <= j < out@.len() ==> gevent_bounded(
                    #[trigger] out@[j]@,
                    MAX_COORD + SCALED_BOUND,
                ),
        decreases cmds.len() - i,
    {
        let ghost pre = out@;
        let ghost rem = cmds@.skip(i as int);
        proof {
            assert(rem.len() > 0);
            assert(rem.first() == cmds@[i as int]);
            assert(rem.drop_first() =~= cmds@.skip(i as int + 1));
        }
        let cmd = cmds[i];
        match cmd {
            OutlineCmd::MoveTo { x, y } => {
                if open {
                    out.push(PathEvent::End { closed: false });
                }
                let px: i64 = scaled(x, upem) + ox;
                let py: i64 = -scaled(y, upem) + oy;
                out.push(PathEvent::Begin { x: px, y: py });
                open = true;
            },
            OutlineCmd::LineTo { x, y } => {
                if open {
                    let px: i64 = scaled(x, upem) + ox;
                    let py: i64 = -scaled(y, upem) + oy;
                    out.push(PathEvent::Line { x: px, y: py });
                }
            },
            OutlineCmd::QuadTo { x1, y1, x, y } => {
                if open {
                    let cx: i64 = scaled(x1, upem) + ox;
                    let cy: i64 = -scaled(y1, upem) + oy;
                    let px: i64 = scaled(x, upem) + ox;
                    let py: i64 = -scaled(y, upem) + oy;
                    out.push(PathEvent::Quadratic { cx, cy, x: px, y: py });
                }
            },
            OutlineCmd::CurveTo { x1, y1, x2, y2, x, y } => {
                if open {
                    let c1x: i64 = scaled(x1, upem) + ox;
                    let c1y: i64 = -scaled(y1, upem) + oy;
                    let c2x: i64 = scaled(x2, upem) + ox;
                    let c2y: i64 = -scaled(y2, upem) + oy;
                    let px: i64 = scaled(x, upem) + ox;
                    let py: i64 = -scaled(y, upem) + oy;
                    out.push(PathEvent::Cubic { c1x, c1y, c2x, c2y, x: px, y: py });
                }
            },
            OutlineCmd::Close => {
                if open {
                    out.push(PathEvent::End { closed: true });
                    open = false;
                }
            },
        }
        proof {
            assert(events_view(out@) =~= pre.map_values(|e: PathEvent| e@) + out@.skip(
                pre.len() as int,
            ).map_values(|e: PathEvent| e@));
        }
        i = i + 1;
    }
    proof {
        assert(cmds@.skip(i as int) =~= Seq::<OutlineCmd>::empty());
    }
    if open {
        out.push(PathEvent::End { closed: false });
    }
    proof {
        assert(events_view(out@) =~= total);
    }
    out
}

} // verus!
