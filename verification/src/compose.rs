//! Glyph-run composition.
//!
//! Walks a shaped glyph run left to right, converts each glyph's outline
//! at the running cursor position, serializes it, and collects the
//! non-empty path strings together with the final cursor (the run's right
//! edge). Advance and visibility are independent: a glyph without an
//! outline still advances the cursor.
use vstd::prelude::*;

use crate::error::BadgeError;
use crate::path::MAX_COORD;
use crate::path::OutlineCmd;
use crate::path::SCALED_BOUND;
use crate::path::convert_outline;
use crate::path::events_view;
use crate::path::scaled;
use crate::path::spec_convert;
use crate::path::spec_scaled;
use crate::serialize::serialize_path;
use crate::serialize::spec_path_str;
use crate::shape::ShapedGlyph;

verus! {

/// The cursor position before glyph `n`: the start position plus the
/// scaled advances of the first `n` glyphs.
pub open spec fn cursor_after(glyphs: Seq<ShapedGlyph>, x: int, upem: int, n: int) -> int
    decreases n,
{
    if n <= 0 {
        x
    } else {
        cursor_after(glyphs, x, upem, n - 1) + spec_scaled(glyphs[n - 1].x_advance as int, upem)
    }
}

/// The sum of the scaled X advances of the first `n` glyphs.
pub open spec fn advance_sum(glyphs: Seq<ShapedGlyph>, upem: int, n: int) -> int
    decreases n,
{
    if n <= 0 {
        0
    } else {
        advance_sum(glyphs, upem, n - 1) + spec_scaled(glyphs[n - 1].x_advance as int, upem)
    }
}

/// Badge-space X origin of glyph `k`: the cursor plus its scaled X offset.
pub open spec fn origin_x(glyphs: Seq<ShapedGlyph>, x: int, upem: int, k: int) -> int {
    cursor_after(glyphs, x, upem, k) + spec_scaled(glyphs[k].x_offset as int, upem)
}

/// Badge-space Y origin of glyph `k`: the baseline plus its scaled Y
/// offset.
pub open spec fn origin_y(glyphs: Seq<ShapedGlyph>, baseline: int, upem: int, k: int) -> int {
    baseline + spec_scaled(glyphs[k].y_offset as int, upem)
}

/// Every cursor position and glyph origin of the run stays within the
/// representable badge-space coordinate range.
pub open spec fn run_fits(glyphs: Seq<ShapedGlyph>, x: int, baseline: int, upem: int) -> bool {
    (forall|k: int|
        0 <= k <= glyphs.len() ==> -MAX_COORD <= #[trigger] cursor_after(glyphs, x, upem, k)
            <= MAX_COORD) && (forall|k: int|
        0 <= k < glyphs.len() ==> -MAX_COORD <= #[trigger] origin_x(glyphs, x, upem, k)
            <= MAX_COORD) && (forall|k: int|
        0 <= k < glyphs.len() ==> -MAX_COORD <= #[trigger] origin_y(glyphs, baseline, upem, k)
            <= MAX_COORD)
}

/// The outline command list the table holds for a glyph identifier; a
/// glyph outside the table, like one the face has no outline for, has no
/// commands.
pub open spec fn outline_cmds(table: Seq<Vec<OutlineCmd>>, gid: int) -> Seq<OutlineCmd> {
    if 0 <= gid < table.len() {
        table[gid]@
    } else {
        Seq::<OutlineCmd>::empty()
    }
}

/// The glyph identifier a shaped glyph addresses the outline table with
/// (identifiers are 16-bit in the font container).
pub open spec fn table_gid(g: ShapedGlyph) -> int {
    (g.glyph_id as u16) as int
}

/// The serialized path text of glyph `k` of the run.
pub open spec fn glyph_path_str(
    glyphs: Seq<ShapedGlyph>,
    table: Seq<Vec<OutlineCmd>>,
    x: int,
    baseline: int,
    upem: int,
    k: int,
) -> Seq<char> {
    spec_path_str(
        spec_convert(
            outline_cmds(table, table_gid(glyphs[k])),
            upem,
            origin_x(glyphs, x, upem, k),
            origin_y(glyphs, baseline, upem, k),
        ),
    )
}

/// The non-empty serialized paths of the first `n` glyphs, in run order.
pub open spec fn run_paths_to(
    glyphs: Seq<ShapedGlyph>,
    table: Seq<Vec<OutlineCmd>>,
    x: int,
    baseline: int,
    upem: int,
    n: int,
) -> Seq<Seq<char>>
    decreases n,
{
    if n <= 0 {
        Seq::<Seq<char>>::empty()
    } else {
        let s = glyph_path_str(glyphs, table, x, baseline, upem, n - 1);
        run_paths_to(glyphs, table, x, baseline, upem, n - 1) + (if s.len() > 0 {
            seq![s]
        } else {
            Seq::<Seq<char>>::empty()
        })
    }
}

/// The serialized paths of a whole run.
pub open spec fn spec_run_paths(
    glyphs: Seq<ShapedGlyph>,
    table: Seq<Vec<OutlineCmd>>,
    x: int,
    baseline: int,
    upem: int,
) -> Seq<Seq<char>> {
    run_paths_to(glyphs, table, x, baseline, upem, glyphs.len() as int)
}

/// A composed glyph run: the non-empty serialized glyph paths in order,
/// and the final cursor position (the run's right edge).
pub struct RunOutput {
    pub paths: Vec<String>,
    pub end_x: i64,
}

/// The views of the collected path strings.
pub open spec fn paths_view(paths: Seq<String>) -> Seq<Seq<char>> {
    paths.map_values(|s: String| s@)
}

/// Composes one shaped run at a start position and baseline: converts and
/// serializes each glyph outline at the running cursor, collecting the
/// non-empty path texts, and advances the cursor by each glyph's scaled
/// X advance, whether or not the glyph produced a path. Fails only when
/// a cursor position or glyph origin leaves the representable coordinate
/// range.
pub fn layout_run(
    glyphs: &Vec<ShapedGlyph>,
    table: &Vec<Vec<OutlineCmd>>,
    x: i64,
    baseline: i64,
    upem: u16,
) -> (r: Result<RunOutput, BadgeError>)
    requires
        upem >= 1,
        -MAX_COORD <= x <= MAX_COORD,
        -MAX_COORD <= baseline <= MAX_COORD,
    ensures
        r is Ok <==> run_fits(glyphs@, x as int, baseline as int, upem as int),
        r is Err ==> r->Err_0 == BadgeError::OutlineError,
        r is Ok ==> r->Ok_0.end_x == cursor_after(
            glyphs@,
            x as int,
            upem as int,
            glyphs@.len() as int,
        ),
        r is Ok ==> paths_view(r->Ok_0.paths@) == spec_run_paths(
            glyphs@,
            table@,
            x as int,
            baseline as int,
            upem as int,
        ),
{
    let empty_cmds: Vec<OutlineCmd> = Vec::new();
    let mut paths: Vec<String> = Vec::new();
    let mut cursor: i64 = x;
    let mut k: usize = 0;
    proof {
        assert(paths_view(paths@) =~= run_paths_to(
            glyphs@,
            table@,
            x as int,
            baseline as int,
            upem as int,
            0,
        ));
    }
    while k < glyphs.len()
        invariant
            upem >= 1,
            -MAX_COORD <= x <= MAX_COORD,
            -MAX_COORD <= baseline <= MAX_COORD,
            0 <= k <= glyphs.len(),
            empty_cmds@.len() == 0,
            cursor == cursor_after(glyphs@, x as int, upem as int, k as int),
            -MAX_COORD <= cursor <= MAX_COORD,
            forall|j: int|
                0 <= j <= k ==> -MAX_COORD <= #[trigger] cursor_after(
                    glyphs@,
                    x as int,
                    upem as int,
                    j,
                ) <= MAX_COORD,
            forall|j: int|
                0 <= j < k ==> -MAX_COORD <= #[trigger] origin_x(glyphs@, x as int, upem as int, j)
                    <= MAX_COORD,
            forall|j: int|
                0 <= j < k ==> -MAX_COORD <= #[trigger] origin_y(
                    glyphs@,
                    baseline as int,
                    upem as int,
                    j,
                ) <= MAX_COORD,
            paths_view(paths@) == run_paths_to(
                glyphs@,
                table@,
                x as int,
                baseline as int,
                upem as int,
                k as int,
            ),
        decreases glyphs.len() - k,
    {
        let g = glyphs[k];
        let ox: i64 = cursor + scaled(g.x_offset, upem);
        if ox < -MAX_COORD || ox > MAX_COORD {
            assert(!run_fits(glyphs@, x as int, baseline as int, upem as int)) by {
                assert(origin_x(glyphs@, x as int, upem as int, k as int) == ox);
            }
            return Err(BadgeError::OutlineError);
        }
        let oy: i64 = baseline + scaled(g.y_offset, upem);
        if oy < -MAX_COORD || oy > MAX_COORD {
            assert(!run_fits(glyphs@, x as int, baseline as int, upem as int)) by {
                assert(origin_y(glyphs@, baseline as int, upem as int, k as int) == oy);
            }
            return Err(BadgeError::OutlineError);
        }
        let gid: usize = (g.glyph_id as u16) as usize;
        let cmds: &Vec<OutlineCmd> = if gid < table.len() {
            &table[gid]
        } else {
            &empty_cmds
        };
        proof {
            assert(cmds@ =~= outline_cmds(table@, table_gid(g)));
        }
        let events = convert_outline(cmds, upem, ox, oy);
        proof {
            assert(MAX_COORD + SCALED_BOUND < i64::MAX as int);
            assert(forall|j: int|
                0 <= j < events@.len() ==> crate::path::gevent_bounded(
                    #[trigger] events@[j]@,
                    i64::MAX as int,
                ));
        }
        let text = serialize_path(&events);
        let ghost gstr = glyph_path_str(
            glyphs@,
            table@,
            x as int,
            baseline as int,
            upem as int,
            k as int,
        );
        proof {
            assert(events_view(events@) == spec_convert(
                outline_cmds(table@, table_gid(g)),
                upem as int,
                ox as int,
                oy as int,
            ));
            assert(text@ == gstr);
        }
        let ghost pre_paths = paths@;
        if !text.as_str().is_empty() {
            paths.push(text);
        }
        proof {
            if gstr.len() > 0 {
                assert(paths_view(paths@) =~= paths_view(pre_paths) + seq![gstr]);
            }
            assert(paths_view(paths@) =~= run_paths_to(
                glyphs@,
                table@,
                x as int,
                baseline as int,
                upem as int,
                k as int + 1,
            ));
        }
        cursor = cursor + scaled(g.x_advance, upem);
        if cursor < -MAX_COORD || cursor > MAX_COORD {
            assert(!run_fits(glyphs@, x as int, baseline as int, upem as int)) by {
                assert(cursor_after(glyphs@, x as int, upem as int, k as int + 1) == cursor);
            }
            return Err(BadgeError::OutlineError);
        }
        k = k + 1;
    }
    Ok(RunOutput { paths, end_x: cursor })
}

/// The run's right edge is exactly the start position plus the sum of the
/// glyphs' scaled X advances.
pub proof fn lemma_cursor_is_advance_sum(glyphs: Seq<ShapedGlyph>, x: int, upem: int, n: int)
    ensures
        cursor_after(glyphs, x, upem, n) == x + advance_sum(glyphs, upem, n),
    decreases n,
{
    if n > 0 {
        lemma_cursor_is_advance_sum(glyphs, x, upem, n - 1);
    }
}

/// Cursor monotonicity: when no glyph has a negative X advance, the
/// cursor never moves left, so each glyph starts at or after the one
/// before it.
pub proof fn lemma_cursor_monotone(glyphs: Seq<ShapedGlyph>, x: int, upem: int, i: int, j: int)
    requires
        upem >= 1,
        forall|k: int| 0 <= k < glyphs.len() ==> (#[trigger] glyphs[k].x_advance) >= 0,
        0 <= i <= j <= glyphs.len(),
    ensures
        cursor_after(glyphs, x, upem, i) <= cursor_after(glyphs, x, upem, j),
    decreases j - i,
{
    if i < j {
        lemma_cursor_monotone(glyphs, x, upem, i, j - 1);
        let adv = glyphs[j - 1].x_advance as int;
        assert(adv * crate::path::FONT_SIZE_CENTS / upem >= 0) by (nonlinear_arith)
            requires
                adv >= 0 && upem >= 1,
        ;
    }
}

/// Glyph placement is monotone: when no glyph has a negative X advance
/// and none carries a horizontal offset, each successive glyph's starting
/// X origin is at or after the previous glyph's.
pub proof fn lemma_origin_monotone(glyphs: Seq<ShapedGlyph>, x: int, upem: int, k: int)
    requires
        upem >= 1,
        forall|j: int| 0 <= j < glyphs.len() ==> (#[trigger] glyphs[j].x_advance) >= 0,
        forall|j: int| 0 <= j < glyphs.len() ==> (#[trigger] glyphs[j].x_offset) == 0,
        0 <= k < glyphs.len() - 1,
    ensures
        origin_x(glyphs, x, upem, k) <= origin_x(glyphs, x, upem, k + 1),
{
    lemma_cursor_monotone(glyphs, x, upem, k, k + 1);
}

/// Advance and visibility are independent: a glyph whose outline is empty
/// contributes no path text, yet the cursor still advances by its scaled
/// X advance.
pub proof fn lemma_empty_outline_advances(
    glyphs: Seq<ShapedGlyph>,
    table: Seq<Vec<OutlineCmd>>,
    x: int,
    baseline: int,
    upem: int,
    k: int,
)
    requires
        0 <= k < glyphs.len(),
        outline_cmds(table, table_gid(glyphs[k])).len() == 0,
    ensures
        run_paths_to(glyphs, table, x, baseline, upem, k + 1) == run_paths_to(
            glyphs,
            table,
            x,
            baseline,
            upem,
            k,
        ),
        cursor_after(glyphs, x, upem, k + 1) == cursor_after(glyphs, x, upem, k) + spec_scaled(
            glyphs[k].x_advance as int,
            upem,
        ),
{
    assert(glyph_path_str(glyphs, table, x, baseline, upem, k) =~= Seq::<char>::empty());
    assert(run_paths_to(glyphs, table, x, baseline, upem, k + 1) =~= run_paths_to(
        glyphs,
        table,
        x,
        baseline,
        upem,
        k,
    ));
}

} // verus!
