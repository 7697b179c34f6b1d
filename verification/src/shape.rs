//! Text shaping.
//!
//! Shaping maps a string and a font face to an ordered left-to-right run
//! of positioned glyphs. The work itself is done by `rustybuzz`; this
//! module states its interface: for fixed font bytes, face index and text,
//! the shaped run is a single well-defined sequence.
use vstd::prelude::*;

verus! {

/// One shaped glyph: an identifier within the face plus positioning
/// deltas, all in font design units.
#[derive(Clone, Copy, PartialEq, Eq, Structural, Debug)]
pub struct ShapedGlyph {
    pub glyph_id: u32,
    pub x_advance: i32,
    pub y_advance: i32,
    pub x_offset: i32,
    pub y_offset: i32,
}

/// Whether `rustybuzz::Face::from_slice` accepts these bytes at this face
/// index.
pub uninterp spec fn face_ok(bytes: Seq<u8>, index: int) -> bool;

/// The units-per-em a parsed face reports for these bytes.
pub uninterp spec fn units_per_em_of(bytes: Seq<u8>, index: int) -> int;

/// The glyph run that shaping this text against this face produces.
pub uninterp spec fn shaped_run_of(bytes: Seq<u8>, index: int, text: Seq<char>) -> Seq<ShapedGlyph>;

/// Relies on `rustybuzz::Face::from_slice` (and the `units_per_em` of the
/// parsed face, a `u16` quantity held by the face): `None` exactly when
/// the bytes do not parse as a font with this face index.
#[verifier::external_body]
pub(crate) fn face_units_per_em(data: &[u8], index: u32) -> (r: Option<u16>)
    ensures
        r is Some <==> face_ok(data@, index as int),
        r is Some ==> r->0 == units_per_em_of(data@, index as int),
{
    rustybuzz::Face::from_slice(data, index).map(|f| f.units_per_em() as u16)
}

/// Relies on `rustybuzz::shape` (via `rustybuzz::Face::from_slice`): a
/// deterministic function of the font bytes, face index and text; shaping
/// an empty string yields an empty run, and the glyph infos and positions
/// of the result are equally long and are read off pairwise.
#[verifier::external_body]
pub(crate) fn shape_text(data: &[u8], index: u32, text: &str) -> (r: Option<Vec<ShapedGlyph>>)
    ensures
        r is Some <==> face_ok(data@, index as int),
        r is Some ==> r->0@ == shaped_run_of(data@, index as int, text@),
        r is Some && text@.len() == 0 ==> r->0@.len() == 0,
{
    let face = rustybuzz::Face::from_slice(data, index)?;
    let mut buffer = rustybuzz::UnicodeBuffer::new();
    buffer.push_str(text);
    buffer.set_direction(rustybuzz::Direction::LeftToRight);
    buffer.set_script(rustybuzz::script::LATIN);
    let glyphs = rustybuzz::shape(&face, &[], buffer);
    let run = glyphs.glyph_infos().iter().zip(glyphs.glyph_positions().iter()).map(
        |(i, p)| ShapedGlyph {
            glyph_id: i.glyph_id, x_advance: p.x_advance, y_advance: p.y_advance,
            x_offset: p.x_offset, y_offset: p.y_offset,
        },
    ).collect();
    Some(run)
}

} // verus!
