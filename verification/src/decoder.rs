//! The trusted boundary toward the table-decoding backend
//! (`owned_ttf_parser`). Everything in this module either declares a backend
//! type or wraps one backend call; the contracts here are believed, not
//! proved, and each doc comment names the backend item relied on.
//!
//! Query results are given names (uninterpreted spec functions over the
//! parsed face value): a face is immutable, so every query is a pure
//! function of the face it is asked of.

use vstd::prelude::*;

verus! {

#[verifier::external_type_specification]
#[verifier::external_body]
pub struct ExFace<'a>(owned_ttf_parser::Face<'a>);

#[verifier::external_type_specification]
#[verifier::external_body]
pub struct ExOwnedFace(owned_ttf_parser::OwnedFace);

#[verifier::external_type_specification]
#[verifier::external_body]
pub struct ExFaceParsingError(owned_ttf_parser::FaceParsingError);

/// The parsed face borrowed from an owning face's buffer.
pub uninterp spec fn owned_face(f: owned_ttf_parser::OwnedFace) -> owned_ttf_parser::Face<'static>;

/// Whether the backend parses these bytes, at this collection index, as a
/// font. Parsing is a function of the bytes and the index alone.
pub uninterp spec fn spec_parse_ok(data: Seq<u8>, index: u32) -> bool;

/// The face the backend parses from these bytes at this collection index,
/// when it parses them at all.
pub uninterp spec fn spec_parsed_face(data: Seq<u8>, index: u32) -> owned_ttf_parser::Face<
    'static,
>;

/// The face's design-unit scale, from its header.
pub uninterp spec fn spec_units_per_em(f: owned_ttf_parser::Face<'_>) -> u16;

/// The face-wide horizontal ascender, in design units.
pub uninterp spec fn spec_ascender(f: owned_ttf_parser::Face<'_>) -> i16;

/// The face-wide horizontal descender, in design units.
pub uninterp spec fn spec_descender(f: owned_ttf_parser::Face<'_>) -> i16;

/// The face-wide horizontal line gap, in design units.
pub uninterp spec fn spec_line_gap(f: owned_ttf_parser::Face<'_>) -> i16;

/// The total number of glyphs in the face.
pub uninterp spec fn spec_glyph_count(f: owned_ttf_parser::Face<'_>) -> u16;

/// The glyph id the face's character map assigns to a character, if any.
pub uninterp spec fn spec_glyph_index(f: owned_ttf_parser::Face<'_>, c: char) -> Option<u16>;

/// The glyph's horizontal advance, if the face has one for it.
pub uninterp spec fn spec_h_advance(f: owned_ttf_parser::Face<'_>, glyph: u16) -> Option<u16>;

/// The glyph's horizontal side bearing, if the face has one for it.
pub uninterp spec fn spec_h_side_bearing(f: owned_ttf_parser::Face<'_>, glyph: u16) -> Option<i16>;

/// The glyph's vertical advance, if the face has one for it.
pub uninterp spec fn spec_v_advance(f: owned_ttf_parser::Face<'_>, glyph: u16) -> Option<u16>;

/// The glyph's vertical side bearing, if the face has one for it.
pub uninterp spec fn spec_v_side_bearing(f: owned_ttf_parser::Face<'_>, glyph: u16) -> Option<i16>;

/// One record per kerning subtable of the face, in table order: whether the
/// subtable is horizontal, whether it is variable, and the kerning value it
/// holds for the given glyph pair, if any.
pub uninterp spec fn spec_kern_records(
    f: owned_ttf_parser::Face<'_>,
    left: u16,
    right: u16,
) -> Seq<(bool, bool, Option<i16>)>;

/// Whether the face's colour table has an entry for the glyph.
pub uninterp spec fn spec_is_color_glyph(f: owned_ttf_parser::Face<'_>, glyph: u16) -> bool;

/// Relies on the backend's derived `Face::clone`: a field-wise copy, equal
/// to the original as a value.
pub assume_specification<'a>[ <owned_ttf_parser::Face<'a> as core::clone::Clone>::clone ](
    f: &owned_ttf_parser::Face<'a>,
) -> (r: owned_ttf_parser::Face<'a>)
    ensures
        r == *f,
;

/// Relies on `Face::parse`: `Ok` exactly when the backend can parse the
/// bytes as a font and the collection index is in range, and the parsed
/// face is a function of the bytes and the index alone.
#[verifier::external_body]
pub(crate) fn parse_face<'a>(data: &'a [u8], index: u32) -> (r: Result<
    owned_ttf_parser::Face<'a>,
    owned_ttf_parser::FaceParsingError,
>)
    ensures
        (r is Ok) == spec_parse_ok(data@, index),
        r matches Ok(f) ==> f == spec_parsed_face(data@, index),
{
    owned_ttf_parser::Face::parse(data, index)
}

/// Relies on `OwnedFace::from_vec`: it parses the moved buffer with the same
/// `Face::parse` and stores that one face, so it succeeds on exactly the
/// bytes `Face::parse` accepts and owns the face those bytes parse to.
#[verifier::external_body]
pub(crate) fn parse_owned_face(data: Vec<u8>, index: u32) -> (r: Result<
    owned_ttf_parser::OwnedFace,
    owned_ttf_parser::FaceParsingError,
>)
    ensures
        (r is Ok) == spec_parse_ok(data@, index),
        r matches Ok(f) ==> owned_face(f) == spec_parsed_face(data@, index),
{
    owned_ttf_parser::OwnedFace::from_vec(data, index)
}

/// Relies on `AsFaceRef::as_face_ref`: an owning face hands out the one
/// parsed face borrowed from its buffer.
#[verifier::external_body]
pub(crate) fn as_face<'a>(f: &'a owned_ttf_parser::OwnedFace) -> (r: &'a owned_ttf_parser::Face<'a>)
    ensures
        *r == owned_face(*f),
{
    owned_ttf_parser::AsFaceRef::as_face_ref(f)
}

/// Relies on `Face::units_per_em`: the design-unit scale from the face's
/// header, guaranteed by the backend to lie in 16..=16384.
#[verifier::external_body]
pub(crate) fn units_per_em_of(f: &owned_ttf_parser::Face<'_>) -> (r: u16)
    ensures
        r == spec_units_per_em(*f),
        16 <= r <= 16384,
{
    f.units_per_em()
}

/// Relies on `Face::ascender`.
#[verifier::external_body]
pub(crate) fn ascender_of(f: &owned_ttf_parser::Face<'_>) -> (r: i16)
    ensures
        r == spec_ascender(*f),
{
    f.ascender()
}

/// Relies on `Face::descender`.
#[verifier::external_body]
pub(crate) fn descender_of(f: &owned_ttf_parser::Face<'_>) -> (r: i16)
    ensures
        r == spec_descender(*f),
{
    f.descender()
}

/// Relies on `Face::line_gap`.
#[verifier::external_body]
pub(crate) fn line_gap_of(f: &owned_ttf_parser::Face<'_>) -> (r: i16)
    ensures
        r == spec_line_gap(*f),
{
    f.line_gap()
}

/// Relies on `Face::number_of_glyphs`, documented never to be zero.
#[verifier::external_body]
pub(crate) fn glyph_count_of(f: &owned_ttf_parser::Face<'_>) -> (r: u16)
    ensures
        r == spec_glyph_count(*f),
        r >= 1,
{
    f.number_of_glyphs()
}

/// Relies on `Face::glyph_index`: the character-map lookup, `None` when the
/// character is unmapped. The backend's glyph id is converted to its bare
/// index.
#[verifier::external_body]
pub(crate) fn glyph_index_of(f: &owned_ttf_parser::Face<'_>, c: char) -> (r: Option<u16>)
    ensures
        r == spec_glyph_index(*f, c),
{
    f.glyph_index(c).map(|id| id.0)
}

/// Relies on `Face::glyph_hor_advance`: `None` when the glyph id is not in
/// the face or the face has no horizontal metrics.
#[verifier::external_body]
pub(crate) fn h_advance_of(f: &owned_ttf_parser::Face<'_>, glyph: u16) -> (r: Option<u16>)
    ensures
        r == spec_h_advance(*f, glyph),
{
    f.glyph_hor_advance(owned_ttf_parser::GlyphId(glyph))
}

/// Relies on `Face::glyph_hor_side_bearing`.
#[verifier::external_body]
pub(crate) fn h_side_bearing_of(f: &owned_ttf_parser::Face<'_>, glyph: u16) -> (r: Option<i16>)
    ensures
        r == spec_h_side_bearing(*f, glyph),
{
    f.glyph_hor_side_bearing(owned_ttf_parser::GlyphId(glyph))
}

/// Relies on `Face::glyph_ver_advance`.
#[verifier::external_body]
pub(crate) fn v_advance_of(f: &owned_ttf_parser::Face<'_>, glyph: u16) -> (r: Option<u16>)
    ensures
        r == spec_v_advance(*f, glyph),
{
    f.glyph_ver_advance(owned_ttf_parser::GlyphId(glyph))
}

/// Relies on `Face::glyph_ver_side_bearing`.
#[verifier::external_body]
pub(crate) fn v_side_bearing_of(f: &owned_ttf_parser::Face<'_>, glyph: u16) -> (r: Option<i16>)
    ensures
        r == spec_v_side_bearing(*f, glyph),
{
    f.glyph_ver_side_bearing(owned_ttf_parser::GlyphId(glyph))
}

/// Relies on `kern::Table::subtables` iteration (table order) and
/// `kern::Subtable::glyphs_kerning`: hands out, per kerning subtable, its
/// `horizontal` and `variable` flags and its value for the given pair. A face
/// without a kerning table has no subtables.
#[verifier::external_body]
pub(crate) fn kern_records_of(f: &owned_ttf_parser::Face<'_>, left: u16, right: u16) -> (r: Vec<
    (bool, bool, Option<i16>),
>)
    ensures
        r@ == spec_kern_records(*f, left, right),
{
    let mut out = Vec::new();
    if let Some(table) = f.tables().kern {
        for st in table.subtables {
            let value = st.glyphs_kerning(
                owned_ttf_parser::GlyphId(left),
                owned_ttf_parser::GlyphId(right),
            );
            out.push((st.horizontal, st.variable, value));
        }
    }
    out
}

/// Relies on `Face::is_color_glyph`: whether the colour table contains an
/// entry for the glyph.
#[verifier::external_body]
pub(crate) fn is_color_glyph_of(f: &owned_ttf_parser::Face<'_>, glyph: u16) -> (r: bool)
    ensures
        r == spec_is_color_glyph(*f, glyph),
{
    f.is_color_glyph(owned_ttf_parser::GlyphId(glyph))
}

} // verus!
