//! The font capability facade: two backends (slice-backed and owned-buffer
//! backed) exposing one query surface for metrics, character mapping,
//! kerning and colour-table presence, all in unscaled design units.

use vstd::prelude::*;

use crate::decoder::{
    as_face, ascender_of, descender_of, glyph_count_of, glyph_index_of, h_advance_of,
    h_side_bearing_of, is_color_glyph_of, kern_records_of, line_gap_of, owned_face, parse_face,
    parse_owned_face, spec_ascender, spec_descender, spec_glyph_count, spec_glyph_index,
    spec_parse_ok, spec_parsed_face,
    spec_h_advance, spec_h_side_bearing, spec_is_color_glyph, spec_kern_records, spec_line_gap,
    spec_units_per_em, spec_v_advance, spec_v_side_bearing, units_per_em_of, v_advance_of,
    v_side_bearing_of,
};
use crate::GlyphId;

verus! {

/// The one recoverable, construction-time error: the supplied bytes are not
/// a parsable font, or the collection index is out of range. All queries
/// after a successful construction are total or model absence as `None`.
#[derive(Clone, Copy, Debug, PartialEq, Eq, Structural)]
pub struct InvalidFont;

/// The id a character-map lookup resolves to: the mapped glyph id, or the
/// conventional missing-glyph id 0 for an unmapped character.
pub open spec fn glyph_or_notdef(idx: Option<u16>) -> u16 {
    match idx {
        Some(i) => i,
        None => 0,
    }
}

/// The kerning value the subtable scan yields: subtables are visited in
/// table order, vertical or variable ones are passed over, and the first
/// horizontal non-variable subtable holding a value for the pair decides.
/// With no such subtable the value is 0.
pub open spec fn first_kern(recs: Seq<(bool, bool, Option<i16>)>) -> i16
    decreases recs.len(),
{
    if recs.len() == 0 {
        0
    } else if recs[0].0 && !recs[0].1 && recs[0].2 is Some {
        recs[0].2->Some_0
    } else {
        first_kern(recs.drop_first())
    }
}

/// When no horizontal, non-variable subtable holds a value for the pair,
/// the scan yields 0 — even if vertical or variable subtables hold one.
pub proof fn lemma_kern_unmatched_is_zero(recs: Seq<(bool, bool, Option<i16>)>)
    requires
        forall|i: int| 0 <= i < recs.len() ==> !(recs[i].0 && !recs[i].1 && recs[i].2 is Some),
    ensures
        first_kern(recs) == 0,
    decreases recs.len(),
{
    if recs.len() > 0 {
        assert(!(recs[0].0 && !recs[0].1 && recs[0].2 is Some));
        assert forall|i: int| 0 <= i < recs.drop_first().len() implies !(recs.drop_first()[i].0
            && !recs.drop_first()[i].1 && recs.drop_first()[i].2 is Some) by {
            assert(recs.drop_first()[i] == recs[i + 1]);
        }
        lemma_kern_unmatched_is_zero(recs.drop_first());
    }
}

/// The shared kerning scan both backends delegate to.
fn kern_lookup(face: &owned_ttf_parser::Face<'_>, left: u16, right: u16) -> (r: i16)
    ensures
        r == first_kern(spec_kern_records(*face, left, right)),
{
    let recs = kern_records_of(face, left, right);
    let ghost all = recs@;
    let mut i: usize = 0;
    proof {
        assert(all.skip(0) =~= all);
    }
    while i < recs.len()
        invariant
            recs@ == all,
            all == spec_kern_records(*face, left, right),
            i <= all.len(),
            first_kern(all) == first_kern(all.skip(i as int)),
        decreases all.len() - i,
    {
        let rec = recs[i];
        proof {
            assert(all.skip(i as int)[0] == all[i as int]);
            assert(all.skip(i as int).drop_first() =~= all.skip(i as int + 1));
        }
        if rec.0 && !rec.1 {
            if let Some(k) = rec.2 {
                proof {
                    assert(all.skip(i as int).len() > 0);
                    assert(all.skip(i as int)[0] == rec);
                    assert(first_kern(all.skip(i as int)) == rec.2->Some_0);
                }
                return k;
            }
        }
        i = i + 1;
    }
    proof {
        assert(all.skip(all.len() as int) =~= Seq::<(bool, bool, Option<i16>)>::empty());
    }
    0
}

/// The uniform query surface over one parsed font.
///
/// Every query is pure: it depends only on the queried value and the font's
/// immutable table data, abstracted by the `q_*` spec methods. Metrics are
/// unscaled design units; the caller applies `units_per_em` scaling.
pub trait Font {
    /// The design-unit scale this backend reports.
    spec fn q_units_per_em(&self) -> u16;

    /// The face-wide ascender this backend reports.
    spec fn q_ascent(&self) -> i16;

    /// The face-wide descender this backend reports.
    spec fn q_descent(&self) -> i16;

    /// The face-wide line gap this backend reports.
    spec fn q_line_gap(&self) -> i16;

    /// The character-map entry for a character, if any.
    spec fn q_glyph_index(&self, c: char) -> Option<u16>;

    /// The total number of glyphs.
    spec fn q_glyph_count(&self) -> u16;

    /// The glyph's horizontal advance, if present.
    spec fn q_h_advance(&self, glyph: u16) -> Option<u16>;

    /// The glyph's horizontal side bearing, if present.
    spec fn q_h_side_bearing(&self, glyph: u16) -> Option<i16>;

    /// The glyph's vertical advance, if present.
    spec fn q_v_advance(&self, glyph: u16) -> Option<u16>;

    /// The glyph's vertical side bearing, if present.
    spec fn q_v_side_bearing(&self, glyph: u16) -> Option<i16>;

    /// Per kerning subtable, in table order: horizontal flag, variable flag,
    /// and the value held for the pair, if any.
    spec fn q_kern_records(&self, left: u16, right: u16) -> Seq<(bool, bool, Option<i16>)>;

    /// Whether the colour table has an entry for the glyph.
    spec fn q_is_color(&self, glyph: u16) -> bool;

    /// The font's design-unit scale. With this backend a parsed face always
    /// carries one, validated at parse to lie in 16..=16384, so the
    /// legitimate-absence case never arises here and the scale is positive.
    fn units_per_em(&self) -> (r: Option<u16>)
        ensures
            r == Some(self.q_units_per_em()),
            r matches Some(u) ==> 16 <= u <= 16384,
    ;

    /// Face-wide ascent, unscaled.
    fn ascent_unscaled(&self) -> (r: i16)
        ensures
            r == self.q_ascent(),
    ;

    /// Face-wide descent, unscaled.
    fn descent_unscaled(&self) -> (r: i16)
        ensures
            r == self.q_descent(),
    ;

    /// Face-wide line gap, unscaled.
    fn line_gap_unscaled(&self) -> (r: i16)
        ensures
            r == self.q_line_gap(),
    ;

    /// Maps a character to its glyph id. Unmapped characters resolve to
    /// `GlyphId(0)`, the conventional missing-glyph id; that fallback is
    /// documented behaviour, not an error.
    fn glyph_id(&self, c: char) -> (r: GlyphId)
        ensures
            r.0 == glyph_or_notdef(self.q_glyph_index(c)),
    ;

    /// The glyph's horizontal advance, unscaled. `None` when the glyph id is
    /// not this font's or the font lacks the metric; callers that treat that
    /// as a programming error fail on it at their level.
    fn h_advance_unscaled(&self, id: GlyphId) -> (r: Option<u16>)
        ensures
            r == self.q_h_advance(id.0),
    ;

    /// The glyph's horizontal side bearing, unscaled.
    fn h_side_bearing_unscaled(&self, id: GlyphId) -> (r: Option<i16>)
        ensures
            r == self.q_h_side_bearing(id.0),
    ;

    /// The glyph's vertical advance, unscaled.
    fn v_advance_unscaled(&self, id: GlyphId) -> (r: Option<u16>)
        ensures
            r == self.q_v_advance(id.0),
    ;

    /// The glyph's vertical side bearing, unscaled.
    fn v_side_bearing_unscaled(&self, id: GlyphId) -> (r: Option<i16>)
        ensures
            r == self.q_v_side_bearing(id.0),
    ;

    /// The kerning between two glyphs, unscaled: the first value any
    /// horizontal non-variable subtable holds for the pair, in table order,
    /// or 0 when none does — union-first-match, not summed.
    fn kern_unscaled(&self, first: GlyphId, second: GlyphId) -> (r: i16)
        ensures
            r == first_kern(self.q_kern_records(first.0, second.0)),
    ;

    /// The total number of glyphs, never zero; valid ids are
    /// `0..glyph_count()`.
    fn glyph_count(&self) -> (r: usize)
        ensures
            r == self.q_glyph_count() as usize,
            r >= 1,
    ;

    /// Whether the font's layer table has colour layers for the glyph: a
    /// cheap existence check, independent of full resolution.
    fn has_color(&self, id: GlyphId) -> (r: bool)
        ensures
            r == self.q_is_color(id.0),
    ;
}

/// The two backends share one query logic: fonts parsed from the same bytes
/// and collection index answer every query identically, whichever backend
/// holds them.
pub proof fn lemma_backends_agree(fr: FontRef<'_>, fv: FontVec, data: Seq<u8>, index: u32)
    requires
        face_of_ref(fr) == spec_parsed_face(data, index),
        face_of_vec(fv) == spec_parsed_face(data, index),
    ensures
        fr.q_units_per_em() == fv.q_units_per_em(),
        fr.q_ascent() == fv.q_ascent(),
        fr.q_descent() == fv.q_descent(),
        fr.q_line_gap() == fv.q_line_gap(),
        fr.q_glyph_count() == fv.q_glyph_count(),
        forall|c: char| fr.q_glyph_index(c) == fv.q_glyph_index(c),
        forall|g: u16| fr.q_h_advance(g) == fv.q_h_advance(g),
        forall|g: u16| fr.q_h_side_bearing(g) == fv.q_h_side_bearing(g),
        forall|g: u16| fr.q_v_advance(g) == fv.q_v_advance(g),
        forall|g: u16| fr.q_v_side_bearing(g) == fv.q_v_side_bearing(g),
        forall|a: u16, b: u16| fr.q_kern_records(a, b) == fv.q_kern_records(a, b),
        forall|g: u16| fr.q_is_color(g) == fv.q_is_color(g),
{
}

/// Font data handle backed by a borrowed byte slice.
///
/// Also see the owned version, [`FontVec`].
#[derive(Clone)]
pub struct FontRef<'font>(owned_ttf_parser::Face<'font>);

/// The parsed face a [`FontRef`] wraps.
pub closed spec fn face_of_ref(f: FontRef<'_>) -> owned_ttf_parser::Face<'_> {
    f.0
}

/// The parsed face a [`FontVec`] owns.
pub closed spec fn face_of_vec(f: FontVec) -> owned_ttf_parser::Face<'static> {
    owned_face(f.0)
}

impl<'font> FontRef<'font> {
    /// Creates a `FontRef` from a byte slice holding a single font.
    ///
    /// For font collections see [`FontRef::try_from_slice_and_index`]; this
    /// is exactly that construction at index 0. Fails with [`InvalidFont`]
    /// exactly when the decoder rejects the bytes; this is the only
    /// fallible entry point of the surface.
    pub fn try_from_slice(data: &'font [u8]) -> (r: Result<FontRef<'font>, InvalidFont>)
        ensures
            (r is Ok) == spec_parse_ok(data@, 0),
            r matches Ok(f) ==> face_of_ref(f) == spec_parsed_face(data@, 0),
    {
        Self::try_from_slice_and_index(data, 0)
    }

    /// Creates a `FontRef` from a byte slice, selecting the sub-font at
    /// `index` for collection files. For simple fonts use index 0 or
    /// [`FontRef::try_from_slice`]. `Err(InvalidFont)` exactly when the
    /// decoder cannot parse the bytes at that index; on success the font
    /// wraps the one face those bytes parse to.
    pub fn try_from_slice_and_index(data: &'font [u8], index: u32) -> (r: Result<
        FontRef<'font>,
        InvalidFont,
    >)
        ensures
            (r is Ok) == spec_parse_ok(data@, index),
            r matches Ok(f) ==> face_of_ref(f) == spec_parsed_face(data@, index),
    {
        match parse_face(data, index) {
            Ok(face) => Ok(FontRef(face)),
            Err(_) => Err(InvalidFont),
        }
    }

    /// The underlying parsed face, for driving the decoder's callback
    /// protocols (outline extraction, colour-layer painting) from the
    /// embedding program.
    pub fn raw_face(&self) -> (r: &owned_ttf_parser::Face<'font>)
        ensures
            *r == face_of_ref(*self),
    {
        &self.0
    }
}

impl Font for FontRef<'_> {
    open spec fn q_units_per_em(&self) -> u16 {
        spec_units_per_em(face_of_ref(*self))
    }

    open spec fn q_ascent(&self) -> i16 {
        spec_ascender(face_of_ref(*self))
    }

    open spec fn q_descent(&self) -> i16 {
        spec_descender(face_of_ref(*self))
    }

    open spec fn q_line_gap(&self) -> i16 {
        spec_line_gap(face_of_ref(*self))
    }

    open spec fn q_glyph_index(&self, c: char) -> Option<u16> {
        spec_glyph_index(face_of_ref(*self), c)
    }

    open spec fn q_glyph_count(&self) -> u16 {
        spec_glyph_count(face_of_ref(*self))
    }

    open spec fn q_h_advance(&self, glyph: u16) -> Option<u16> {
        spec_h_advance(face_of_ref(*self), glyph)
    }

    open spec fn q_h_side_bearing(&self, glyph: u16) -> Option<i16> {
        spec_h_side_bearing(face_of_ref(*self), glyph)
    }

    open spec fn q_v_advance(&self, glyph: u16) -> Option<u16> {
        spec_v_advance(face_of_ref(*self), glyph)
    }

    open spec fn q_v_side_bearing(&self, glyph: u16) -> Option<i16> {
        spec_v_side_bearing(face_of_ref(*self), glyph)
    }

    open spec fn q_kern_records(&self, left: u16, right: u16) -> Seq<(bool, bool, Option<i16>)> {
        spec_kern_records(face_of_ref(*self), left, right)
    }

    open spec fn q_is_color(&self, glyph: u16) -> bool {
        spec_is_color_glyph(face_of_ref(*self), glyph)
    }

    fn units_per_em(&self) -> (r: Option<u16>) {
        Some(units_per_em_of(&self.0))
    }

    fn ascent_unscaled(&self) -> (r: i16) {
        ascender_of(&self.0)
    }

    fn descent_unscaled(&self) -> (r: i16) {
        descender_of(&self.0)
    }

    fn line_gap_unscaled(&self) -> (r: i16) {
        line_gap_of(&self.0)
    }

    fn glyph_id(&self, c: char) -> (r: GlyphId) {
        match glyph_index_of(&self.0, c) {
            Some(index) => GlyphId(index),
            None => GlyphId(0),
        }
    }

    fn h_advance_unscaled(&self, id: GlyphId) -> (r: Option<u16>) {
        h_advance_of(&self.0, id.0)
    }

    fn h_side_bearing_unscaled(&self, id: GlyphId) -> (r: Option<i16>) {
        h_side_bearing_of(&self.0, id.0)
    }

    fn v_advance_unscaled(&self, id: GlyphId) -> (r: Option<u16>) {
        v_advance_of(&self.0, id.0)
    }

    fn v_side_bearing_unscaled(&self, id: GlyphId) -> (r: Option<i16>) {
        v_side_bearing_of(&self.0, id.0)
    }

    fn kern_unscaled(&self, first: GlyphId, second: GlyphId) -> (r: i16) {
        kern_lookup(&self.0, first.0, second.0)
    }

    fn glyph_count(&self) -> (r: usize) {
        glyph_count_of(&self.0) as usize
    }

    fn has_color(&self, id: GlyphId) -> (r: bool) {
        is_color_glyph_of(&self.0, id.0)
    }
}

/// Font data handle that owns its byte buffer.
///
/// Also see [`FontRef`].
pub struct FontVec(owned_ttf_parser::OwnedFace);

impl FontVec {
    /// Creates a `FontVec` from owned data holding a single font.
    ///
    /// For font collections see [`FontVec::try_from_vec_and_index`]; this is
    /// exactly that construction at index 0.
    pub fn try_from_vec(data: Vec<u8>) -> (r: Result<FontVec, InvalidFont>)
        ensures
            (r is Ok) == spec_parse_ok(data@, 0),
            r matches Ok(f) ==> face_of_vec(f) == spec_parsed_face(data@, 0),
    {
        Self::try_from_vec_and_index(data, 0)
    }

    /// Creates a `FontVec` from owned data, selecting the sub-font at
    /// `index` for collection files. For simple fonts use index 0 or
    /// [`FontVec::try_from_vec`]. `Err(InvalidFont)` exactly when the
    /// decoder cannot parse the buffer at that index; on success the font
    /// owns the one face those bytes parse to.
    pub fn try_from_vec_and_index(data: Vec<u8>, index: u32) -> (r: Result<FontVec, InvalidFont>)
        ensures
            (r is Ok) == spec_parse_ok(data@, index),
            r matches Ok(f) ==> face_of_vec(f) == spec_parsed_face(data@, index),
    {
        match parse_owned_face(data, index) {
            Ok(face) => Ok(FontVec(face)),
            Err(_) => Err(InvalidFont),
        }
    }

    /// The underlying parsed face, for driving the decoder's callback
    /// protocols from the embedding program.
    pub fn raw_face(&self) -> (r: &owned_ttf_parser::Face<'_>)
        ensures
            *r == face_of_vec(*self),
    {
        as_face(&self.0)
    }
}

impl Font for FontVec {
    open spec fn q_units_per_em(&self) -> u16 {
        spec_units_per_em(face_of_vec(*self))
    }

    open spec fn q_ascent(&self) -> i16 {
        spec_ascender(face_of_vec(*self))
    }

    open spec fn q_descent(&self) -> i16 {
        spec_descender(face_of_vec(*self))
    }

    open spec fn q_line_gap(&self) -> i16 {
        spec_line_gap(face_of_vec(*self))
    }

    open spec fn q_glyph_index(&self, c: char) -> Option<u16> {
        spec_glyph_index(face_of_vec(*self), c)
    }

    open spec fn q_glyph_count(&self) -> u16 {
        spec_glyph_count(face_of_vec(*self))
    }

    open spec fn q_h_advance(&self, glyph: u16) -> Option<u16> {
        spec_h_advance(face_of_vec(*self), glyph)
    }

    open spec fn q_h_side_bearing(&self, glyph: u16) -> Option<i16> {
        spec_h_side_bearing(face_of_vec(*self), glyph)
    }

    open spec fn q_v_advance(&self, glyph: u16) -> Option<u16> {
        spec_v_advance(face_of_vec(*self), glyph)
    }

    open spec fn q_v_side_bearing(&self, glyph: u16) -> Option<i16> {
        spec_v_side_bearing(face_of_vec(*self), glyph)
    }

    open spec fn q_kern_records(&self, left: u16, right: u16) -> Seq<(bool, bool, Option<i16>)> {
        spec_kern_records(face_of_vec(*self), left, right)
    }

    open spec fn q_is_color(&self, glyph: u16) -> bool {
        spec_is_color_glyph(face_of_vec(*self), glyph)
    }

    fn units_per_em(&self) -> (r: Option<u16>) {
        Some(units_per_em_of(as_face(&self.0)))
    }

    fn ascent_unscaled(&self) -> (r: i16) {
        ascender_of(as_face(&self.0))
    }

    fn descent_unscaled(&self) -> (r: i16) {
        descender_of(as_face(&self.0))
    }

    fn line_gap_unscaled(&self) -> (r: i16) {
        line_gap_of(as_face(&self.0))
    }

    fn glyph_id(&self, c: char) -> (r: GlyphId) {
        match glyph_index_of(as_face(&self.0), c) {
            Some(index) => GlyphId(index),
            None => GlyphId(0),
        }
    }

    fn h_advance_unscaled(&self, id: GlyphId) -> (r: Option<u16>) {
        h_advance_of(as_face(&self.0), id.0)
    }

    fn h_side_bearing_unscaled(&self, id: GlyphId) -> (r: Option<i16>) {
        h_side_bearing_of(as_face(&self.0), id.0)
    }

    fn v_advance_unscaled(&self, id: GlyphId) -> (r: Option<u16>) {
        v_advance_of(as_face(&self.0), id.0)
    }

    fn v_side_bearing_unscaled(&self, id: GlyphId) -> (r: Option<i16>) {
        v_side_bearing_of(as_face(&self.0), id.0)
    }

    fn kern_unscaled(&self, first: GlyphId, second: GlyphId) -> (r: i16) {
        kern_lookup(as_face(&self.0), first.0, second.0)
    }

    fn glyph_count(&self) -> (r: usize) {
        glyph_count_of(as_face(&self.0)) as usize
    }

    fn has_color(&self, id: GlyphId) -> (r: bool) {
        is_color_glyph_of(as_face(&self.0), id.0)
    }
}

} // verus!
