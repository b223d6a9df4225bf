//! Font-data abstraction layer over a table-decoding backend.
//!
//! Raw per-format glyph drawing commands are normalised into a canonical
//! outline representation (curves plus a bounding box), multi-layer colour
//! glyphs are resolved into flattened coloured outline lists, and font-wide
//! and per-glyph metrics are exposed in unscaled font design units.
//!
//! Outline and colour-layer extraction are driven through the decoder's
//! callback protocols; [`outline::CurveBuilder`] accumulates those callbacks
//! and [`outline::Outline::assemble`] packages the result. The query surface
//! itself lives on [`ttfp::FontRef`] and [`ttfp::FontVec`] behind the
//! [`ttfp::Font`] trait.

use vstd::prelude::*;

pub mod color;
pub mod decoder;
pub mod outline;
pub mod ttfp;

verus! {

/// Identifies a glyph within one font.
///
/// Ids are unique per font and meaningless across fonts. Id 0 is the
/// conventional "missing glyph" (notdef) id.
#[derive(Clone, Copy, Debug, PartialEq, Eq, Hash, PartialOrd, Ord, Structural)]
pub struct GlyphId(pub u16);

} // verus!

pub use color::{
    compose_color_outlines, fold_paint_event, pack_rgba, resolve_color_outlines, ColorLayer,
    PaintEvent,
};
pub use outline::{Corner, Curve, CurveBuilder, Outline, Point, Rect};
pub use ttfp::{Font, FontRef, FontVec, InvalidFont};
