//! Colour-layer resolution: packing palette colours and composing per-layer
//! outlines into flattened, coloured outline lists.

use vstd::prelude::*;

use crate::outline::Outline;
use crate::GlyphId;

verus! {

/// One layer of a multi-colour glyph: the glyph id of the layer's own
/// outline together with its resolved RGBA colour.
///
/// This is an intermediate construct: the resolved form consumers see is
/// `(Outline, packed RGBA)` pairs, produced by [`compose_color_outlines`].
#[derive(Clone, Copy, Debug, PartialEq, Eq, Structural)]
pub struct ColorLayer {
    pub id: GlyphId,
    pub r: u8,
    pub g: u8,
    pub b: u8,
    pub a: u8,
}

/// Four 8-bit channels packed into one 32-bit big-endian integer, byte order
/// R, G, B, A from most-significant to least-significant byte.
pub open spec fn spec_pack_rgba(r: u8, g: u8, b: u8, a: u8) -> u32 {
    ((r as u32) << 24) | ((g as u32) << 16) | ((b as u32) << 8) | (a as u32)
}

/// Packs RGBA channels into one 32-bit big-endian integer (R in the
/// most-significant byte, A in the least-significant byte).
pub fn pack_rgba(r: u8, g: u8, b: u8, a: u8) -> (c: u32)
    ensures
        c == spec_pack_rgba(r, g, b, a),
{
    ((r as u32) << 24) | ((g as u32) << 16) | ((b as u32) << 8) | (a as u32)
}

/// One event of the decoder's colour paint walk, reduced to what the
/// flattened-layer form consumes: a layer's outline glyph, a solid RGBA
/// fill, or anything else (gradients, transforms, composition modes).
#[derive(Clone, Copy, Debug, PartialEq, Eq, Structural)]
pub enum PaintEvent {
    /// The walk named the glyph whose outline the next fill paints.
    OutlineGlyph(u16),
    /// A solid fill with the given RGBA channels.
    Solid(u8, u8, u8, u8),
    /// Any other paint construct; it contributes no flattened layer.
    Other,
}

/// Folds one paint-walk event into the flattened layer list.
///
/// `pending` is the glyph the walk last named and `r` the glyph pending
/// after the event. A solid fill completes the pending glyph into one
/// [`ColorLayer`], appended in walk order; any fill clears the pending
/// glyph, and any other event leaves the list unchanged.
pub fn fold_paint_event(pending: Option<u16>, layers: &mut Vec<ColorLayer>, ev: PaintEvent) -> (r:
    Option<u16>)
    ensures
        match ev {
            PaintEvent::OutlineGlyph(g) => r == Some(g) && final(layers)@ == old(layers)@,
            PaintEvent::Solid(cr, cg, cb, ca) => r is None && (match pending {
                Some(g) => final(layers)@ == old(layers)@.push(
                    ColorLayer { id: GlyphId(g), r: cr, g: cg, b: cb, a: ca },
                ),
                None => final(layers)@ == old(layers)@,
            }),
            PaintEvent::Other => r is None && final(layers)@ == old(layers)@,
        },
{
    match ev {
        PaintEvent::OutlineGlyph(g) => Some(g),
        PaintEvent::Solid(cr, cg, cb, ca) => {
            if let Some(g) = pending {
                layers.push(ColorLayer { id: GlyphId(g), r: cr, g: cg, b: cb, a: ca });
            }
            None
        },
        PaintEvent::Other => None,
    }
}

/// Pairs each colour layer with its outline, in layer order.
///
/// The caller supplies one outline per layer, already extracted for that
/// layer's glyph id. The result keeps the layer-list order exactly — later
/// layers paint over earlier ones — and has one element per layer: element
/// `i` is layer `i`'s outline together with its packed RGBA colour.
pub fn compose_color_outlines(layers: &Vec<ColorLayer>, outlines: Vec<Outline>) -> (r: Vec<(Outline, u32)>)
    requires
        layers@.len() == outlines@.len(),
    ensures
        r@.len() == layers@.len(),
        forall|i: int|
            0 <= i < r@.len() ==> r@[i].0 == outlines@[i] && r@[i].1 == spec_pack_rgba(
                layers@[i].r,
                layers@[i].g,
                layers@[i].b,
                layers@[i].a,
            ),
{
    let ghost orig = outlines@;
    let mut rest = outlines;
    let mut out: Vec<(Outline, u32)> = Vec::new();
    let mut i: usize = 0;
    proof {
        assert(orig.skip(0) =~= orig);
    }
    while i < layers.len()
        invariant
            layers@.len() == orig.len(),
            i <= layers@.len(),
            rest@ == orig.skip(i as int),
            out@.len() == i,
            forall|j: int|
                0 <= j < i ==> out@[j].0 == orig[j] && out@[j].1 == spec_pack_rgba(
                    layers@[j].r,
                    layers@[j].g,
                    layers@[j].b,
                    layers@[j].a,
                ),
        decreases layers@.len() - i,
    {
        let o = rest.remove(0);
        let lay = layers[i];
        proof {
            assert(orig.skip(i as int)[0] == orig[i as int]);
            assert(orig.skip(i as int).remove(0) =~= orig.skip(i as int + 1));
        }
        out.push((o, pack_rgba(lay.r, lay.g, lay.b, lay.a)));
        proof {
            assert forall|j: int|
                0 <= j < i as int + 1 implies out@[j].0 == orig[j] && out@[j].1 == spec_pack_rgba(
                layers@[j].r,
                layers@[j].g,
                layers@[j].b,
                layers@[j].a,
            ) by {
                if j < i as int {
                    assert(out@[j] == out@.subrange(0, i as int)[j]);
                }
                assert(out@[i as int].0 == orig[i as int]);
            }
        }
        i = i + 1;
    }
    out
}

/// Resolves a layer stack whose outlines may be missing.
///
/// The caller supplies, per layer, the outline extracted for that layer's
/// glyph id, or `None` where extraction found none. A missing outline means
/// the font's layer table is self-inconsistent; the policy here is to fail
/// the whole resolution (`None`) rather than skip the layer. On success the
/// result is exactly [`compose_color_outlines`] of the present outlines:
/// one `(outline, packed RGBA)` pair per layer, in layer order.
pub fn resolve_color_outlines(layers: &Vec<ColorLayer>, outlines: Vec<Option<Outline>>) -> (r:
    Option<Vec<(Outline, u32)>>)
    requires
        layers@.len() == outlines@.len(),
    ensures
        (r is Some) <==> (forall|i: int| 0 <= i < outlines@.len() ==> outlines@[i] is Some),
        r matches Some(v) ==> v@.len() == layers@.len(),
        r matches Some(v) ==> forall|i: int|
            0 <= i < v@.len() ==> v@[i].0 == outlines@[i]->Some_0 && v@[i].1 == spec_pack_rgba(
                layers@[i].r,
                layers@[i].g,
                layers@[i].b,
                layers@[i].a,
            ),
{
    let ghost orig = outlines@;
    let mut rest = outlines;
    let mut present: Vec<Outline> = Vec::new();
    let mut i: usize = 0;
    proof {
        assert(orig.skip(0) =~= orig);
    }
    while i < layers.len()
        invariant
            orig == outlines@,
            layers@.len() == orig.len(),
            i <= layers@.len(),
            rest@ == orig.skip(i as int),
            present@.len() == i,
            forall|j: int| 0 <= j < i ==> orig[j] is Some,
            forall|j: int| 0 <= j < i ==> present@[j] == orig[j]->Some_0,
        decreases layers@.len() - i,
    {
        proof {
            assert(orig.skip(i as int)[0] == orig[i as int]);
            assert(orig.skip(i as int).remove(0) =~= orig.skip(i as int + 1));
        }
        let elem = rest.remove(0);
        let ghost gelem = elem;
        proof {
            assert(gelem == orig[i as int]);
        }
        match elem {
            Some(o) => present.push(o),
            None => {
                proof {
                    assert(orig[i as int] is None);
                }
                return None;
            },
        }
        proof {
            assert(orig[i as int] is Some);
            assert(present@[i as int] == gelem->Some_0);
            assert forall|j: int| 0 <= j < i as int + 1 implies orig[j] is Some by {
                if j < i as int {
                    assert(orig[j] is Some);
                }
            }
            assert forall|j: int| 0 <= j < i as int + 1 implies present@[j] == orig[j]->Some_0 by {
                if j < i as int {
                    assert(present@[j] == orig[j]->Some_0);
                }
            }
        }
        i = i + 1;
    }
    let ghost gpresent = present@;
    let pairs = compose_color_outlines(layers, present);
    proof {
        assert forall|k: int|
            0 <= k < pairs@.len() implies pairs@[k].0 == orig[k]->Some_0 && pairs@[k].1
            == spec_pack_rgba(layers@[k].r, layers@[k].g, layers@[k].b, layers@[k].a) by {
            assert(pairs@[k].0 == gpresent[k]);
            assert(gpresent[k] == orig[k]->Some_0);
        }
    }
    Some(pairs)
}

} // verus!
