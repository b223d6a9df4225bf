use glyph::{
    fold_paint_event, pack_rgba, ColorLayer, Corner, Curve, CurveBuilder, GlyphId, Outline,
    PaintEvent, Point, Rect,
};

fn p(x: f32, y: f32) -> Point {
    Point {
        x: x.to_bits(),
        y: y.to_bits(),
    }
}

#[test]
fn builder_starts_empty() {
    let b = CurveBuilder::new();
    assert_eq!(b.take_outline(), vec![]);
}

#[test]
fn builder_move_emits_no_segment() {
    let mut b = CurveBuilder::new();
    b.move_to(1.0f32.to_bits(), 2.0f32.to_bits());
    b.move_to(5.0f32.to_bits(), 6.0f32.to_bits());
    assert_eq!(b.take_outline(), vec![]);
}

#[test]
fn builder_line_starts_at_current_point() {
    let mut b = CurveBuilder::new();
    b.move_to(1.0f32.to_bits(), 2.0f32.to_bits());
    b.line_to(3.0f32.to_bits(), 4.0f32.to_bits());
    b.line_to(5.0f32.to_bits(), 6.0f32.to_bits());
    assert_eq!(
        b.take_outline(),
        vec![
            Curve::Line(p(1.0, 2.0), p(3.0, 4.0)),
            Curve::Line(p(3.0, 4.0), p(5.0, 6.0)),
        ]
    );
}

#[test]
fn builder_quad_and_cubic_carry_controls() {
    let mut b = CurveBuilder::new();
    b.move_to(0.0f32.to_bits(), 0.0f32.to_bits());
    b.quad_to(
        1.0f32.to_bits(),
        1.0f32.to_bits(),
        2.0f32.to_bits(),
        0.0f32.to_bits(),
    );
    b.cubic_to(
        3.0f32.to_bits(),
        1.0f32.to_bits(),
        4.0f32.to_bits(),
        1.0f32.to_bits(),
        5.0f32.to_bits(),
        0.0f32.to_bits(),
    );
    assert_eq!(
        b.take_outline(),
        vec![
            Curve::Quadratic(p(0.0, 0.0), p(1.0, 1.0), p(2.0, 0.0)),
            Curve::Cubic(p(2.0, 0.0), p(3.0, 1.0), p(4.0, 1.0), p(5.0, 0.0)),
        ]
    );
}

#[test]
fn builder_close_emits_nothing() {
    let mut b = CurveBuilder::new();
    b.move_to(1.0f32.to_bits(), 2.0f32.to_bits());
    b.line_to(3.0f32.to_bits(), 4.0f32.to_bits());
    b.close();
    assert_eq!(
        b.take_outline(),
        vec![Curve::Line(p(1.0, 2.0), p(3.0, 4.0))]
    );
}

#[test]
fn assemble_flips_vertical_axis() {
    let o = Outline::assemble(10, -20, 110, 90, vec![]);
    assert_eq!(
        o.bounds,
        Rect {
            min: Corner { x: 10, y: 90 },
            max: Corner { x: 110, y: -20 },
        }
    );
    assert!(o.curves.is_empty());
}

#[test]
fn pack_rgba_is_big_endian() {
    assert_eq!(pack_rgba(255, 0, 0, 255), 0xFF0000FF);
    assert_eq!(pack_rgba(0, 255, 0, 255), 0x00FF00FF);
    assert_eq!(pack_rgba(0x12, 0x34, 0x56, 0x78), 0x12345678);
    assert_eq!(pack_rgba(0, 0, 0, 0), 0);
}

#[test]
fn compose_keeps_layer_order_and_count() {
    let layers = vec![
        ColorLayer {
            id: GlyphId(7),
            r: 255,
            g: 0,
            b: 0,
            a: 255,
        },
        ColorLayer {
            id: GlyphId(8),
            r: 0,
            g: 255,
            b: 0,
            a: 255,
        },
    ];
    let o1 = Outline::assemble(0, 0, 1, 1, vec![]);
    let o2 = Outline::assemble(2, 2, 3, 3, vec![]);
    let pairs = glyph::color::compose_color_outlines(&layers, vec![o1.clone(), o2.clone()]);
    assert_eq!(pairs.len(), 2);
    assert_eq!(pairs[0], (o1, 0xFF0000FF));
    assert_eq!(pairs[1], (o2, 0x00FF00FF));
}

#[test]
fn compose_of_nothing_is_empty() {
    let pairs = glyph::color::compose_color_outlines(&vec![], vec![]);
    assert!(pairs.is_empty());
}

#[test]
fn fold_tracks_pending_glyph_and_appends_on_solid_fill() {
    let mut layers = Vec::new();
    let pending = fold_paint_event(None, &mut layers, PaintEvent::OutlineGlyph(7));
    assert_eq!(pending, Some(7));
    assert!(layers.is_empty());
    let pending = fold_paint_event(pending, &mut layers, PaintEvent::Solid(1, 2, 3, 4));
    assert_eq!(pending, None);
    assert_eq!(
        layers,
        vec![ColorLayer {
            id: GlyphId(7),
            r: 1,
            g: 2,
            b: 3,
            a: 4,
        }]
    );
}

#[test]
fn fold_ignores_fills_without_a_pending_glyph() {
    let mut layers = Vec::new();
    assert_eq!(fold_paint_event(None, &mut layers, PaintEvent::Solid(9, 9, 9, 9)), None);
    assert!(layers.is_empty());
    // A non-solid construct clears the pending glyph and adds nothing.
    let pending = fold_paint_event(None, &mut layers, PaintEvent::OutlineGlyph(3));
    assert_eq!(fold_paint_event(pending, &mut layers, PaintEvent::Other), None);
    assert!(layers.is_empty());
}

#[test]
fn resolve_pairs_present_outlines_in_order() {
    let layers = vec![
        ColorLayer {
            id: GlyphId(7),
            r: 255,
            g: 0,
            b: 0,
            a: 255,
        },
        ColorLayer {
            id: GlyphId(8),
            r: 0,
            g: 255,
            b: 0,
            a: 255,
        },
    ];
    let o1 = Outline::assemble(0, 0, 1, 1, vec![]);
    let o2 = Outline::assemble(2, 2, 3, 3, vec![]);
    let pairs =
        glyph::resolve_color_outlines(&layers, vec![Some(o1.clone()), Some(o2.clone())]).unwrap();
    assert_eq!(pairs, vec![(o1, 0xFF0000FF), (o2, 0x00FF00FF)]);
}

#[test]
fn resolve_fails_whole_when_any_outline_is_missing() {
    let layers = vec![
        ColorLayer {
            id: GlyphId(7),
            r: 255,
            g: 0,
            b: 0,
            a: 255,
        },
        ColorLayer {
            id: GlyphId(8),
            r: 0,
            g: 255,
            b: 0,
            a: 255,
        },
    ];
    let o1 = Outline::assemble(0, 0, 1, 1, vec![]);
    assert_eq!(glyph::resolve_color_outlines(&layers, vec![Some(o1), None]), None);
}
