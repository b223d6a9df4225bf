//! Canonical glyph geometry: points, curves, bounding boxes, and the
//! accumulator that turns the decoder's path-construction callbacks into an
//! ordered curve sequence.

use vstd::prelude::*;

verus! {

/// A 2-D outline coordinate.
///
/// Each coordinate is carried as the raw 32-bit word in which the decoding
/// backend reports it (the bit pattern of its binary32 coordinate). This
/// layer stores and groups coordinates exactly as given; it never interprets
/// them arithmetically, and no scaling or per-point transform is applied.
#[derive(Clone, Copy, Debug, PartialEq, Eq, Structural)]
pub struct Point {
    pub x: u32,
    pub y: u32,
}

/// A bounding-box corner, in whole font design units.
#[derive(Clone, Copy, Debug, PartialEq, Eq, Structural)]
pub struct Corner {
    pub x: i16,
    pub y: i16,
}

/// An axis-aligned glyph bounding box.
///
/// `min` and `max` are derived from the decoder-reported glyph bounds with a
/// vertical-axis flip: `min` carries `y_max` and `max` carries `y_min`. This
/// orientation is a deliberate convention that downstream consumers rely on.
#[derive(Clone, Copy, Debug, PartialEq, Eq, Structural)]
pub struct Rect {
    pub min: Corner,
    pub max: Corner,
}

/// One contiguous path segment of a glyph contour.
#[derive(Clone, Copy, Debug, PartialEq, Eq, Structural)]
pub enum Curve {
    /// A straight segment from start to end.
    Line(Point, Point),
    /// A quadratic segment: start, control, end.
    Quadratic(Point, Point, Point),
    /// A cubic segment: start, first control, second control, end.
    Cubic(Point, Point, Point, Point),
}

/// The vector geometry of one glyph: its bounding box and its curve
/// segments, in the order the decoder emitted them.
///
/// An empty curve sequence is valid: it describes a glyph with no visible
/// outline, such as a space.
#[derive(Clone, Debug, PartialEq)]
pub struct Outline {
    pub bounds: Rect,
    pub curves: Vec<Curve>,
}

impl Outline {
    /// Packages decoder-reported bounds and an accumulated curve sequence
    /// into an [`Outline`], applying the vertical-axis flip convention:
    /// `min = (x_min, y_max)` and `max = (x_max, y_min)`.
    pub fn assemble(x_min: i16, y_min: i16, x_max: i16, y_max: i16, curves: Vec<Curve>) -> (o: Outline)
        ensures
            o.bounds.min == (Corner { x: x_min, y: y_max }),
            o.bounds.max == (Corner { x: x_max, y: y_min }),
            o.curves@ == curves@,
    {
        Outline {
            bounds: Rect {
                min: Corner { x: x_min, y: y_max },
                max: Corner { x: x_max, y: y_min },
            },
            curves,
        }
    }
}

/// Accumulates one glyph's path-construction callbacks (move, line,
/// quadratic, cubic, close) into an ordered curve sequence.
///
/// The decoder drives these operations in sequence; the accumulated curves
/// are then drained exactly once with [`CurveBuilder::take_outline`]. A fresh
/// builder is expected per glyph, so no state leaks across glyphs. Malformed
/// call orders (such as a line before any move) are not validated here: call
/// ordering is the decoder's responsibility, and this type is purely an
/// accumulator.
pub struct CurveBuilder {
    last: Point,
    curves: Vec<Curve>,
}

impl CurveBuilder {
    /// The curve segments accumulated so far, in emission order.
    pub closed spec fn segments(&self) -> Seq<Curve> {
        self.curves@
    }

    /// The current point: the target of the last move, line, quadratic or
    /// cubic operation, or the origin for a fresh builder.
    pub closed spec fn current(&self) -> Point {
        self.last
    }

    /// A fresh builder with no segments and the current point at the origin.
    pub fn new() -> (b: CurveBuilder)
        ensures
            b.segments() == Seq::<Curve>::empty(),
            b.current() == (Point { x: 0, y: 0 }),
    {
        let curves: Vec<Curve> = Vec::new();
        proof {
            assert(curves@ =~= Seq::<Curve>::empty());
        }
        CurveBuilder { last: Point { x: 0, y: 0 }, curves }
    }

    /// Resets the current point without emitting a segment.
    pub fn move_to(&mut self, x: u32, y: u32)
        ensures
            final(self).current() == (Point { x, y }),
            final(self).segments() == old(self).segments(),
    {
        self.last = Point { x, y };
    }

    /// Emits a line from the current point and advances it.
    pub fn line_to(&mut self, x: u32, y: u32)
        ensures
            final(self).current() == (Point { x, y }),
            final(self).segments() == old(self).segments().push(
                Curve::Line(old(self).current(), Point { x, y }),
            ),
    {
        let p = Point { x, y };
        self.curves.push(Curve::Line(self.last, p));
        self.last = p;
    }

    /// Emits a quadratic curve from the current point through one control
    /// point and advances the current point.
    pub fn quad_to(&mut self, x1: u32, y1: u32, x: u32, y: u32)
        ensures
            final(self).current() == (Point { x, y }),
            final(self).segments() == old(self).segments().push(
                Curve::Quadratic(old(self).current(), Point { x: x1, y: y1 }, Point { x, y }),
            ),
    {
        let p = Point { x, y };
        self.curves.push(Curve::Quadratic(self.last, Point { x: x1, y: y1 }, p));
        self.last = p;
    }

    /// Emits a cubic curve from the current point through two control points
    /// and advances the current point.
    pub fn cubic_to(&mut self, x1: u32, y1: u32, x2: u32, y2: u32, x: u32, y: u32)
        ensures
            final(self).current() == (Point { x, y }),
            final(self).segments() == old(self).segments().push(
                Curve::Cubic(
                    old(self).current(),
                    Point { x: x1, y: y1 },
                    Point { x: x2, y: y2 },
                    Point { x, y },
                ),
            ),
    {
        let p = Point { x, y };
        self.curves.push(Curve::Cubic(
            self.last,
            Point { x: x1, y: y1 },
            Point { x: x2, y: y2 },
            p,
        ));
        self.last = p;
    }

    /// Signals the end of the current contour. No segment is emitted: the
    /// builder does not synthesise a closing line, so contour closure is
    /// whatever the decoder emitted explicitly.
    pub fn close(&mut self)
        ensures
            final(self).segments() == old(self).segments(),
            final(self).current() == old(self).current(),
    {
    }

    /// Drains the builder, returning the accumulated segments in emission
    /// order. Consumes the builder, so it is callable exactly once.
    pub fn take_outline(self) -> (r: Vec<Curve>)
        ensures
            r@ == self.segments(),
    {
        self.curves
    }
}

} // verus!
