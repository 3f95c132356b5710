//! The typeset document that lowering reads: frames of positioned items.

use std::sync::Arc;
use vstd::prelude::*;
use crate::color::Color;
use crate::font::Font;
use crate::geom::{Point, Size, Transform};
use crate::ir::{Image, LineCap, LineJoin};
use crate::scalar::Scalar;
use crate::span::SourceSpan;

verus! {

/// The direction in which a text run is set.
#[derive(Clone, Copy, Debug, PartialEq, Eq, Structural)]
pub enum Dir {
    LTR,
    RTL,
    TTB,
    BTT,
}

/// How an area is filled.
#[derive(Clone, Copy, Debug, PartialEq, Eq, Structural)]
pub enum Paint {
    Solid(Color),
}

/// A glyph of a text run. Offset and advance are in ems.
#[derive(Clone, Copy, Debug, PartialEq, Eq, Structural)]
pub struct Glyph {
    pub id: u16,
    pub x_advance: Scalar,
    pub x_offset: Scalar,
    pub span: SourceSpan,
}

/// A run of shaped text.
#[derive(Clone, Debug, PartialEq, Eq)]
pub struct TextItem {
    pub font: Font,
    pub size: Scalar,
    pub fill: Paint,
    pub dir: Dir,
    pub text: String,
    pub glyphs: Vec<Glyph>,
}

/// The lengths of the dashes and gaps of a stroke, and where in the pattern
/// the stroke starts.
#[derive(Clone, Debug, PartialEq, Eq)]
pub struct DashPattern {
    pub array: Vec<Scalar>,
    pub phase: Scalar,
}

/// How an outline is stroked.
#[derive(Clone, Debug, PartialEq, Eq)]
pub struct FixedStroke {
    pub paint: Paint,
    pub thickness: Scalar,
    pub line_cap: LineCap,
    pub line_join: LineJoin,
    pub dash_pattern: Option<DashPattern>,
    pub miter_limit: Scalar,
}

/// One segment of a path.
#[derive(Clone, Copy, Debug, PartialEq, Eq, Structural)]
pub enum PathItem {
    MoveTo(Point),
    LineTo(Point),
    CubicTo(Point, Point, Point),
    ClosePath,
}

/// The outline of a shape, from the shape's own origin.
#[derive(Clone, Debug, PartialEq, Eq)]
pub enum Geometry {
    /// A line from the origin to a point.
    Line(Point),
    /// A rectangle from the origin, of a size.
    Rect(Size),
    /// A path of segments.
    Path(Vec<PathItem>),
}

/// A geometric shape with how it is filled and stroked.
#[derive(Clone, Debug, PartialEq, Eq)]
pub struct Shape {
    pub geometry: Geometry,
    pub fill: Option<Paint>,
    pub stroke: Option<FixedStroke>,
}

/// A point on a page. Pages count from one.
#[derive(Clone, Copy, Debug, PartialEq, Eq, Structural)]
pub struct Position {
    pub page: usize,
    pub point: Point,
}

/// What identifies an element of the document.
#[derive(Clone, Copy, Debug, PartialEq, Eq, Structural)]
pub struct Location {
    pub id: u128,
}

/// Where a link leads.
#[derive(Clone, Debug, PartialEq, Eq)]
pub enum Destination {
    Url(String),
    Position(Position),
    Location(Location),
}

/// What a frame holds besides what is drawn. Only a link is visual.
#[derive(Clone, Debug, PartialEq, Eq)]
pub enum Meta {
    Link(Destination),
    Elem(Location),
    PageNumbering,
    PdfPageLabel,
    Hide,
}

/// One item of a frame.
#[derive(Debug, PartialEq, Eq)]
pub enum FrameItem {
    Group(GroupItem),
    Text(TextItem),
    Shape(Shape, SourceSpan),
    Image(Arc<Image>, Size, SourceSpan),
    Meta(Meta, Size),
}

/// A nested frame under a transform, clipped to its size where `clips` holds.
#[derive(Debug, PartialEq, Eq)]
pub struct GroupItem {
    pub frame: Frame,
    pub transform: Transform,
    pub clips: bool,
}

/// A layer of positioned items, in the order in which they are painted.
#[derive(Debug, PartialEq, Eq)]
pub struct Frame {
    pub size: Size,
    pub items: Vec<(Point, FrameItem)>,
}

/// The positions of the elements of a document.
#[derive(Clone, Debug, PartialEq, Eq)]
pub struct Introspector {
    pub positions: Vec<(Location, Position)>,
}

/// A typeset document: one frame for each page, and the positions of its elements.
#[derive(Debug, PartialEq, Eq)]
pub struct Document {
    pub pages: Vec<Frame>,
    pub introspector: Introspector,
}

/// The position that stands for an element that the document does not hold:
/// the origin of the first page.
pub open spec fn fallback_position() -> Position {
    Position { page: 1, point: Point { x: Scalar { micros: 0 }, y: Scalar { micros: 0 } } }
}

/// The position of the first entry of `positions` for `location`, and the
/// fallback position where there is none.
pub open spec fn position_of(positions: Seq<(Location, Position)>, location: Location) -> Position
    decreases positions.len(),
{
    if positions.len() == 0 {
        fallback_position()
    } else if positions[0].0 == location {
        positions[0].1
    } else {
        position_of(positions.skip(1), location)
    }
}

impl Introspector {
    /// The position at which the element with the given location stands.
    pub fn position(&self, location: Location) -> (r: Position)
        ensures
            r == position_of(self.positions@, location),
    {
        let mut i: usize = 0;
        proof {
            assert(self.positions@.skip(0) =~= self.positions@);
        }
        while i < self.positions.len()
            invariant
                i <= self.positions.len(),
                position_of(self.positions@, location) == position_of(
                    self.positions@.skip(i as int),
                    location,
                ),
            decreases self.positions.len() - i,
        {
            let entry = self.positions[i];
            if entry.0.id == location.id {
                return entry.1;
            }
            proof {
                assert(self.positions@.skip(i as int).skip(1) =~= self.positions@.skip(i + 1));
            }
            i += 1;
        }
        Position { page: 1, point: Point::zero() }
    }
}

} // verus!
