//! The shape model: a closed tagged union of geometric node kinds, one of
//! which is a collection that recursively contains further shapes, plus the
//! document-level wrappers that carry shapes.
//!
//! Coordinate scalars are carried as opaque 64-bit words.  The engine never
//! interprets coordinate data; callers supply whatever encoding their
//! geometric capabilities expect (for instance the bit pattern of a
//! floating-point number) and get the same words back unchanged.

use vstd::prelude::*;

verus! {

/// A single two-dimensional position.  The two words are opaque to the
/// engine and compared bit for bit.
#[derive(Clone, Copy, PartialEq, Eq, Structural, Debug)]
pub struct Coord {
    pub x: u64,
    pub y: u64,
}

/// The tag of a shape: one of the seven closed kinds.
#[derive(Clone, Copy, PartialEq, Eq, Structural, Debug)]
pub enum ShapeKind {
    Point,
    MultiPoint,
    LineString,
    MultiLineString,
    Polygon,
    MultiPolygon,
    GeometryCollection,
}

/// A geometric node.  Every kind except `GeometryCollection` carries
/// coordinate data that the traversal engines treat as opaque;
/// `GeometryCollection` carries an ordered sequence of child shapes and may
/// nest to arbitrary depth.
#[derive(PartialEq, Debug)]
pub enum Shape {
    Point(Coord),
    MultiPoint(Vec<Coord>),
    LineString(Vec<Coord>),
    MultiLineString(Vec<Vec<Coord>>),
    /// Ordered rings, outer ring first.
    Polygon(Vec<Vec<Coord>>),
    /// One ring list per member polygon.
    MultiPolygon(Vec<Vec<Vec<Coord>>>),
    GeometryCollection(Vec<Shape>),
}

/// A named feature: an optional shape plus non-geometric metadata that the
/// engines ignore.
#[derive(PartialEq, Debug)]
pub struct Feature {
    pub geometry: Option<Shape>,
    /// Opaque metadata carried through untouched.
    pub properties: Option<String>,
}

/// A top-level document: a collection of features, a single feature, or a
/// bare shape.
#[derive(PartialEq, Debug)]
pub enum Document {
    FeatureCollection(Vec<Feature>),
    Feature(Feature),
    Geometry(Shape),
}

impl Shape {
    /// The tag of this shape.
    pub open spec fn spec_kind(&self) -> ShapeKind {
        match self {
            Shape::Point(_) => ShapeKind::Point,
            Shape::MultiPoint(_) => ShapeKind::MultiPoint,
            Shape::LineString(_) => ShapeKind::LineString,
            Shape::MultiLineString(_) => ShapeKind::MultiLineString,
            Shape::Polygon(_) => ShapeKind::Polygon,
            Shape::MultiPolygon(_) => ShapeKind::MultiPolygon,
            Shape::GeometryCollection(_) => ShapeKind::GeometryCollection,
        }
    }

    /// Returns the tag of this shape.
    #[verifier::when_used_as_spec(spec_kind)]
    pub fn kind(&self) -> (k: ShapeKind)
        ensures
            k == self.spec_kind(),
    {
        match self {
            Shape::Point(_) => ShapeKind::Point,
            Shape::MultiPoint(_) => ShapeKind::MultiPoint,
            Shape::LineString(_) => ShapeKind::LineString,
            Shape::MultiLineString(_) => ShapeKind::MultiLineString,
            Shape::Polygon(_) => ShapeKind::Polygon,
            Shape::MultiPolygon(_) => ShapeKind::MultiPolygon,
            Shape::GeometryCollection(_) => ShapeKind::GeometryCollection,
        }
    }

    /// Whether this shape is a collection node.
    pub open spec fn is_collection(&self) -> bool {
        self.spec_kind() == ShapeKind::GeometryCollection
    }
}

} // verus!
