//! The shape conversion layer: narrowing a generic shape to a typed view of
//! its kind, and widening a typed view back into a generic shape.
//!
//! `narrow` succeeds exactly when the shape's tag matches the requested
//! kind; `widen` is total and produces a shape whose tag matches the typed
//! view's kind and whose data round-trips losslessly.

use vstd::prelude::*;

use crate::shape::{Coord, Shape, ShapeKind};

verus! {

/// A kind-specific view of a shape's payload.  Geometric capabilities are
/// applied to typed views, never to raw shapes, so that each capability
/// receives exactly the payload layout of the kind it was written for.
#[derive(PartialEq, Debug)]
pub enum TypedShape {
    Point(Coord),
    MultiPoint(Vec<Coord>),
    LineString(Vec<Coord>),
    MultiLineString(Vec<Vec<Coord>>),
    /// Ordered rings, outer ring first.
    Polygon(Vec<Vec<Coord>>),
    /// One ring list per member polygon.
    MultiPolygon(Vec<Vec<Vec<Coord>>>),
    GeometryCollection(Vec<Shape>),
}

/// The failure of a narrowing request.
#[derive(PartialEq, Eq, Structural, Debug, Clone, Copy)]
pub enum ConversionError {
    /// The shape's tag did not match the requested kind.
    KindMismatch { expected: ShapeKind, found: ShapeKind },
}

impl TypedShape {
    /// The kind this typed view belongs to.
    pub open spec fn spec_kind(&self) -> ShapeKind {
        match self {
            TypedShape::Point(_) => ShapeKind::Point,
            TypedShape::MultiPoint(_) => ShapeKind::MultiPoint,
            TypedShape::LineString(_) => ShapeKind::LineString,
            TypedShape::MultiLineString(_) => ShapeKind::MultiLineString,
            TypedShape::Polygon(_) => ShapeKind::Polygon,
            TypedShape::MultiPolygon(_) => ShapeKind::MultiPolygon,
            TypedShape::GeometryCollection(_) => ShapeKind::GeometryCollection,
        }
    }

    /// Returns the kind this typed view belongs to.
    #[verifier::when_used_as_spec(spec_kind)]
    pub fn kind(&self) -> (k: ShapeKind)
        ensures
            k == self.spec_kind(),
    {
        match self {
            TypedShape::Point(_) => ShapeKind::Point,
            TypedShape::MultiPoint(_) => ShapeKind::MultiPoint,
            TypedShape::LineString(_) => ShapeKind::LineString,
            TypedShape::MultiLineString(_) => ShapeKind::MultiLineString,
            TypedShape::Polygon(_) => ShapeKind::Polygon,
            TypedShape::MultiPolygon(_) => ShapeKind::MultiPolygon,
            TypedShape::GeometryCollection(_) => ShapeKind::GeometryCollection,
        }
    }
}

/// The typed view of a shape: the same payload under the kind-specific
/// constructor.
pub open spec fn typed_of(s: Shape) -> TypedShape {
    match s {
        Shape::Point(c) => TypedShape::Point(c),
        Shape::MultiPoint(cs) => TypedShape::MultiPoint(cs),
        Shape::LineString(cs) => TypedShape::LineString(cs),
        Shape::MultiLineString(ls) => TypedShape::MultiLineString(ls),
        Shape::Polygon(rs) => TypedShape::Polygon(rs),
        Shape::MultiPolygon(ps) => TypedShape::MultiPolygon(ps),
        Shape::GeometryCollection(gs) => TypedShape::GeometryCollection(gs),
    }
}

/// The generic shape a typed view widens to.
pub open spec fn shape_of(t: TypedShape) -> Shape {
    match t {
        TypedShape::Point(c) => Shape::Point(c),
        TypedShape::MultiPoint(cs) => Shape::MultiPoint(cs),
        TypedShape::LineString(cs) => Shape::LineString(cs),
        TypedShape::MultiLineString(ls) => Shape::MultiLineString(ls),
        TypedShape::Polygon(rs) => Shape::Polygon(rs),
        TypedShape::MultiPolygon(ps) => Shape::MultiPolygon(ps),
        TypedShape::GeometryCollection(gs) => Shape::GeometryCollection(gs),
    }
}

/// Narrows a shape to the typed view of `target`.  Succeeds if and only if
/// the shape's tag equals `target`; otherwise reports the mismatch.
pub fn narrow(v: Shape, target: ShapeKind) -> (r: Result<TypedShape, ConversionError>)
    ensures
        v.spec_kind() == target ==> r == Ok::<TypedShape, ConversionError>(typed_of(v)),
        v.spec_kind() != target ==> r == Err::<TypedShape, ConversionError>(
            ConversionError::KindMismatch { expected: target, found: v.spec_kind() },
        ),
{
    let found = v.kind();
    if found == target {
        Ok(
            match v {
                Shape::Point(c) => TypedShape::Point(c),
                Shape::MultiPoint(cs) => TypedShape::MultiPoint(cs),
                Shape::LineString(cs) => TypedShape::LineString(cs),
                Shape::MultiLineString(ls) => TypedShape::MultiLineString(ls),
                Shape::Polygon(rs) => TypedShape::Polygon(rs),
                Shape::MultiPolygon(ps) => TypedShape::MultiPolygon(ps),
                Shape::GeometryCollection(gs) => TypedShape::GeometryCollection(gs),
            },
        )
    } else {
        Err(ConversionError::KindMismatch { expected: target, found })
    }
}

/// Widens a typed view back into a generic shape.  Total: always succeeds,
/// and the result's tag is the typed view's kind.
pub fn widen(t: TypedShape) -> (r: Shape)
    ensures
        r == shape_of(t),
        r.spec_kind() == t.spec_kind(),
{
    match t {
        TypedShape::Point(c) => Shape::Point(c),
        TypedShape::MultiPoint(cs) => Shape::MultiPoint(cs),
        TypedShape::LineString(cs) => Shape::LineString(cs),
        TypedShape::MultiLineString(ls) => Shape::MultiLineString(ls),
        TypedShape::Polygon(rs) => Shape::Polygon(rs),
        TypedShape::MultiPolygon(ps) => Shape::MultiPolygon(ps),
        TypedShape::GeometryCollection(gs) => Shape::GeometryCollection(gs),
    }
}

/// Round-trip law: narrowing a shape to its own kind and widening the typed
/// view yields the original shape, coordinates and ordering untouched.
pub proof fn lemma_widen_narrow_round_trip(v: Shape, target: ShapeKind)
    requires
        v.spec_kind() == target,
    ensures
        shape_of(typed_of(v)) == v,
{
}

/// Round-trip law, the other direction: the typed view of a widened shape
/// is the typed value that was widened.
pub proof fn lemma_narrow_widen_round_trip(t: TypedShape)
    ensures
        typed_of(shape_of(t)) == t,
{
}

/// The typed view keeps the tag: narrowing never changes the kind.
pub proof fn lemma_typed_view_keeps_kind(v: Shape)
    ensures
        typed_of(v).spec_kind() == v.spec_kind(),
{
}

} // verus!
