use std::sync::atomic::{AtomicUsize, Ordering};

use geo::ConvexHull;
use geo_types::{LineString, Polygon};

use geotraverse::convert::{narrow, widen, TypedShape};
use geotraverse::shape::{Coord, Document, Feature, Shape, ShapeKind};
use geotraverse::transform::transform;
use geotraverse::FanOut;

fn c(x: f64, y: f64) -> Coord {
    Coord { x: x.to_bits(), y: y.to_bits() }
}

fn outer_polygon() -> Shape {
    Shape::Polygon(vec![
        vec![c(-5.0, -5.0), c(5.0, -5.0), c(0.0, 5.0), c(-5.0, -5.0)],
        vec![c(-4.0, -4.0), c(4.0, -4.0), c(0.0, 4.0), c(-4.0, -4.0)],
    ])
}

fn nested_polygon() -> Shape {
    Shape::Polygon(vec![
        vec![c(-5.5, -5.5), c(5.0, -5.0), c(0.0, 5.0), c(-5.0, -5.0)],
        vec![c(-4.0, -4.0), c(4.0, -4.0), c(0.0, 4.0), c(-4.5, -4.5)],
    ])
}

fn sample_collection() -> Shape {
    Shape::GeometryCollection(vec![
        Shape::Point(c(0.0, 1.0)),
        Shape::MultiPoint(vec![c(-1.0, 0.0), c(1.0, 0.0)]),
        Shape::LineString(vec![c(-1.0, -1.0), c(1.0, -1.0)]),
        Shape::MultiLineString(vec![
            vec![c(-2.0, -2.0), c(2.0, -2.0)],
            vec![c(-3.0, -3.0), c(3.0, -3.0)],
        ]),
        outer_polygon(),
        Shape::MultiPolygon(vec![
            vec![vec![c(-7.0, -7.0), c(7.0, -7.0), c(0.0, 7.0), c(-7.0, -7.0)]],
            vec![vec![c(-9.0, -9.0), c(9.0, -9.0), c(0.0, 9.0), c(-9.0, -9.0)]],
        ]),
        Shape::GeometryCollection(vec![nested_polygon()]),
    ])
}

fn ring_to_geo(ring: &[Coord]) -> LineString<f64> {
    LineString::from(
        ring.iter()
            .map(|p| (f64::from_bits(p.x), f64::from_bits(p.y)))
            .collect::<Vec<(f64, f64)>>(),
    )
}

fn geo_to_ring(ls: &LineString<f64>) -> Vec<Coord> {
    ls.coords().map(|p| Coord { x: p.x.to_bits(), y: p.y.to_bits() }).collect()
}

/// The convex-hull capability: replaces a typed polygon's rings by the
/// single exterior ring of its convex hull; leaves any other typed shape
/// as it was.
fn hull(t: TypedShape) -> TypedShape {
    match t {
        TypedShape::Polygon(rings) => {
            let exterior = match rings.first() {
                Some(r) => ring_to_geo(r),
                None => LineString::new(Vec::new()),
            };
            let interiors: Vec<LineString<f64>> =
                rings.iter().skip(1).map(|r| ring_to_geo(r)).collect();
            let hulled = Polygon::new(exterior, interiors).convex_hull();
            let mut out = vec![geo_to_ring(hulled.exterior())];
            for ring in hulled.interiors() {
                out.push(geo_to_ring(ring));
            }
            TypedShape::Polygon(out)
        }
        other => other,
    }
}

fn hulled_shape(original: Shape) -> Shape {
    widen(hull(narrow(original, ShapeKind::Polygon).unwrap()))
}

#[test]
fn transform_replaces_only_polygons() {
    let mut doc = Document::Geometry(sample_collection());
    transform(&mut doc, ShapeKind::Polygon, &hull, FanOut::Sequential);

    let children = match doc {
        Document::Geometry(Shape::GeometryCollection(cs)) => cs,
        other => panic!("document wrapper changed: {:?}", other),
    };
    assert_eq!(children.len(), 7);

    // Every non-polygon node is bit-for-bit unchanged.
    assert_eq!(children[0], Shape::Point(c(0.0, 1.0)));
    assert_eq!(children[1], Shape::MultiPoint(vec![c(-1.0, 0.0), c(1.0, 0.0)]));
    assert_eq!(children[2], Shape::LineString(vec![c(-1.0, -1.0), c(1.0, -1.0)]));
    assert_eq!(
        children[3],
        Shape::MultiLineString(vec![
            vec![c(-2.0, -2.0), c(2.0, -2.0)],
            vec![c(-3.0, -3.0), c(3.0, -3.0)],
        ])
    );
    assert_eq!(
        children[5],
        Shape::MultiPolygon(vec![
            vec![vec![c(-7.0, -7.0), c(7.0, -7.0), c(0.0, 7.0), c(-7.0, -7.0)]],
            vec![vec![c(-9.0, -9.0), c(9.0, -9.0), c(0.0, 9.0), c(-9.0, -9.0)]],
        ])
    );

    // Both polygons, the top-level one and the one inside the nested
    // collection, hold exactly the hull of their original data.
    let expected_outer = hulled_shape(outer_polygon());
    let expected_nested = hulled_shape(nested_polygon());
    assert_ne!(expected_outer, outer_polygon());
    assert_eq!(children[4], expected_outer);
    assert_eq!(
        children[6],
        Shape::GeometryCollection(vec![expected_nested])
    );

    // The hull dropped the interior ring: a single ring remains.
    match &children[4] {
        Shape::Polygon(rings) => assert_eq!(rings.len(), 1),
        other => panic!("polygon kind changed: {:?}", other),
    }
}

#[test]
fn parallel_transform_matches_sequential() {
    let mut sequential = Document::Geometry(sample_collection());
    transform(&mut sequential, ShapeKind::Polygon, &hull, FanOut::Sequential);

    let mut parallel = Document::Geometry(sample_collection());
    transform(&mut parallel, ShapeKind::Polygon, &hull, FanOut::Parallel);

    assert_eq!(sequential, parallel);
    assert_ne!(parallel, Document::Geometry(sample_collection()));
}

#[test]
fn transform_feature_collection_in_parallel() {
    let mut doc = Document::FeatureCollection(vec![
        Feature { geometry: Some(outer_polygon()), properties: Some(String::from("a")) },
        Feature { geometry: None, properties: Some(String::from("b")) },
        Feature { geometry: Some(Shape::Point(c(9.0, 9.0))), properties: None },
    ]);
    transform(&mut doc, ShapeKind::Polygon, &hull, FanOut::Parallel);

    let out = match doc {
        Document::FeatureCollection(fs) => fs,
        other => panic!("document wrapper changed: {:?}", other),
    };
    assert_eq!(out.len(), 3);
    assert_eq!(out[0].geometry, Some(hulled_shape(outer_polygon())));
    assert_eq!(out[0].properties, Some(String::from("a")));
    assert_eq!(out[1], Feature { geometry: None, properties: Some(String::from("b")) });
    assert_eq!(
        out[2],
        Feature { geometry: Some(Shape::Point(c(9.0, 9.0))), properties: None }
    );
}

#[test]
fn absent_geometry_invokes_compute_zero_times() {
    let count = AtomicUsize::new(0);
    let counting = |t: TypedShape| -> TypedShape {
        count.fetch_add(1, Ordering::SeqCst);
        t
    };
    let mut doc = Document::FeatureCollection(vec![
        Feature { geometry: None, properties: Some(String::from("no shape here")) },
        Feature { geometry: None, properties: None },
    ]);
    transform(&mut doc, ShapeKind::Point, &counting, FanOut::Sequential);
    assert_eq!(count.load(Ordering::SeqCst), 0);
    assert_eq!(
        doc,
        Document::FeatureCollection(vec![
            Feature { geometry: None, properties: Some(String::from("no shape here")) },
            Feature { geometry: None, properties: None },
        ])
    );
}

#[test]
fn compute_runs_once_per_matching_node() {
    let count = AtomicUsize::new(0);
    let counting = |t: TypedShape| -> TypedShape {
        count.fetch_add(1, Ordering::SeqCst);
        t
    };
    let mut doc = Document::Geometry(sample_collection());
    transform(&mut doc, ShapeKind::Polygon, &counting, FanOut::Sequential);
    assert_eq!(count.load(Ordering::SeqCst), 2);
    // An identity capability leaves the document unchanged.
    assert_eq!(doc, Document::Geometry(sample_collection()));
}

#[test]
fn collections_are_never_replaced_themselves() {
    // The documented tie-break: a collection node always recurses into
    // its children and is never handed to the capability, even when the
    // target kind is the collection kind itself.
    let count = AtomicUsize::new(0);
    let counting = |t: TypedShape| -> TypedShape {
        count.fetch_add(1, Ordering::SeqCst);
        t
    };
    let mut doc = Document::Geometry(sample_collection());
    transform(&mut doc, ShapeKind::GeometryCollection, &counting, FanOut::Sequential);
    assert_eq!(count.load(Ordering::SeqCst), 0);
    assert_eq!(doc, Document::Geometry(sample_collection()));
}
