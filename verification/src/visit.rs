//! The read-only traversal engine.
//!
//! Visiting a document produces its dispatch trace: every shape encountered,
//! in dispatch order.  A collection node appears in the trace before its
//! children; every other kind is a leaf of the traversal.  Callers hand each
//! traced shape to their own handler (reporting, measuring), so handler
//! side effects follow the trace order exactly when the sequential policy is
//! chosen.

use vstd::prelude::*;

use rayon::iter::{IntoParallelRefIterator, ParallelIterator};

use crate::FanOut;
use crate::shape::{Document, Feature, Shape, ShapeKind};

verus! {

/// The dispatch trace of one shape: the shape itself, then — for a
/// collection — the traces of its children in order.
pub open spec fn shape_trace(s: Shape) -> Seq<Shape>
    decreases s,
    via shape_trace_dec
{
    match s {
        Shape::GeometryCollection(children) => seq![Shape::GeometryCollection(children)]
            + children_trace(children@),
        _ => seq![s],
    }
}

#[via_fn]
proof fn shape_trace_dec(s: Shape) {
    match s {
        Shape::GeometryCollection(children) => {
            assert(decreases_to!(s => children));
            assert(decreases_to!(children => children@));
        },
        _ => {},
    }
}

/// The concatenated traces of a sequence of sibling shapes, in order.
pub open spec fn children_trace(cs: Seq<Shape>) -> Seq<Shape>
    decreases cs,
{
    if cs.len() == 0 {
        Seq::empty()
    } else {
        shape_trace(cs[0]) + children_trace(cs.subrange(1, cs.len() as int))
    }
}

/// The trace a feature contributes: its shape's trace, or nothing when the
/// feature carries no shape.
pub open spec fn feature_trace(f: Feature) -> Seq<Shape> {
    match f.geometry {
        Some(s) => shape_trace(s),
        None => Seq::empty(),
    }
}

/// The concatenated traces of a sequence of features, in order.
pub open spec fn features_trace(fs: Seq<Feature>) -> Seq<Shape>
    decreases fs.len(),
{
    if fs.len() == 0 {
        Seq::empty()
    } else {
        feature_trace(fs[0]) + features_trace(fs.subrange(1, fs.len() as int))
    }
}

/// The dispatch trace of a whole document.
pub open spec fn document_trace(d: Document) -> Seq<Shape> {
    match d {
        Document::FeatureCollection(fs) => features_trace(fs@),
        Document::Feature(f) => feature_trace(f),
        Document::Geometry(s) => shape_trace(s),
    }
}

/// The shapes a sequence of borrowed shapes points at, in order.
pub open spec fn deref_all(s: Seq<&Shape>) -> Seq<Shape> {
    s.map_values(|x: &Shape| *x)
}

/// Relies on rayon's `par_iter`, `ParallelIterator::map` and `collect`
/// into a `Vec`, which applies the closure to every element and collects
/// the results in input order.  The closure only calls the verified
/// `visit_shape`, whose contract gives each collected trace.
#[verifier::external_body]
fn par_children_traces<'a>(children: &'a Vec<Shape>) -> (r: Vec<Vec<&'a Shape>>)
    ensures
        r@.len() == children@.len(),
        forall|i: int|
            0 <= i < children@.len() ==> deref_all(#[trigger] r@[i]@) == shape_trace(
                children@[i],
            ),
{
    children.par_iter().map(|c| visit_shape(c, FanOut::Parallel)).collect()
}

/// Relies on rayon's `par_iter`, `ParallelIterator::map` and `collect`
/// into a `Vec`, which applies the closure to every element and collects
/// the results in input order.  The closure only calls the verified
/// `visit_feature`, whose contract gives each collected trace.
#[verifier::external_body]
fn par_feature_traces<'a>(features: &'a Vec<Feature>) -> (r: Vec<Vec<&'a Shape>>)
    ensures
        r@.len() == features@.len(),
        forall|i: int|
            0 <= i < features@.len() ==> deref_all(#[trigger] r@[i]@) == feature_trace(
                features@[i],
            ),
{
    features.par_iter().map(|f| visit_feature(f, FanOut::Parallel)).collect()
}

/// Walks one shape and returns its dispatch trace as borrowed shapes.
pub fn visit_shape<'a>(s: &'a Shape, policy: FanOut) -> (r: Vec<&'a Shape>)
    ensures
        deref_all(r@) == shape_trace(*s),
    decreases *s,
{
    match s {
        Shape::GeometryCollection(children) => {
            let mut out: Vec<&'a Shape> = Vec::new();
            out.push(s);
            let ghost full = shape_trace(*s);
            proof {
                assert(deref_all(out@) =~= seq![*s]);
            }
            let n = children.len();
            proof {
                assert(children@.subrange(0, n as int) =~= children@);
            }
            match policy {
                FanOut::Sequential => {
                    let mut i: usize = 0;
                    while i < n
                        invariant
                            *s == Shape::GeometryCollection(*children),
                            n == children@.len(),
                            i <= n,
                            deref_all(out@) + children_trace(
                                children@.subrange(i as int, n as int),
                            ) =~= full,
                            full == shape_trace(*s),
                        decreases n - i,
                    {
                        let child: &'a Shape = &children[i];
                        proof {
                            assert(decreases_to!(*s => (*s)->GeometryCollection_0));
                            assert((*s)->GeometryCollection_0 == *children);
                            assert(decreases_to!(*children => children@));
                            assert(decreases_to!(children@ => children@[i as int]));
                        }
                        let mut tr = visit_shape(child, policy);
                        let ghost out_before = out@;
                        let ghost tr_view = tr@;
                        out.append(&mut tr);
                        proof {
                            assert(out@ =~= out_before + tr_view);
                            assert(deref_all(out@) =~= deref_all(out_before) + deref_all(
                                tr_view,
                            ));
                            let suffix = children@.subrange(i as int, n as int);
                            assert(suffix[0] == children@[i as int]);
                            assert(suffix.subrange(1, suffix.len() as int)
                                =~= children@.subrange(i + 1, n as int));
                            assert(children_trace(suffix) == shape_trace(children@[i as int])
                                + children_trace(children@.subrange(i + 1, n as int)));
                        }
                        i += 1;
                    }
                },
                FanOut::Parallel => {
                    let mut parts = par_children_traces(children);
                    let ghost parts0 = parts@;
                    let mut j: usize = 0;
                    while j < n
                        invariant
                            *s == Shape::GeometryCollection(*children),
                            n == children@.len(),
                            parts0.len() == n,
                            forall|k: int|
                                0 <= k < n ==> deref_all(#[trigger] parts0[k]@) == shape_trace(
                                    children@[k],
                                ),
                            j <= n,
                            parts@ =~= parts0.subrange(j as int, n as int),
                            deref_all(out@) + children_trace(
                                children@.subrange(j as int, n as int),
                            ) =~= full,
                            full == shape_trace(*s),
                        decreases n - j,
                    {
                        let mut tr = parts.remove(0);
                        proof {
                            assert(tr == parts0[j as int]);
                            assert(parts@ =~= parts0.subrange(j + 1, n as int));
                        }
                        let ghost out_before = out@;
                        let ghost tr_view = tr@;
                        out.append(&mut tr);
                        proof {
                            assert(out@ =~= out_before + tr_view);
                            assert(deref_all(out@) =~= deref_all(out_before) + deref_all(
                                tr_view,
                            ));
                            let suffix = children@.subrange(j as int, n as int);
                            assert(suffix[0] == children@[j as int]);
                            assert(suffix.subrange(1, suffix.len() as int)
                                =~= children@.subrange(j + 1, n as int));
                            assert(children_trace(suffix) == shape_trace(children@[j as int])
                                + children_trace(children@.subrange(j + 1, n as int)));
                        }
                        j += 1;
                    }
                },
            }
            proof {
                assert(children@.subrange(n as int, n as int) =~= Seq::<Shape>::empty());
                assert(deref_all(out@) =~= full);
            }
            out
        },
        _ => {
            let mut out: Vec<&'a Shape> = Vec::new();
            out.push(s);
            proof {
                assert(deref_all(out@) =~= seq![*s]);
            }
            out
        },
    }
}

/// Walks one feature: its shape's trace, or an empty trace when the feature
/// carries no shape.  A feature without a shape is skipped silently, never
/// an error.
pub fn visit_feature<'a>(f: &'a Feature, policy: FanOut) -> (r: Vec<&'a Shape>)
    ensures
        deref_all(r@) == feature_trace(*f),
{
    match &f.geometry {
        Some(s) => visit_shape(s, policy),
        None => {
            let out: Vec<&'a Shape> = Vec::new();
            proof {
                assert(deref_all(out@) =~= Seq::<Shape>::empty());
            }
            out
        },
    }
}

/// Walks a whole document and returns its dispatch trace, in document
/// order: each shape encountered, collections before their children,
/// features without a shape contributing nothing.
pub fn visit<'a>(doc: &'a Document, policy: FanOut) -> (r: Vec<&'a Shape>)
    ensures
        deref_all(r@) == document_trace(*doc),
{
    match doc {
        Document::FeatureCollection(features) => {
            let mut out: Vec<&'a Shape> = Vec::new();
            let n = features.len();
            proof {
                assert(features@.subrange(0, n as int) =~= features@);
                assert(deref_all(out@) =~= Seq::<Shape>::empty());
            }
            match policy {
                FanOut::Sequential => {
                    let mut i: usize = 0;
                    while i < n
                        invariant
                            n == features@.len(),
                            i <= n,
                            deref_all(out@) + features_trace(
                                features@.subrange(i as int, n as int),
                            ) =~= features_trace(features@),
                        decreases n - i,
                    {
                        let mut tr = visit_feature(&features[i], policy);
                        let ghost out_before = out@;
                        let ghost tr_view = tr@;
                        out.append(&mut tr);
                        proof {
                            assert(out@ =~= out_before + tr_view);
                            assert(deref_all(out@) =~= deref_all(out_before) + deref_all(
                                tr_view,
                            ));
                            let suffix = features@.subrange(i as int, n as int);
                            assert(suffix[0] == features@[i as int]);
                            assert(suffix.subrange(1, suffix.len() as int)
                                =~= features@.subrange(i + 1, n as int));
                            assert(features_trace(suffix) == feature_trace(features@[i as int])
                                + features_trace(features@.subrange(i + 1, n as int)));
                        }
                        i += 1;
                    }
                },
                FanOut::Parallel => {
                    let mut parts = par_feature_traces(features);
                    let ghost parts0 = parts@;
                    let mut j: usize = 0;
                    while j < n
                        invariant
                            n == features@.len(),
                            parts0.len() == n,
                            forall|k: int|
                                0 <= k < n ==> deref_all(#[trigger] parts0[k]@) == feature_trace(
                                    features@[k],
                                ),
                            j <= n,
                            parts@ =~= parts0.subrange(j as int, n as int),
                            deref_all(out@) + features_trace(
                                features@.subrange(j as int, n as int),
                            ) =~= features_trace(features@),
                        decreases n - j,
                    {
                        let mut tr = parts.remove(0);
                        proof {
                            assert(tr == parts0[j as int]);
                            assert(parts@ =~= parts0.subrange(j + 1, n as int));
                        }
                        let ghost out_before = out@;
                        let ghost tr_view = tr@;
                        out.append(&mut tr);
                        proof {
                            assert(out@ =~= out_before + tr_view);
                            assert(deref_all(out@) =~= deref_all(out_before) + deref_all(
                                tr_view,
                            ));
                            let suffix = features@.subrange(j as int, n as int);
                            assert(suffix[0] == features@[j as int]);
                            assert(suffix.subrange(1, suffix.len() as int)
                                =~= features@.subrange(j + 1, n as int));
                            assert(features_trace(suffix) == feature_trace(features@[j as int])
                                + features_trace(features@.subrange(j + 1, n as int)));
                        }
                        j += 1;
                    }
                },
            }
            proof {
                assert(features@.subrange(n as int, n as int) =~= Seq::<Feature>::empty());
                assert(deref_all(out@) =~= features_trace(features@));
            }
            out
        },
        Document::Feature(f) => visit_feature(f, policy),
        Document::Geometry(s) => visit_shape(s, policy),
    }
}

/// The number of non-collection shapes reachable in a shape tree, at any
/// nesting depth.
pub open spec fn leaf_count(s: Shape) -> nat
    decreases s,
    via leaf_count_dec
{
    match s {
        Shape::GeometryCollection(children) => children_leaf_count(children@),
        _ => 1,
    }
}

#[via_fn]
proof fn leaf_count_dec(s: Shape) {
    match s {
        Shape::GeometryCollection(children) => {
            assert(decreases_to!(s => children));
            assert(decreases_to!(children => children@));
        },
        _ => {},
    }
}

/// The total number of non-collection shapes reachable from a sequence of
/// sibling shapes.
pub open spec fn children_leaf_count(cs: Seq<Shape>) -> nat
    decreases cs,
{
    if cs.len() == 0 {
        0
    } else {
        leaf_count(cs[0]) + children_leaf_count(cs.subrange(1, cs.len() as int))
    }
}

/// The number of collection nodes reachable in a shape tree, the node
/// itself included when it is one.
pub open spec fn collection_count(s: Shape) -> nat
    decreases s,
    via collection_count_dec
{
    match s {
        Shape::GeometryCollection(children) => 1 + children_collection_count(children@),
        _ => 0,
    }
}

#[via_fn]
proof fn collection_count_dec(s: Shape) {
    match s {
        Shape::GeometryCollection(children) => {
            assert(decreases_to!(s => children));
            assert(decreases_to!(children => children@));
        },
        _ => {},
    }
}

/// The total number of collection nodes reachable from a sequence of
/// sibling shapes.
pub open spec fn children_collection_count(cs: Seq<Shape>) -> nat
    decreases cs,
{
    if cs.len() == 0 {
        0
    } else {
        collection_count(cs[0]) + children_collection_count(cs.subrange(1, cs.len() as int))
    }
}

/// The number of non-collection shapes a feature contributes.
pub open spec fn feature_leaf_count(f: Feature) -> nat {
    match f.geometry {
        Some(s) => leaf_count(s),
        None => 0,
    }
}

/// The number of collection nodes a feature contributes.
pub open spec fn feature_collection_count(f: Feature) -> nat {
    match f.geometry {
        Some(s) => collection_count(s),
        None => 0,
    }
}

/// The total number of non-collection shapes in a sequence of features.
pub open spec fn features_leaf_count(fs: Seq<Feature>) -> nat
    decreases fs.len(),
{
    if fs.len() == 0 {
        0
    } else {
        feature_leaf_count(fs[0]) + features_leaf_count(fs.subrange(1, fs.len() as int))
    }
}

/// The total number of collection nodes in a sequence of features.
pub open spec fn features_collection_count(fs: Seq<Feature>) -> nat
    decreases fs.len(),
{
    if fs.len() == 0 {
        0
    } else {
        feature_collection_count(fs[0]) + features_collection_count(
            fs.subrange(1, fs.len() as int),
        )
    }
}

/// The number of non-collection shapes reachable anywhere in a document.
pub open spec fn document_leaf_count(d: Document) -> nat {
    match d {
        Document::FeatureCollection(fs) => features_leaf_count(fs@),
        Document::Feature(f) => feature_leaf_count(f),
        Document::Geometry(s) => leaf_count(s),
    }
}

/// The number of collection nodes reachable anywhere in a document.
pub open spec fn document_collection_count(d: Document) -> nat {
    match d {
        Document::FeatureCollection(fs) => features_collection_count(fs@),
        Document::Feature(f) => feature_collection_count(f),
        Document::Geometry(s) => collection_count(s),
    }
}

proof fn lemma_shape_trace_len(s: Shape)
    ensures
        shape_trace(s).len() == leaf_count(s) + collection_count(s),
    decreases s,
{
    match s {
        Shape::GeometryCollection(children) => {
            assert(decreases_to!(s => children));
            assert(decreases_to!(children => children@));
            lemma_children_trace_len(children@);
        },
        _ => {},
    }
}

proof fn lemma_children_trace_len(cs: Seq<Shape>)
    ensures
        children_trace(cs).len() == children_leaf_count(cs) + children_collection_count(cs),
    decreases cs,
{
    if cs.len() > 0 {
        lemma_shape_trace_len(cs[0]);
        lemma_children_trace_len(cs.subrange(1, cs.len() as int));
    }
}

proof fn lemma_feature_trace_len(f: Feature)
    ensures
        feature_trace(f).len() == feature_leaf_count(f) + feature_collection_count(f),
{
    match f.geometry {
        Some(s) => lemma_shape_trace_len(s),
        None => {},
    }
}

proof fn lemma_features_trace_len(fs: Seq<Feature>)
    ensures
        features_trace(fs).len() == features_leaf_count(fs) + features_collection_count(fs),
    decreases fs.len(),
{
    if fs.len() > 0 {
        lemma_feature_trace_len(fs[0]);
        lemma_features_trace_len(fs.subrange(1, fs.len() as int));
    }
}

/// Visit completeness: a document with `n` reachable non-collection shapes
/// and `c` reachable collection nodes has a dispatch trace of exactly
/// `n + c` entries — the handler runs once per leaf and once per collection.
pub proof fn lemma_visit_completeness(d: Document)
    ensures
        document_trace(d).len() == document_leaf_count(d) + document_collection_count(d),
{
    match d {
        Document::FeatureCollection(fs) => lemma_features_trace_len(fs@),
        Document::Feature(f) => lemma_feature_trace_len(f),
        Document::Geometry(s) => lemma_shape_trace_len(s),
    }
}

/// The report label a handler would print for a shape of kind `k`, as in
/// the motivating reporting handler: point-like and line-like kinds share a
/// label with their multi-part variants, polygons, multipolygons and
/// collections each get their own.
pub fn report_label(k: ShapeKind) -> (r: &'static str)
    ensures
        (k == ShapeKind::Point || k == ShapeKind::MultiPoint) ==> r@ == "matched point-like"@,
        (k == ShapeKind::LineString || k == ShapeKind::MultiLineString) ==> r@
            == "matched line-like"@,
        k == ShapeKind::Polygon ==> r@ == "matched polygon"@,
        k == ShapeKind::MultiPolygon ==> r@ == "matched multipolygon"@,
        k == ShapeKind::GeometryCollection ==> r@ == "matched collection"@,
{
    match k {
        ShapeKind::Point => "matched point-like",
        ShapeKind::MultiPoint => "matched point-like",
        ShapeKind::LineString => "matched line-like",
        ShapeKind::MultiLineString => "matched line-like",
        ShapeKind::Polygon => "matched polygon",
        ShapeKind::MultiPolygon => "matched multipolygon",
        ShapeKind::GeometryCollection => "matched collection",
    }
}

} // verus!
