//! The mutating traversal engine.
//!
//! `transform` walks a document by exclusive access and replaces every
//! shape of a chosen target kind by the widening of what the supplied
//! compute capability returns for the typed view of the original payload.
//! Collection nodes are structural, not geometric: a collection is never
//! replaced itself, even when the target kind is `GeometryCollection`; the
//! engine always recurses into its children instead.  That tie-break is
//! part of this engine's contract.

use vstd::prelude::*;

use rayon::iter::{IntoParallelIterator, ParallelIterator};

use crate::FanOut;
use crate::convert::{TypedShape, narrow, shape_of, typed_of, widen};
use crate::shape::{Coord, Document, Feature, Shape, ShapeKind};

verus! {

/// The compute capability accepts every typed view of the target kind.
pub open spec fn compute_accepts<F: Fn(TypedShape) -> TypedShape>(f: F, target: ShapeKind) -> bool {
    forall|t: TypedShape| t.spec_kind() == target ==> call_requires(f, (t,))
}

/// How one transformed shape relates to the original: a collection keeps
/// its tag and has every child transformed in place; a node of the target
/// kind holds the widening of some value the capability may return for the
/// typed view of the original; every other node is unchanged.
pub open spec fn shape_transformed<F: Fn(TypedShape) -> TypedShape>(
    s: Shape,
    r: Shape,
    target: ShapeKind,
    f: F,
) -> bool
    decreases s,
    via shape_transformed_dec::<F>
{
    match s {
        Shape::GeometryCollection(children) => {
            &&& r matches Shape::GeometryCollection(rchildren)
            &&& children_transformed(children@, rchildren@, target, f)
        },
        _ => {
            if s.spec_kind() == target {
                exists|t: TypedShape| call_ensures(f, (typed_of(s),), t) && r == shape_of(t)
            } else {
                r == s
            }
        },
    }
}

#[via_fn]
proof fn shape_transformed_dec<F: Fn(TypedShape) -> TypedShape>(
    s: Shape,
    r: Shape,
    target: ShapeKind,
    f: F,
) {
    match s {
        Shape::GeometryCollection(children) => {
            assert(decreases_to!(s => children));
            assert(decreases_to!(children => children@));
        },
        _ => {},
    }
}

/// Transformed sibling sequences correspond pointwise, in order.
pub open spec fn children_transformed<F: Fn(TypedShape) -> TypedShape>(
    cs: Seq<Shape>,
    rs: Seq<Shape>,
    target: ShapeKind,
    f: F,
) -> bool
    decreases cs,
{
    &&& rs.len() == cs.len()
    &&& forall|i: int|
        0 <= i < cs.len() ==> shape_transformed(cs[i], #[trigger] rs[i], target, f)
}

/// How a transformed feature relates to the original: a feature without a
/// shape is untouched; one with a shape keeps its metadata and has its
/// shape transformed.
pub open spec fn feature_transformed<F: Fn(TypedShape) -> TypedShape>(
    f0: Feature,
    f1: Feature,
    target: ShapeKind,
    f: F,
) -> bool {
    match f0.geometry {
        Some(s) => {
            &&& f1.geometry matches Some(r)
            &&& shape_transformed(s, r, target, f)
            &&& f1.properties == f0.properties
        },
        None => f1 == f0,
    }
}

/// How a transformed document relates to the original: the same wrapper,
/// with every contained feature and shape transformed in place.
pub open spec fn document_transformed<F: Fn(TypedShape) -> TypedShape>(
    d0: Document,
    d1: Document,
    target: ShapeKind,
    f: F,
) -> bool {
    match d0 {
        Document::FeatureCollection(fs) => {
            &&& d1 matches Document::FeatureCollection(fs1)
            &&& fs1@.len() == fs@.len()
            &&& forall|i: int|
                0 <= i < fs@.len() ==> feature_transformed(fs@[i], #[trigger] fs1@[i], target, f)
        },
        Document::Feature(f0) => {
            &&& d1 matches Document::Feature(f1)
            &&& feature_transformed(f0, f1, target, f)
        },
        Document::Geometry(s) => {
            &&& d1 matches Document::Geometry(r)
            &&& shape_transformed(s, r, target, f)
        },
    }
}

/// Reading the transformed relation at a node of the target kind: such a
/// node holds exactly the widening of a value the capability may return
/// for the typed view of the original payload.
pub proof fn lemma_transformed_matching_leaf<F: Fn(TypedShape) -> TypedShape>(
    s: Shape,
    r: Shape,
    target: ShapeKind,
    f: F,
)
    requires
        !s.is_collection(),
        s.spec_kind() == target,
        shape_transformed(s, r, target, f),
    ensures
        exists|t: TypedShape| call_ensures(f, (typed_of(s),), t) && r == shape_of(t),
{
}

/// Reading the transformed relation at a node of any other kind: such a
/// node is unchanged, bit for bit.
pub proof fn lemma_transformed_other_leaf<F: Fn(TypedShape) -> TypedShape>(
    s: Shape,
    r: Shape,
    target: ShapeKind,
    f: F,
)
    requires
        !s.is_collection(),
        s.spec_kind() != target,
        shape_transformed(s, r, target, f),
    ensures
        r == s,
{
}

/// Relies on rayon's `into_par_iter`, `ParallelIterator::map` and
/// `collect` into a `Vec`, which applies the closure to every element and
/// collects the results in input order.  The closure only calls the
/// verified `transform_shape`, whose contract gives each collected shape;
/// sibling subtrees are disjoint, so transforming them concurrently is
/// sound.
#[verifier::external_body]
fn par_transform_children<F: Fn(TypedShape) -> TypedShape + Sync>(
    children: Vec<Shape>,
    target: ShapeKind,
    compute: &F,
) -> (r: Vec<Shape>)
    requires
        compute_accepts(*compute, target),
    ensures
        r@.len() == children@.len(),
        forall|i: int|
            0 <= i < children@.len() ==> shape_transformed(
                children@[i],
                #[trigger] r@[i],
                target,
                *compute,
            ),
{
    children.into_par_iter().map(|c| transform_shape(c, target, compute, FanOut::Parallel)).collect()
}

/// Relies on rayon's `into_par_iter`, `ParallelIterator::map` and
/// `collect` into a `Vec`, which applies the closure to every element and
/// collects the results in input order.  The closure only calls the
/// verified `transform_feature`, whose contract gives each collected
/// feature; sibling features are disjoint, so transforming them
/// concurrently is sound.
#[verifier::external_body]
fn par_transform_features<F: Fn(TypedShape) -> TypedShape + Sync>(
    features: Vec<Feature>,
    target: ShapeKind,
    compute: &F,
) -> (r: Vec<Feature>)
    requires
        compute_accepts(*compute, target),
    ensures
        r@.len() == features@.len(),
        forall|i: int|
            0 <= i < features@.len() ==> feature_transformed(
                features@[i],
                #[trigger] r@[i],
                target,
                *compute,
            ),
{
    features.into_par_iter().map(|f| transform_feature(f, target, compute, FanOut::Parallel)).collect()
}

/// Transforms one shape, consuming it and returning the replacement.
///
/// A node of the target kind goes through the replace sequence: narrow to
/// the typed view (the kind was just checked, so narrowing cannot fail),
/// apply the capability, widen the result back.  A collection recurses
/// into its children under the fan-out policy; any other node passes
/// through unchanged.
pub fn transform_shape<F: Fn(TypedShape) -> TypedShape + Sync>(
    s: Shape,
    target: ShapeKind,
    compute: &F,
    policy: FanOut,
) -> (r: Shape)
    requires
        compute_accepts(*compute, target),
    ensures
        shape_transformed(s, r, target, *compute),
    decreases s,
{
    match s {
        Shape::GeometryCollection(children) => {
            let ghost v0 = children;
            let ghost cs = children@;
            let mut rest = children;
            let n = rest.len();
            proof {
                assert(cs.subrange(0, n as int) =~= cs);
            }
            let out: Vec<Shape> = match policy {
                FanOut::Sequential => {
                    let mut acc: Vec<Shape> = Vec::new();
                    let mut i: usize = 0;
                    while i < n
                        invariant
                            compute_accepts(*compute, target),
                            s == Shape::GeometryCollection(v0),
                            v0@ == cs,
                            n == cs.len(),
                            i <= n,
                            rest@ =~= cs.subrange(i as int, n as int),
                            acc@.len() == i,
                            forall|j: int|
                                0 <= j < i ==> shape_transformed(
                                    cs[j],
                                    #[trigger] acc@[j],
                                    target,
                                    *compute,
                                ),
                        decreases n - i,
                    {
                        let child = rest.remove(0);
                        proof {
                            assert(child == cs[i as int]);
                            assert(rest@ =~= cs.subrange(i + 1, n as int));
                            assert(decreases_to!(s => s->GeometryCollection_0));
                            assert(s->GeometryCollection_0 == v0);
                            assert(decreases_to!(v0 => v0@));
                            assert(decreases_to!(cs => cs[i as int]));
                        }
                        let replaced = transform_shape(child, target, compute, policy);
                        acc.push(replaced);
                        i += 1;
                    }
                    acc
                },
                FanOut::Parallel => par_transform_children(rest, target, compute),
            };
            proof {
                assert(children_transformed(cs, out@, target, *compute));
            }
            Shape::GeometryCollection(out)
        },
        other => {
            let k = other.kind();
            if k == target {
                let ghost orig = other;
                let typed = match narrow(other, target) {
                    Ok(t) => t,
                    Err(_) => {
                        proof {
                            assert(false);
                        }
                        vstd::pervasive::unreached()
                    },
                };
                proof {
                    assert(typed == typed_of(orig));
                    crate::convert::lemma_typed_view_keeps_kind(orig);
                }
                let replacement = (compute)(typed);
                let ghost rep = replacement;
                let r = widen(replacement);
                proof {
                    assert(call_ensures(*compute, (typed_of(orig),), rep) && r == shape_of(rep));
                }
                r
            } else {
                other
            }
        },
    }
}

/// Transforms one feature, consuming it.  A feature without a shape is
/// returned untouched; metadata is always carried through.
pub fn transform_feature<F: Fn(TypedShape) -> TypedShape + Sync>(
    f: Feature,
    target: ShapeKind,
    compute: &F,
    policy: FanOut,
) -> (r: Feature)
    requires
        compute_accepts(*compute, target),
    ensures
        feature_transformed(f, r, target, *compute),
{
    let Feature { geometry, properties } = f;
    match geometry {
        Some(s) => Feature {
            geometry: Some(transform_shape(s, target, compute, policy)),
            properties,
        },
        None => Feature { geometry: None, properties },
    }
}

/// Transforms a whole document, consuming it.
pub fn transform_document<F: Fn(TypedShape) -> TypedShape + Sync>(
    d: Document,
    target: ShapeKind,
    compute: &F,
    policy: FanOut,
) -> (r: Document)
    requires
        compute_accepts(*compute, target),
    ensures
        document_transformed(d, r, target, *compute),
{
    match d {
        Document::FeatureCollection(features) => {
            let ghost fs = features@;
            let mut rest = features;
            let n = rest.len();
            proof {
                assert(fs.subrange(0, n as int) =~= fs);
            }
            let out: Vec<Feature> = match policy {
                FanOut::Sequential => {
                    let mut acc: Vec<Feature> = Vec::new();
                    let mut i: usize = 0;
                    while i < n
                        invariant
                            compute_accepts(*compute, target),
                            n == fs.len(),
                            i <= n,
                            rest@ =~= fs.subrange(i as int, n as int),
                            acc@.len() == i,
                            forall|j: int|
                                0 <= j < i ==> feature_transformed(
                                    fs[j],
                                    #[trigger] acc@[j],
                                    target,
                                    *compute,
                                ),
                        decreases n - i,
                    {
                        let feat = rest.remove(0);
                        proof {
                            assert(feat == fs[i as int]);
                            assert(rest@ =~= fs.subrange(i + 1, n as int));
                        }
                        let replaced = transform_feature(feat, target, compute, policy);
                        acc.push(replaced);
                        i += 1;
                    }
                    acc
                },
                FanOut::Parallel => par_transform_features(rest, target, compute),
            };
            Document::FeatureCollection(out)
        },
        Document::Feature(f) => Document::Feature(transform_feature(f, target, compute, policy)),
        Document::Geometry(s) => Document::Geometry(
            transform_shape(s, target, compute, policy),
        ),
    }
}

/// Transforms a document in place, by exclusive access.
///
/// The document is moved out and a cheap placeholder of the same shape
/// family installed while the replacement is computed, so no caller can
/// ever observe a missing value; the result is installed before the call
/// returns.  A capability that panics aborts the traversal and propagates
/// to the caller; siblings already transformed under parallel fan-out keep
/// their new values — replacement is atomic per node, not across siblings.
pub fn transform<F: Fn(TypedShape) -> TypedShape + Sync>(
    doc: &mut Document,
    target: ShapeKind,
    compute: &F,
    policy: FanOut,
)
    requires
        compute_accepts(*compute, target),
    ensures
        document_transformed(*old(doc), *final(doc), target, *compute),
{
    let mut taken: Document = Document::Geometry(Shape::Point(Coord { x: 0, y: 0 }));
    core::mem::swap(doc, &mut taken);
    let result = transform_document(taken, target, compute, policy);
    *doc = result;
}

} // verus!
