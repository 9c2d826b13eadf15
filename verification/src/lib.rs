//! A traversal-and-transformation engine for recursively nested geometric
//! shape trees.
//!
//! A [`shape::Document`] holds geometric features whose shapes may nest to
//! arbitrary depth through collection nodes.  The engine offers read-only
//! visiting, which lists every shape encountered in dispatch order, and
//! mutating transformation, which replaces every shape of a chosen kind in
//! place by a value computed from a typed view of the original.

pub mod convert;
pub mod shape;
pub mod transform;
pub mod visit;

use vstd::prelude::*;

verus! {

/// The two fan-out policies for processing independent sibling subtrees:
/// one after another in document order, or spread across a worker pool.
#[derive(Clone, Copy, PartialEq, Eq, Structural, Debug)]
pub enum FanOut {
    Sequential,
    Parallel,
}

} // verus!
