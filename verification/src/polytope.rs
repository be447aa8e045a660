//! A convex polytope given by its vertices.
//!
//! The support mapping of a convex hull is realized on the hull's vertices —
//! a point of the hull projects no further than the furthest vertex — so the
//! model point set is the vertex list itself, and the query is a scan for
//! the vertex of maximal projection. Ties are broken deterministically
//! toward the lowest vertex index.

use crate::support_map::SupportMap;
use crate::transform::Transform;
use crate::vec3::{dot, in_coord_range, Vec3};
use vstd::prelude::*;

verus! {

/// The index of the vertex of `vs` that the support query elects along
/// `dir`: the lowest index achieving the maximal dot product.
pub open spec fn best_index(vs: Seq<Vec3>, dir: Vec3) -> int
    recommends
        0 < vs.len(),
    decreases vs.len(),
{
    if vs.len() <= 1 {
        0
    } else {
        let b = best_index(vs.drop_last(), dir);
        if dot(vs.last(), dir) > dot(vs[b], dir) {
            vs.len() - 1
        } else {
            b
        }
    }
}

/// `best_index` names a vertex, and no vertex projects further along `dir`.
pub proof fn lemma_best_index(vs: Seq<Vec3>, dir: Vec3)
    requires
        0 < vs.len(),
    ensures
        0 <= best_index(vs, dir) < vs.len(),
        forall|i: int|
            0 <= i < vs.len() ==> dot(#[trigger] vs[i], dir) <= dot(vs[best_index(vs, dir)], dir),
    decreases vs.len(),
{
    if 1 < vs.len() {
        let init = vs.drop_last();
        let b = best_index(init, dir);
        lemma_best_index(init, dir);
        assert forall|i: int| 0 <= i < vs.len() implies dot(#[trigger] vs[i], dir) <= dot(
            vs[best_index(vs, dir)],
            dir,
        ) by {
            if i < vs.len() - 1 {
                assert(vs[i] == init[i]);
                assert(dot(init[i], dir) <= dot(init[b], dir));
                assert(init[b] == vs[b]);
            } else {
                assert(vs[i] == vs.last());
            }
        }
    }
}

/// A convex polytope described by the vertices of its hull, each vertex
/// coordinate-bounded so that its projection on any direction is computable.
#[derive(Clone, PartialEq, Eq, Debug)]
pub struct ConvexPolytope {
    /// The vertices; at least one, every coordinate within
    /// `[-MAX_COORD, MAX_COORD]`.
    pub vertices: Vec<Vec3>,
}

impl ConvexPolytope {
    /// Builds the polytope on the given vertices.
    pub fn new(vertices: Vec<Vec3>) -> (r: ConvexPolytope)
        ensures
            r.vertices == vertices,
    {
        ConvexPolytope { vertices }
    }

    /// Whether the polytope's description is well-formed: at least one
    /// vertex, every vertex coordinate-bounded.
    pub fn is_well_formed(&self) -> (r: bool)
        ensures
            r == self.wf(),
    {
        if self.vertices.len() == 0 {
            return false;
        }
        let mut i: usize = 0;
        while i < self.vertices.len()
            invariant
                0 <= i <= self.vertices@.len(),
                forall|j: int| 0 <= j < i ==> in_coord_range(#[trigger] self.vertices@[j]),
            decreases self.vertices@.len() - i,
        {
            if !self.vertices[i].in_coord_range() {
                return false;
            }
            i += 1;
        }
        true
    }
}

impl SupportMap for ConvexPolytope {
    /// At least one vertex, every vertex coordinate-bounded.
    open spec fn wf(&self) -> bool {
        &&& 0 < self.vertices@.len()
        &&& forall|i: int|
            0 <= i < self.vertices@.len() ==> in_coord_range(#[trigger] self.vertices@[i])
    }

    open spec fn contains(&self, p: Vec3) -> bool {
        self.vertices@.contains(p)
    }

    open spec fn local_support(&self, dir: Vec3) -> Vec3 {
        self.vertices@[best_index(self.vertices@, dir)]
    }

    proof fn lemma_support_extreme(&self, dir: Vec3) {
        let vs = self.vertices@;
        let b = best_index(vs, dir);
        lemma_best_index(vs, dir);
        assert(vs.contains(vs[b]));
        assert forall|q: Vec3| #[trigger] self.contains(q) implies dot(q, dir) <= dot(
            self.local_support(dir),
            dir,
        ) by {
            let i = choose|i: int| 0 <= i < vs.len() && vs[i] == q;
            assert(dot(vs[i], dir) <= dot(vs[b], dir));
        }
    }

    fn support_point(&self, m: &Transform, dir: &Vec3) -> (p: Vec3) {
        let vs = &self.vertices;
        let ghost gvs = vs@;
        let mut best: usize = 0;
        let mut best_dot: i128 = vs[0].dot(dir);
        let mut i: usize = 1;
        while i < vs.len()
            invariant
                gvs == vs@,
                gvs == self.vertices@,
                self.wf(),
                1 <= i <= gvs.len(),
                best as int == best_index(gvs.take(i as int), *dir),
                0 <= best < i,
                best_dot == dot(gvs[best as int], *dir),
            decreases gvs.len() - i,
        {
            proof {
                assert(in_coord_range(self.vertices@[i as int]));
            }
            let d = vs[i].dot(dir);
            proof {
                assert(gvs.take(i as int + 1).drop_last() =~= gvs.take(i as int));
                assert(gvs.take(i as int + 1).last() == gvs[i as int]);
            }
            if d > best_dot {
                best = i;
                best_dot = d;
            }
            i += 1;
        }
        proof {
            assert(gvs.take(gvs.len() as int) =~= gvs);
        }
        m.apply(&vs[best])
    }
}

} // verus!
