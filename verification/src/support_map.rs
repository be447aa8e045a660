//! The support-mapping contract for convex shapes.
//!
//! A conforming shape models its geometry with two spec functions — the set
//! of its local-space points and the point it elects as extreme along each
//! direction — discharges one proof obligation (the elected point belongs to
//! the shape and maximizes the dot product with the direction), and
//! implements one executable query. The two derived queries come with
//! default bodies that delegate to the required one.

use crate::dir3::Dir3;
use crate::transform::Transform;
use crate::vec3::{dot, is_zero, Vec3};
use vstd::prelude::*;

verus! {

/// A convex shape representable by a support mapping: a map from a direction
/// to the shape point that extends furthest along it.
///
/// The convexity of the modelled point set is a precondition of every use of
/// this contract, not something the contract itself states or checks.
pub trait SupportMap: Sized {
    /// Well-formedness of the shape's own immutable geometric description.
    spec fn wf(&self) -> bool;

    /// The model: which local-space points make up the shape.
    spec fn contains(&self, p: Vec3) -> bool;

    /// The point the shape elects as extreme along `dir`, in local space.
    ///
    /// When several points tie for maximal projection the election is
    /// shape-defined, but it is a function of the shape and the direction
    /// alone, so repeated queries with identical inputs return the identical
    /// point.
    spec fn local_support(&self, dir: Vec3) -> Vec3;

    /// The obligation a conforming shape discharges: along every non-zero
    /// direction, the elected point is a point of the shape and no point of
    /// the shape projects further.
    proof fn lemma_support_extreme(&self, dir: Vec3)
        requires
            self.wf(),
            !is_zero(dir),
        ensures
            self.contains(self.local_support(dir)),
            forall|q: Vec3| #[trigger] self.contains(q) ==> dot(q, dir) <= dot(
                self.local_support(dir),
                dir,
            ),
    ;

    /// Evaluates the support function of the shape: returns the shape point,
    /// in world space under the pose `m`, that maximizes the dot product
    /// with `dir`.
    ///
    /// `dir` need not be normalized, only non-zero; the pose must keep the
    /// elected point representable.
    fn support_point(&self, m: &Transform, dir: &Vec3) -> (p: Vec3)
        requires
            self.wf(),
            !is_zero(*dir),
            m.in_range(self.local_support(*dir)),
        ensures
            p == m.apply_spec(self.local_support(*dir)),
    ;

    /// Same as `support_point`, for a direction already certified valid:
    /// returns exactly the point `support_point` returns for the underlying
    /// vector. A shape may override this to exploit the certificate, but the
    /// postcondition pins the override to the same point.
    fn support_point_toward(&self, m: &Transform, dir: &Dir3) -> (p: Vec3)
        requires
            self.wf(),
            dir.wf(),
            m.in_range(self.local_support(dir.v)),
        ensures
            p == m.apply_spec(self.local_support(dir.v)),
    {
        proof {
            self.lemma_support_extreme(dir.v);
        }
        self.support_point(m, &dir.v)
    }

    /// Appends to `out` a sample of the shape's extreme region toward `dir`:
    /// one or more world-space shape points, each within `angle` of maximal
    /// projection, leaving the entries already in `out` untouched.
    ///
    /// A shape with a flat or rounded extreme region may override this to
    /// append the whole region; the default appends exactly one point — the
    /// result of `support_point_toward` — and ignores the tolerance.
    ///
    /// The pose must keep every point of the shape representable, and the
    /// tolerance — a bound on how far the projection of an appended point may
    /// fall short of the maximal projection — must be nonnegative.
    fn support_area_toward(&self, m: &Transform, dir: &Dir3, angle: i64, out: &mut Vec<Vec3>)
        requires
            self.wf(),
            dir.wf(),
            0 <= angle,
            forall|q: Vec3| #[trigger] self.contains(q) ==> m.in_range(q),
        ensures
            old(out)@.len() < final(out)@.len(),
            final(out)@.subrange(0, old(out)@.len() as int) == old(out)@,
            forall|i: int|
                #![trigger final(out)@[i]]
                old(out)@.len() <= i < final(out)@.len() ==> exists|q: Vec3|
                    {
                        &&& #[trigger] self.contains(q)
                        &&& m.in_range(q)
                        &&& final(out)@[i] == m.apply_spec(q)
                        &&& dot(self.local_support(dir.v), dir.v) - dot(q, dir.v) <= angle as int
                    },
        default_ensures
            final(out)@ == old(out)@.push(m.apply_spec(self.local_support(dir.v))),
    {
        proof {
            self.lemma_support_extreme(dir.v);
        }
        let p = self.support_point_toward(m, dir);
        out.push(p);
        proof {
            let q = self.local_support(dir.v);
            assert(self.contains(q) && m.in_range(q) && p == m.apply_spec(q) && dot(
                self.local_support(dir.v),
                dir.v,
            ) - dot(q, dir.v) <= angle as int);
            assert(out@.subrange(0, old(out)@.len() as int) =~= old(out)@);
        }
    }
}

/// Extremality law: a point meeting `support_point`'s postcondition projects
/// at least as far along the query direction as any other point of the
/// posed shape.
pub proof fn lemma_support_point_extremal<S: SupportMap>(
    s: &S,
    m: Transform,
    dir: Vec3,
    p: Vec3,
    q: Vec3,
)
    requires
        s.wf(),
        !is_zero(dir),
        p == m.apply_spec(s.local_support(dir)),
        m.in_range(s.local_support(dir)),
        s.contains(q),
        m.in_range(q),
    ensures
        dot(m.apply_spec(q), dir) <= dot(p, dir),
{
    s.lemma_support_extreme(dir);
    m.lemma_apply_dot(s.local_support(dir), dir);
    m.lemma_apply_dot(q, dir);
}

/// Membership law: a point meeting `support_point`'s postcondition is a
/// point of the shape in world space — the image under the pose of a point
/// the shape contains.
pub proof fn lemma_support_point_on_shape<S: SupportMap>(s: &S, m: Transform, dir: Vec3, p: Vec3)
    requires
        s.wf(),
        !is_zero(dir),
        p == m.apply_spec(s.local_support(dir)),
        m.in_range(s.local_support(dir)),
    ensures
        exists|q: Vec3| #[trigger] s.contains(q) && m.in_range(q) && p == m.apply_spec(q),
{
    s.lemma_support_extreme(dir);
    assert(s.contains(s.local_support(dir)) && m.in_range(s.local_support(dir)) && p
        == m.apply_spec(s.local_support(dir)));
}

/// Equivalence law: any result meeting `support_point_toward`'s
/// postcondition equals any result meeting `support_point`'s postcondition
/// for the underlying vector of the same direction.
pub proof fn lemma_toward_equivalence<S: SupportMap>(
    s: &S,
    m: Transform,
    dir: Dir3,
    p_toward: Vec3,
    p_general: Vec3,
)
    requires
        p_toward == m.apply_spec(s.local_support(dir.v)),
        p_general == m.apply_spec(s.local_support(dir.v)),
    ensures
        p_toward == p_general,
{
}

/// Determinism law: any two results meeting `support_point`'s postcondition
/// for an identical shape, pose and direction are the identical point.
pub proof fn lemma_support_point_deterministic<S: SupportMap>(
    s: &S,
    m: Transform,
    dir: Vec3,
    p1: Vec3,
    p2: Vec3,
)
    requires
        p1 == m.apply_spec(s.local_support(dir)),
        p2 == m.apply_spec(s.local_support(dir)),
    ensures
        p1 == p2,
{
}

} // verus!
