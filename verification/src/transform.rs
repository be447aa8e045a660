//! The pose applied to a shape when it is queried.
//!
//! A pose maps the shape's local frame into world space. In this exact
//! integer model a pose is a translation; that is enough to state — and
//! prove — the world-space semantics of a support query: the returned point
//! is extreme among the *transformed* points of the shape.

use crate::vec3::{dot, Vec3};
use vstd::prelude::*;

verus! {

/// A pose: a rigid placement of a shape's local frame in world space.
#[derive(Clone, Copy, PartialEq, Eq, Structural, Debug)]
pub struct Transform {
    /// The world-space position of the shape's local origin.
    pub translation: Vec3,
}

impl Transform {
    /// True when the image of `p` under this pose fits in `i64` coordinates.
    pub open spec fn in_range(self, p: Vec3) -> bool {
        &&& i64::MIN <= p.x + self.translation.x <= i64::MAX
        &&& i64::MIN <= p.y + self.translation.y <= i64::MAX
        &&& i64::MIN <= p.z + self.translation.z <= i64::MAX
    }

    /// The image of the local point `p` in world space.
    pub open spec fn apply_spec(self, p: Vec3) -> Vec3
        recommends
            self.in_range(p),
    {
        Vec3 {
            x: (p.x + self.translation.x) as i64,
            y: (p.y + self.translation.y) as i64,
            z: (p.z + self.translation.z) as i64,
        }
    }

    /// The identity pose: the local frame is the world frame.
    pub fn identity() -> (r: Transform)
        ensures
            r == (Transform { translation: Vec3 { x: 0, y: 0, z: 0 } }),
            forall|p: Vec3| r.in_range(p) && #[trigger] r.apply_spec(p) == p,
    {
        Transform { translation: Vec3 { x: 0, y: 0, z: 0 } }
    }

    /// The pose that translates the local frame by `v`.
    pub fn translation(v: Vec3) -> (r: Transform)
        ensures
            r == (Transform { translation: v }),
    {
        Transform { translation: v }
    }

    /// Maps the local point `p` to world space.
    pub fn apply(&self, p: &Vec3) -> (r: Vec3)
        requires
            self.in_range(*p),
        ensures
            r == self.apply_spec(*p),
    {
        Vec3 { x: p.x + self.translation.x, y: p.y + self.translation.y, z: p.z
            + self.translation.z }
    }

    /// Applying a pose shifts every dot product by the same amount: the
    /// projection of the image of `p` along `d` is the local projection plus
    /// the projection of the translation.
    pub proof fn lemma_apply_dot(self, p: Vec3, d: Vec3)
        requires
            self.in_range(p),
        ensures
            dot(self.apply_spec(p), d) == dot(p, d) + dot(self.translation, d),
    {
        let t = self.translation;
        assert((p.x + t.x) * d.x == p.x * d.x + t.x * d.x) by (nonlinear_arith);
        assert((p.y + t.y) * d.y == p.y * d.y + t.y * d.y) by (nonlinear_arith);
        assert((p.z + t.z) * d.z == p.z * d.z + t.z * d.z) by (nonlinear_arith);
    }
}

} // verus!
