//! An axis-aligned box, the reference shape with a flat extreme region.
//!
//! The cuboid elects the corner whose coordinates carry the signs of the
//! query direction (a zero component counts as positive — the documented,
//! deterministic tie-break), and overrides the area query: toward a face
//! normal it appends the whole extreme face, all four corners of it.

use crate::dir3::Dir3;
use crate::support_map::SupportMap;
use crate::transform::Transform;
use crate::vec3::{dot, Vec3};
use vstd::prelude::*;

verus! {

/// True when exactly one component of `dir` is nonzero, so that `dir` is an
/// outward normal of a face of an axis-aligned box.
pub open spec fn is_axis_aligned(dir: Vec3) -> bool {
    ||| (dir.x == 0 && dir.y == 0 && dir.z != 0)
    ||| (dir.y == 0 && dir.z == 0 && dir.x != 0)
    ||| (dir.z == 0 && dir.x == 0 && dir.y != 0)
}

/// A product with a zero factor is zero.
proof fn lemma_mul_zero(a: int, b: int)
    requires
        b == 0,
    ensures
        a * b == 0,
{
    assert(a * b == 0) by (nonlinear_arith)
        requires
            b == 0,
    ;
}

/// For a coordinate confined to `[-h, h]`, the elected bound — `h` under a
/// nonnegative direction component, `-h` under a negative one — maximizes
/// the product with that component.
proof fn lemma_axis_extreme(d: int, h: int, q: int, s: int)
    requires
        0 <= h,
        -h <= q <= h,
        s == if d >= 0 {
            h
        } else {
            -h
        },
    ensures
        q * d <= s * d,
{
    assert(q * d <= s * d) by (nonlinear_arith)
        requires
            0 <= h,
            -h <= q <= h,
            s == if d >= 0 {
                h
            } else {
                -h
            },
    ;
}

/// An axis-aligned box centered at its local origin: the points whose
/// coordinates lie within the nonnegative half-extents along each axis.
#[derive(Clone, Copy, PartialEq, Eq, Structural, Debug)]
pub struct Cuboid {
    /// Half the box's extent along each axis; every component nonnegative.
    pub half_extents: Vec3,
}

impl Cuboid {
    /// Builds the box with the given half-extents.
    pub fn new(half_extents: Vec3) -> (r: Cuboid)
        ensures
            r == (Cuboid { half_extents }),
    {
        Cuboid { half_extents }
    }

    /// Whether the box's description is well-formed.
    pub fn is_well_formed(&self) -> (r: bool)
        ensures
            r == self.wf(),
    {
        0 <= self.half_extents.x && 0 <= self.half_extents.y && 0 <= self.half_extents.z
    }

    /// The four corners, posed by `m`, of the face of the box whose outward
    /// normal is the axis-aligned direction `dir`, in the order that
    /// `support_area_toward` appends them: the two coordinates free on the
    /// face run through `(+, +)`, `(-, +)`, `(-, -)`, `(+, -)`.
    pub open spec fn face_corners(self, m: Transform, dir: Vec3) -> Seq<Vec3>
        recommends
            self.wf(),
            is_axis_aligned(dir),
    {
        let h = self.half_extents;
        if dir.x == 0 && dir.y == 0 {
            let sz = if dir.z >= 0 {
                h.z
            } else {
                (-h.z) as i64
            };
            seq![
                m.apply_spec(Vec3 { x: h.x, y: h.y, z: sz }),
                m.apply_spec(Vec3 { x: (-h.x) as i64, y: h.y, z: sz }),
                m.apply_spec(Vec3 { x: (-h.x) as i64, y: (-h.y) as i64, z: sz }),
                m.apply_spec(Vec3 { x: h.x, y: (-h.y) as i64, z: sz }),
            ]
        } else if dir.y == 0 && dir.z == 0 {
            let sx = if dir.x >= 0 {
                h.x
            } else {
                (-h.x) as i64
            };
            seq![
                m.apply_spec(Vec3 { x: sx, y: h.y, z: h.z }),
                m.apply_spec(Vec3 { x: sx, y: (-h.y) as i64, z: h.z }),
                m.apply_spec(Vec3 { x: sx, y: (-h.y) as i64, z: (-h.z) as i64 }),
                m.apply_spec(Vec3 { x: sx, y: h.y, z: (-h.z) as i64 }),
            ]
        } else {
            let sy = if dir.y >= 0 {
                h.y
            } else {
                (-h.y) as i64
            };
            seq![
                m.apply_spec(Vec3 { x: h.x, y: sy, z: h.z }),
                m.apply_spec(Vec3 { x: (-h.x) as i64, y: sy, z: h.z }),
                m.apply_spec(Vec3 { x: (-h.x) as i64, y: sy, z: (-h.z) as i64 }),
                m.apply_spec(Vec3 { x: h.x, y: sy, z: (-h.z) as i64 }),
            ]
        }
    }
}

impl SupportMap for Cuboid {
    /// The half-extents are nonnegative.
    open spec fn wf(&self) -> bool {
        &&& 0 <= self.half_extents.x
        &&& 0 <= self.half_extents.y
        &&& 0 <= self.half_extents.z
    }

    open spec fn contains(&self, p: Vec3) -> bool {
        &&& -self.half_extents.x <= p.x <= self.half_extents.x
        &&& -self.half_extents.y <= p.y <= self.half_extents.y
        &&& -self.half_extents.z <= p.z <= self.half_extents.z
    }

    open spec fn local_support(&self, dir: Vec3) -> Vec3 {
        let h = self.half_extents;
        Vec3 {
            x: if dir.x >= 0 {
                h.x
            } else {
                (-h.x) as i64
            },
            y: if dir.y >= 0 {
                h.y
            } else {
                (-h.y) as i64
            },
            z: if dir.z >= 0 {
                h.z
            } else {
                (-h.z) as i64
            },
        }
    }

    proof fn lemma_support_extreme(&self, dir: Vec3) {
        let h = self.half_extents;
        let s = self.local_support(dir);
        assert forall|q: Vec3| #[trigger] self.contains(q) implies dot(q, dir) <= dot(
            s,
            dir,
        ) by {
            lemma_axis_extreme(dir.x as int, h.x as int, q.x as int, s.x as int);
            lemma_axis_extreme(dir.y as int, h.y as int, q.y as int, s.y as int);
            lemma_axis_extreme(dir.z as int, h.z as int, q.z as int, s.z as int);
        }
    }

    fn support_point(&self, m: &Transform, dir: &Vec3) -> (p: Vec3) {
        let h = self.half_extents;
        let local = Vec3 {
            x: if dir.x >= 0 {
                h.x
            } else {
                -h.x
            },
            y: if dir.y >= 0 {
                h.y
            } else {
                -h.y
            },
            z: if dir.z >= 0 {
                h.z
            } else {
                -h.z
            },
        };
        m.apply(&local)
    }

    /// Toward a face normal, appends the four corners of the extreme face
    /// (in the order `face_corners` gives); toward any other direction,
    /// appends the single support point, as the default would.
    fn support_area_toward(&self, m: &Transform, dir: &Dir3, angle: i64, out: &mut Vec<Vec3>)
        ensures
            is_axis_aligned(dir.v) ==> final(out)@ == old(out)@ + self.face_corners(*m, dir.v),
            !is_axis_aligned(dir.v) ==> final(out)@ == old(out)@.push(
                m.apply_spec(self.local_support(dir.v)),
            ),
    {
        let d = dir.v;
        let h = self.half_extents;
        if d.x == 0 && d.y == 0 {
            let sz = if d.z >= 0 {
                h.z
            } else {
                -h.z
            };
            let c0 = Vec3 { x: h.x, y: h.y, z: sz };
            let c1 = Vec3 { x: -h.x, y: h.y, z: sz };
            let c2 = Vec3 { x: -h.x, y: -h.y, z: sz };
            let c3 = Vec3 { x: h.x, y: -h.y, z: sz };
            proof {
                assert(self.contains(c0) && self.contains(c1) && self.contains(c2)
                    && self.contains(c3));
                lemma_face_corner_extreme(*self, d, c0);
                lemma_face_corner_extreme(*self, d, c1);
                lemma_face_corner_extreme(*self, d, c2);
                lemma_face_corner_extreme(*self, d, c3);
            }
            let w0 = m.apply(&c0);
            let w1 = m.apply(&c1);
            let w2 = m.apply(&c2);
            let w3 = m.apply(&c3);
            out.push(w0);
            out.push(w1);
            out.push(w2);
            out.push(w3);
            proof {
                assert(out@ =~= old(out)@ + self.face_corners(*m, d));
                assert(out@.subrange(0, old(out)@.len() as int) =~= old(out)@);
            }
        } else if d.y == 0 && d.z == 0 {
            let sx = if d.x >= 0 {
                h.x
            } else {
                -h.x
            };
            let c0 = Vec3 { x: sx, y: h.y, z: h.z };
            let c1 = Vec3 { x: sx, y: -h.y, z: h.z };
            let c2 = Vec3 { x: sx, y: -h.y, z: -h.z };
            let c3 = Vec3 { x: sx, y: h.y, z: -h.z };
            proof {
                assert(self.contains(c0) && self.contains(c1) && self.contains(c2)
                    && self.contains(c3));
                lemma_face_corner_extreme(*self, d, c0);
                lemma_face_corner_extreme(*self, d, c1);
                lemma_face_corner_extreme(*self, d, c2);
                lemma_face_corner_extreme(*self, d, c3);
            }
            let w0 = m.apply(&c0);
            let w1 = m.apply(&c1);
            let w2 = m.apply(&c2);
            let w3 = m.apply(&c3);
            out.push(w0);
            out.push(w1);
            out.push(w2);
            out.push(w3);
            proof {
                assert(out@ =~= old(out)@ + self.face_corners(*m, d));
                assert(out@.subrange(0, old(out)@.len() as int) =~= old(out)@);
            }
        } else if d.z == 0 && d.x == 0 {
            let sy = if d.y >= 0 {
                h.y
            } else {
                -h.y
            };
            let c0 = Vec3 { x: h.x, y: sy, z: h.z };
            let c1 = Vec3 { x: -h.x, y: sy, z: h.z };
            let c2 = Vec3 { x: -h.x, y: sy, z: -h.z };
            let c3 = Vec3 { x: h.x, y: sy, z: -h.z };
            proof {
                assert(self.contains(c0) && self.contains(c1) && self.contains(c2)
                    && self.contains(c3));
                lemma_face_corner_extreme(*self, d, c0);
                lemma_face_corner_extreme(*self, d, c1);
                lemma_face_corner_extreme(*self, d, c2);
                lemma_face_corner_extreme(*self, d, c3);
            }
            let w0 = m.apply(&c0);
            let w1 = m.apply(&c1);
            let w2 = m.apply(&c2);
            let w3 = m.apply(&c3);
            out.push(w0);
            out.push(w1);
            out.push(w2);
            out.push(w3);
            proof {
                assert(out@ =~= old(out)@ + self.face_corners(*m, d));
                assert(out@.subrange(0, old(out)@.len() as int) =~= old(out)@);
            }
        } else {
            proof {
                self.lemma_support_extreme(d);
            }
            let p = self.support_point_toward(m, dir);
            out.push(p);
            proof {
                let q = self.local_support(d);
                assert(self.contains(q) && m.in_range(q) && p == m.apply_spec(q) && dot(
                    self.local_support(d),
                    d,
                ) - dot(q, d) <= angle as int);
                assert(out@.subrange(0, old(out)@.len() as int) =~= old(out)@);
            }
        }
    }
}

/// A corner of the face whose outward normal is the axis-aligned direction
/// `d` is a point of the box and ties with the elected support point for
/// maximal projection along `d`.
proof fn lemma_face_corner_extreme(c: Cuboid, d: Vec3, q: Vec3)
    requires
        c.wf(),
        is_axis_aligned(d),
        c.contains(q),
        d.x != 0 ==> q.x == c.local_support(d).x,
        d.y != 0 ==> q.y == c.local_support(d).y,
        d.z != 0 ==> q.z == c.local_support(d).z,
    ensures
        dot(q, d) == dot(c.local_support(d), d),
{
    let s = c.local_support(d);
    if d.x == 0 {
        lemma_mul_zero(q.x as int, d.x as int);
        lemma_mul_zero(s.x as int, d.x as int);
    }
    if d.y == 0 {
        lemma_mul_zero(q.y as int, d.y as int);
        lemma_mul_zero(s.y as int, d.y as int);
    }
    if d.z == 0 {
        lemma_mul_zero(q.z as int, d.z as int);
        lemma_mul_zero(s.z as int, d.z as int);
    }
}

} // verus!
