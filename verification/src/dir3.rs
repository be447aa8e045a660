//! Query directions certified non-zero.
//!
//! The convenience form of a support query takes a direction whose validity
//! the caller has already established. For floating-point geometry the
//! natural certificate is unit length; in this exact integer model the
//! certificate is non-zeroness, the one property the support-mapping
//! contract actually needs (the set of extreme points of a convex shape is
//! unchanged by positive rescaling of the direction).

use crate::vec3::{is_zero, Vec3};
use vstd::prelude::*;

verus! {

/// A direction known to be non-zero, wrapping the vector it certifies.
#[derive(Clone, Copy, PartialEq, Eq, Structural, Debug)]
pub struct Dir3 {
    /// The underlying direction vector.
    pub v: Vec3,
}

impl Dir3 {
    /// The certificate this type carries: the wrapped vector is non-zero.
    pub open spec fn wf(self) -> bool {
        !is_zero(self.v)
    }

    /// Certifies `v` as a direction; `None` exactly when `v` is zero.
    pub fn new(v: Vec3) -> (r: Option<Dir3>)
        ensures
            r is Some <==> !is_zero(v),
            r is Some ==> r->0 == (Dir3 { v }) && r->0.wf(),
    {
        if v.is_zero() {
            None
        } else {
            Some(Dir3 { v })
        }
    }

    /// The wrapped direction vector.
    pub fn as_vec(&self) -> (r: &Vec3)
        ensures
            *r == self.v,
    {
        &self.v
    }
}

} // verus!
