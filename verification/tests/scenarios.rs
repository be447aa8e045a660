//! Scenario tests: concrete shapes, poses and directions with exact
//! expected support points.

use support_map::cuboid::Cuboid;
use support_map::dir3::Dir3;
use support_map::polytope::ConvexPolytope;
use support_map::support_map::SupportMap;
use support_map::transform::Transform;
use support_map::vec3::Vec3;

/// A sphere, implemented outside the library as a consumer's shape would be:
/// only the required operation is provided, the derived ones come from the
/// trait's defaults.
struct Ball {
    radius: i64,
}

impl SupportMap for Ball {
    // The trait's ghost items (model and proof obligation) are compiled to
    // stubs that no executable path calls; an unverified consumer fills them
    // with plain runtime counterparts.
    fn wf(&self) -> bool {
        self.radius >= 0
    }

    fn contains(&self, p: Vec3) -> bool {
        let r = self.radius as i128;
        (p.x as i128) * (p.x as i128) + (p.y as i128) * (p.y as i128) + (p.z as i128) * (p.z
            as i128) <= r * r
    }

    fn local_support(&self, dir: Vec3) -> Vec3 {
        self.support_point(&Transform::identity(), &dir)
    }

    fn lemma_support_extreme(&self, _dir: Vec3) {}

    fn support_point(&self, m: &Transform, dir: &Vec3) -> Vec3 {
        let len = ((dir.x as f64).powi(2) + (dir.y as f64).powi(2) + (dir.z as f64).powi(2))
            .sqrt();
        let s = self.radius as f64 / len;
        Vec3 {
            x: m.translation.x + ((dir.x as f64) * s).round() as i64,
            y: m.translation.y + ((dir.y as f64) * s).round() as i64,
            z: m.translation.z + ((dir.z as f64) * s).round() as i64,
        }
    }
}

#[test]
fn sphere_support_along_x_axis() {
    let ball = Ball { radius: 7 };
    let id = Transform::identity();
    let p = ball.support_point(&id, &Vec3::new(1, 0, 0));
    assert_eq!(p, Vec3::new(7, 0, 0));
}

#[test]
fn box_support_along_diagonal() {
    let b = Cuboid::new(Vec3::new(1, 2, 3));
    assert!(b.is_well_formed());
    let id = Transform::identity();
    let p = b.support_point(&id, &Vec3::new(1, 1, 1));
    assert_eq!(p, Vec3::new(1, 2, 3));
}

#[test]
fn box_support_under_translation() {
    let b = Cuboid::new(Vec3::new(1, 2, 3));
    let m = Transform::translation(Vec3::new(5, 0, 0));
    let p = b.support_point(&m, &Vec3::new(1, 1, 1));
    assert_eq!(p, Vec3::new(6, 2, 3));
}

#[test]
fn box_area_toward_top_face_normal_appends_all_four_corners() {
    let b = Cuboid::new(Vec3::new(1, 2, 3));
    let id = Transform::identity();
    let up = Dir3::new(Vec3::new(0, 0, 1)).unwrap();
    let mut out: Vec<Vec3> = Vec::new();
    b.support_area_toward(&id, &up, 1, &mut out);
    assert_eq!(
        out,
        vec![
            Vec3::new(1, 2, 3),
            Vec3::new(-1, 2, 3),
            Vec3::new(-1, -2, 3),
            Vec3::new(1, -2, 3),
        ]
    );
}

#[test]
fn box_area_toward_negative_face_normal() {
    let b = Cuboid::new(Vec3::new(1, 2, 3));
    let id = Transform::identity();
    let down = Dir3::new(Vec3::new(0, -4, 0)).unwrap();
    let mut out: Vec<Vec3> = Vec::new();
    b.support_area_toward(&id, &down, 0, &mut out);
    assert_eq!(
        out,
        vec![
            Vec3::new(1, -2, 3),
            Vec3::new(-1, -2, 3),
            Vec3::new(-1, -2, -3),
            Vec3::new(1, -2, -3),
        ]
    );
}

#[test]
fn box_area_toward_skew_direction_appends_single_point() {
    let b = Cuboid::new(Vec3::new(1, 2, 3));
    let id = Transform::identity();
    let dir = Dir3::new(Vec3::new(1, 1, 1)).unwrap();
    let mut out: Vec<Vec3> = Vec::new();
    b.support_area_toward(&id, &dir, 5, &mut out);
    assert_eq!(out, vec![Vec3::new(1, 2, 3)]);
}

#[test]
fn box_tie_break_takes_positive_corner() {
    // Along a face normal every corner of that face ties; the elected point
    // carries the positive bound on the axes whose direction component is
    // zero.
    let b = Cuboid::new(Vec3::new(1, 2, 3));
    let id = Transform::identity();
    let p = b.support_point(&id, &Vec3::new(1, 0, 0));
    assert_eq!(p, Vec3::new(1, 2, 3));
}

#[test]
fn sphere_area_uses_the_one_point_default() {
    let ball = Ball { radius: 5 };
    let id = Transform::identity();
    let dir = Dir3::new(Vec3::new(0, 1, 0)).unwrap();
    let expected = ball.support_point_toward(&id, &dir);
    let mut out: Vec<Vec3> = Vec::new();
    ball.support_area_toward(&id, &dir, 3, &mut out);
    assert_eq!(out, vec![expected]);
    assert_eq!(expected, Vec3::new(0, 5, 0));
}

#[test]
fn area_accumulates_across_shapes() {
    // One accumulator serves several shapes in turn; earlier entries stay.
    let b = Cuboid::new(Vec3::new(1, 1, 1));
    let t = ConvexPolytope::new(vec![Vec3::new(0, 0, 9), Vec3::new(0, 0, -9)]);
    let id = Transform::identity();
    let up = Dir3::new(Vec3::new(0, 0, 2)).unwrap();
    let mut out: Vec<Vec3> = Vec::new();
    b.support_area_toward(&id, &up, 0, &mut out);
    assert_eq!(out.len(), 4);
    let face = out.clone();
    t.support_area_toward(&id, &up, 0, &mut out);
    assert_eq!(out.len(), 5);
    assert_eq!(&out[..4], &face[..]);
    assert_eq!(out[4], Vec3::new(0, 0, 9));
}

#[test]
fn polytope_support_picks_extreme_vertex() {
    let tetra = ConvexPolytope::new(vec![
        Vec3::new(0, 0, 0),
        Vec3::new(4, 0, 0),
        Vec3::new(0, 4, 0),
        Vec3::new(0, 0, 4),
    ]);
    assert!(tetra.is_well_formed());
    let id = Transform::identity();
    assert_eq!(tetra.support_point(&id, &Vec3::new(1, 0, 0)), Vec3::new(4, 0, 0));
    assert_eq!(tetra.support_point(&id, &Vec3::new(2, -1, -1)), Vec3::new(4, 0, 0));
    assert_eq!(tetra.support_point(&id, &Vec3::new(0, 0, 2)), Vec3::new(0, 0, 4));
    // The origin and (4, 0, 0) tie along (0, -1, -1); the lowest index wins.
    assert_eq!(tetra.support_point(&id, &Vec3::new(0, -1, -1)), Vec3::new(0, 0, 0));
}

#[test]
fn polytope_support_under_translation() {
    let square = ConvexPolytope::new(vec![
        Vec3::new(1, 1, 0),
        Vec3::new(-1, 1, 0),
        Vec3::new(-1, -1, 0),
        Vec3::new(1, -1, 0),
    ]);
    let m = Transform::translation(Vec3::new(10, 20, 30));
    assert_eq!(m.apply(&Vec3::new(1, 2, 3)), Vec3::new(11, 22, 33));
    assert_eq!(square.support_point(&m, &Vec3::new(1, 1, 0)), Vec3::new(11, 21, 30));
}

#[test]
fn polytope_tie_break_takes_lowest_index() {
    // (1, 0, 0) and (0, 1, 0) tie along (1, 1, 0); the scan keeps the
    // earliest maximal vertex.
    let wedge = ConvexPolytope::new(vec![
        Vec3::new(0, 1, 0),
        Vec3::new(1, 0, 0),
        Vec3::new(0, 0, -1),
    ]);
    let id = Transform::identity();
    assert_eq!(wedge.support_point(&id, &Vec3::new(1, 1, 0)), Vec3::new(0, 1, 0));
}
