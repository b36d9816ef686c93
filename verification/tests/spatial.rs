use oxen::camera::Camera;
use oxen::matrix::{Matrix4, Vector3};
use oxen::rat::Rat;
use oxen::transform::Transform;

fn rat(num: i64, den: i64) -> Rat {
    Rat::new(num, den)
}

fn transform(px: i64, py: i64, pz: i64, sx: i64, sy: i64, sz: i64, visible: bool) -> Transform {
    Transform::new(
        Rat::from_int(px),
        Rat::from_int(py),
        Rat::from_int(pz),
        Rat::from_int(0),
        Rat::from_int(0),
        Rat::from_int(0),
        Rat::from_int(sx),
        Rat::from_int(sy),
        Rat::from_int(sz),
        visible,
    )
}

/// Apply an affine matrix (column-major, translation in the last column) to
/// a point, the way the shader applies it to a vertex.
fn apply(m: &Matrix4, p: (Rat, Rat, Rat)) -> (Rat, Rat, Rat) {
    let x = m.c0.x.mul(p.0).add(m.c1.x.mul(p.1)).add(m.c2.x.mul(p.2)).add(m.c3.x);
    let y = m.c0.y.mul(p.0).add(m.c1.y.mul(p.1)).add(m.c2.y.mul(p.2)).add(m.c3.y);
    let z = m.c0.z.mul(p.0).add(m.c1.z.mul(p.1)).add(m.c2.z.mul(p.2)).add(m.c3.z);
    (x, y, z)
}

fn assert_rat_eq(a: Rat, b: Rat) {
    // Cross-multiplied equality: the two fractions denote the same rational.
    assert_eq!(a.num * b.den, b.num * a.den);
}

#[test]
fn rat_new_normalises_sign() {
    let r = rat(1, -2);
    assert_eq!(r.num, -1);
    assert_eq!(r.den, 2);
    let s = rat(3, 4);
    assert_eq!(s.num, 3);
    assert_eq!(s.den, 4);
}

#[test]
fn rat_arithmetic_is_exact() {
    let sum = rat(1, 2).add(rat(1, 3));
    assert_eq!(sum.num, 5);
    assert_eq!(sum.den, 6);
    let product = rat(2, 3).mul(rat(3, 4));
    assert_rat_eq(product, rat(1, 2));
    let negated = rat(5, 7).neg();
    assert_eq!(negated.num, -5);
    assert_eq!(negated.den, 7);
    let flipped = rat(-2, 3).recip();
    assert_eq!(flipped.num, -3);
    assert_eq!(flipped.den, 2);
}

#[test]
fn rat_can_add_detects_overflow() {
    let big = Rat { num: i128::MAX / 2 + 1, den: 1 };
    assert!(!big.can_add(big));
    assert!(rat(1, 2).can_add(rat(1, 3)));
}

#[test]
fn translate_moves_position_only() {
    let mut t = transform(1, 2, 3, 1, 1, 1, true);
    t.translate(Rat::from_int(10), Rat::from_int(-2), rat(1, 2));
    assert_rat_eq(t.position.x, Rat::from_int(11));
    assert_rat_eq(t.position.y, Rat::from_int(0));
    assert_rat_eq(t.position.z, rat(7, 2));
    assert_eq!(t.scale, Vector3 { x: rat(1, 1), y: rat(1, 1), z: rat(1, 1) });
    assert!(t.visible);
}

#[test]
fn model_matrix_holds_scale_and_position() {
    let t = transform(1, 2, 3, 4, 5, 6, true);
    let m = t.as_matrix();
    assert_eq!(m.c0.x, rat(4, 1));
    assert_eq!(m.c1.y, rat(5, 1));
    assert_eq!(m.c2.z, rat(6, 1));
    assert_eq!(m.c3.x, rat(1, 1));
    assert_eq!(m.c3.y, rat(2, 1));
    assert_eq!(m.c3.z, rat(3, 1));
    assert_eq!(m.c0.y, Rat { num: 0, den: 1 });
    assert_eq!(m.c3.w, Rat { num: 1, den: 1 });
}

#[test]
fn view_matrix_holds_reciprocal_scale_and_negated_position() {
    let t = transform(1, 2, 3, 2, 2, 2, true);
    let m = t.as_view_matrix();
    assert_eq!(m.c0.x, Rat { num: 1, den: 2 });
    assert_eq!(m.c1.y, Rat { num: 1, den: 2 });
    assert_eq!(m.c2.z, Rat { num: 1, den: 2 });
    assert_eq!(m.c3.x, Rat { num: -1, den: 1 });
    assert_eq!(m.c3.y, Rat { num: -2, den: 1 });
    assert_eq!(m.c3.z, Rat { num: -3, den: 1 });
}

#[test]
fn model_then_view_returns_point_for_unit_scale() {
    // Translation only: the view matrix undoes the model matrix exactly.
    let t = transform(1, 2, 3, 1, 1, 1, true);
    let p = (rat(10, 1), rat(-4, 1), rat(7, 2));
    let moved = apply(&t.as_matrix(), p);
    let back = apply(&t.as_view_matrix(), moved);
    assert_rat_eq(back.0, p.0);
    assert_rat_eq(back.1, p.1);
    assert_rat_eq(back.2, p.2);
}

#[test]
fn model_then_view_returns_point_for_pure_scale() {
    // Scale only: reciprocal scale undoes the model matrix exactly.
    let t = transform(0, 0, 0, 2, 4, 8, true);
    let p = (rat(3, 1), rat(-5, 1), rat(9, 4));
    let moved = apply(&t.as_matrix(), p);
    let back = apply(&t.as_view_matrix(), moved);
    assert_rat_eq(back.0, p.0);
    assert_rat_eq(back.1, p.1);
    assert_rat_eq(back.2, p.2);
}

#[test]
fn camera_view_transform_delegates_to_its_transform() {
    let camera = Camera { transform: transform(1, 2, 3, 2, 2, 2, true) };
    assert_eq!(camera.view_transform(), camera.transform.as_view_matrix());
}

#[test]
fn perspective_transform_is_exact() {
    let camera = Camera { transform: transform(0, 0, 0, 1, 1, 1, true) };
    let m = camera.perspective_transform(Rat::new(4, 3));
    // Focal factor one over the aspect ratio.
    assert_eq!(m.c0.x, Rat { num: 3, den: 4 });
    assert_eq!(m.c1.y, Rat { num: 1, den: 1 });
    // (far + near) / (near - far) and 2 * far * near / (near - far)
    // for near one tenth and far 1024.
    assert_eq!(m.c2.z, Rat { num: -10241, den: 10239 });
    assert_eq!(m.c2.w, Rat { num: -1, den: 1 });
    assert_eq!(m.c3.z, Rat { num: -2048, den: 10239 });
    assert_eq!(m.c3.w, Rat { num: 0, den: 1 });
}
