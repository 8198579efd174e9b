use approx::AbsDiffEq;
use cga::d3::direction::DVector;
use cga::d3::dual::DLine;
use cga::d3::dual::DPlane;
use cga::d3::dual::DSphere;
use cga::d3::flat::FPoint;
use cga::d3::free::Bivector;
use cga::d3::free::Trivector;
use cga::d3::free::Vector;
use cga::d3::round::origin;
use cga::d3::tangent::TBivector;
use cga::d3::tangent::TVector;
use cga::d3::transform::Motor;
use cga::d3::transform::Rotor;
use cga::d3::transform::Translator;
use cga::d3::Circle;
use cga::d3::Line;
use cga::d3::Pair;
use cga::d3::Plane;
use cga::d3::Point;
use cga::d3::Sphere;
use cga::d3::Transform;
use cga::Dual;
use cga::Euclidean;
use cga::Field;
use cga::Hyperbolic;
use cga::Inner;
use cga::Meet;
use cga::Multivec;
use cga::Outer;
use cga::Reflect;
use cga::Scalar;
use cga::Spherical;
use cga::R410;
use std::marker::PhantomData;

/// A double-precision float as a scalar of the algebra.
#[derive(Clone, Copy, Debug, PartialEq, PartialOrd, Default)]
struct F(f64);

impl Field for F {
    fn zero_spec() -> F {
        F(0.0)
    }
    fn one_spec() -> F {
        F(1.0)
    }
    fn add_spec(self, rhs: F) -> F {
        F(self.0 + rhs.0)
    }
    fn sub_spec(self, rhs: F) -> F {
        F(self.0 - rhs.0)
    }
    fn mul_spec(self, rhs: F) -> F {
        F(self.0 * rhs.0)
    }
    fn neg_spec(self) -> F {
        F(-self.0)
    }
    fn recip_spec(self) -> F {
        F(1.0 / self.0)
    }
    fn abs_spec(self) -> F {
        F(self.0.abs())
    }
    fn sqrt_spec(self) -> F {
        F(self.0.sqrt())
    }
    fn has_sqrt_spec(self) -> bool {
        self.0 >= 0.0
    }
    fn sin_spec(self) -> F {
        F(self.0.sin())
    }
    fn cos_spec(self) -> F {
        F(self.0.cos())
    }
    fn is_zero_spec(self) -> bool {
        self.0 == 0.0
    }
    fn zero() -> F {
        F(0.0)
    }
    fn one() -> F {
        F(1.0)
    }
    fn add(self, rhs: F) -> F {
        F(self.0 + rhs.0)
    }
    fn sub(self, rhs: F) -> F {
        F(self.0 - rhs.0)
    }
    fn mul(self, rhs: F) -> F {
        F(self.0 * rhs.0)
    }
    fn neg(self) -> F {
        F(-self.0)
    }
    fn recip(self) -> F {
        F(1.0 / self.0)
    }
    fn abs(self) -> F {
        F(self.0.abs())
    }
    fn sqrt(self) -> F {
        F(self.0.sqrt())
    }
    fn try_sqrt(self) -> Option<F> {
        if self.0 >= 0.0 {
            Some(F(self.0.sqrt()))
        } else {
            None
        }
    }
    fn sin_cos(self) -> (F, F) {
        let (s, c) = self.0.sin_cos();
        (F(s), F(c))
    }
    fn is_zero(self) -> bool {
        self.0 == 0.0
    }
}

/// A single-precision float as a scalar of the algebra.
#[derive(Clone, Copy, Debug, PartialEq, PartialOrd, Default)]
struct G(f32);

impl Field for G {
    fn zero_spec() -> G {
        G(0.0)
    }
    fn one_spec() -> G {
        G(1.0)
    }
    fn add_spec(self, rhs: G) -> G {
        G(self.0 + rhs.0)
    }
    fn sub_spec(self, rhs: G) -> G {
        G(self.0 - rhs.0)
    }
    fn mul_spec(self, rhs: G) -> G {
        G(self.0 * rhs.0)
    }
    fn neg_spec(self) -> G {
        G(-self.0)
    }
    fn recip_spec(self) -> G {
        G(1.0 / self.0)
    }
    fn abs_spec(self) -> G {
        G(self.0.abs())
    }
    fn sqrt_spec(self) -> G {
        G(self.0.sqrt())
    }
    fn has_sqrt_spec(self) -> bool {
        self.0 >= 0.0
    }
    fn sin_spec(self) -> G {
        G(self.0.sin())
    }
    fn cos_spec(self) -> G {
        G(self.0.cos())
    }
    fn is_zero_spec(self) -> bool {
        self.0 == 0.0
    }
    fn zero() -> G {
        G(0.0)
    }
    fn one() -> G {
        G(1.0)
    }
    fn add(self, rhs: G) -> G {
        G(self.0 + rhs.0)
    }
    fn sub(self, rhs: G) -> G {
        G(self.0 - rhs.0)
    }
    fn mul(self, rhs: G) -> G {
        G(self.0 * rhs.0)
    }
    fn neg(self) -> G {
        G(-self.0)
    }
    fn recip(self) -> G {
        G(1.0 / self.0)
    }
    fn abs(self) -> G {
        G(self.0.abs())
    }
    fn sqrt(self) -> G {
        G(self.0.sqrt())
    }
    fn try_sqrt(self) -> Option<G> {
        if self.0 >= 0.0 {
            Some(G(self.0.sqrt()))
        } else {
            None
        }
    }
    fn sin_cos(self) -> (G, G) {
        let (s, c) = self.0.sin_cos();
        (G(s), G(c))
    }
    fn is_zero(self) -> bool {
        self.0 == 0.0
    }
}

fn vector(x: f64, y: f64, z: f64) -> Vector<F> {
    Vector::new(F(x), F(y), F(z))
}

fn point(x: f64, y: f64, z: f64) -> Point<F> {
    Point::from([F(x), F(y), F(z)])
}

fn bivector(e12: f64, e13: f64, e23: f64) -> Bivector<F> {
    Bivector { e12: F(e12), e13: F(e13), e23: F(e23) }
}

fn close(a: Point<F>, b: Point<F>) -> bool {
    let eps = f64::default_epsilon();
    f64::abs_diff_eq(&a.e1.0, &b.e1.0, eps)
        && f64::abs_diff_eq(&a.e2.0, &b.e2.0, eps)
        && f64::abs_diff_eq(&a.e3.0, &b.e3.0, eps)
        && f64::abs_diff_eq(&a.ep.0, &b.ep.0, eps)
        && f64::abs_diff_eq(&a.en.0, &b.en.0, eps)
}

#[test]
fn test_position_on() {
    let p1 = point(1.0, 0.0, 0.0);
    let p2 = point(3.0, 4.0, 5.0);

    let l1 = p1.outer(p2).extend();
    let l2 = p2.outer(p1).extend();
    assert_eq!(l1.position_on(p1), Some(F(2.0)));
    assert_eq!(l1.position_on(p2), Some(F(47.0)));
    assert_eq!(l2.position_on(p1), Some(F(-2.0)));
    assert_eq!(l2.position_on(p2), Some(F(-47.0)));
    assert!(
        l1.position_on(p1).unwrap() < l1.position_on(p2).unwrap(),
        "pos1: {:?}, pos2: {:?}",
        l1.position_on(p1),
        l1.position_on(p2)
    );
    assert!(
        l2.position_on(p1).unwrap() > l2.position_on(p2).unwrap(),
        "pos1: {:?}, pos2: {:?}",
        l2.position_on(p1),
        l2.position_on(p2)
    );

    let v = vector(3.0, 4.0, 5.0).normalize();
    let l = p1.extend_along_vec(v.as_direction());
    let p2 = v.into_translator::<Euclidean>().transform(p1);
    let p3 = v.mul_scalar(F(-0.5)).into_translator::<Euclidean>().transform(p1);
    assert!(
        l.position_on(p1).unwrap() < l.position_on(p2).unwrap(),
        "pos1: {:?}, pos2: {:?}",
        l1.position_on(p1),
        l1.position_on(p2)
    );
    assert!(
        l.position_on(p3).unwrap() < l.position_on(p1).unwrap(),
        "pos1: {:?}, pos2: {:?}",
        l1.position_on(p3),
        l1.position_on(p1)
    );

    assert_eq!(l1.position_on(Point::ni()), None);
    assert_eq!(l2.position_on(Point::ni()), None);
    assert_eq!(l.position_on(Point::ni()), None);

    assert_eq!(l1.position_on(Point::no()), Some(F(-0.0)));
    assert_eq!(l2.position_on(Point::no()), Some(F(-0.0)));
    assert_eq!(l.position_on(Point::no()), Some(F(-0.0)));
}

#[test]
fn point_test_extend() {
    let d = vector(-1.0, 1.0, -4.0);
    let v1 = vector(1.0, 2.0, 4.0);
    let p1: Point<F> = Point::new(v1);
    let p2: Point<F> = Point::new(v1.add(d));

    let l1 = p1.outer(p2.into_flat());
    let l2 = p2.outer(p1.into_flat());
    assert_eq!(p1.into_flat().extend_along_vec(d), l1);
    assert_eq!(p2.into_flat().extend_along_vec(d), l1);
    assert_eq!(p2.into_flat().extend_along_vec(d.neg()), l2);
    assert_eq!(p1.into_flat().extend_along_vec(d.neg()), l2);
}

#[test]
fn norm_squared() {
    let e12 = bivector(1.0, 0.0, 0.0);
    let e13 = bivector(0.0, 1.0, 0.0);
    let e23 = bivector(0.0, 0.0, 1.0);

    assert_eq!(e12.norm_squared(), F(1.0));
    assert_eq!(e13.norm_squared(), F(1.0));
    assert_eq!(e23.norm_squared(), F(1.0));

    let b1 = bivector(3.0, 4.0, 0.0);
    assert_eq!(b1.norm_squared(), F(25.0));

    let zero = bivector(0.0, 0.0, 0.0);
    assert_eq!(zero.norm_squared(), F(0.0));
}

#[test]
fn norm() {
    let e12 = bivector(1.0, 0.0, 0.0);
    let e13 = bivector(0.0, 1.0, 0.0);
    let e23 = bivector(0.0, 0.0, 1.0);

    assert_eq!(e12.norm(), F(1.0));
    assert_eq!(e13.norm(), F(1.0));
    assert_eq!(e23.norm(), F(1.0));

    let b1 = bivector(3.0, 4.0, 0.0);
    assert_eq!(b1.norm(), F(5.0));

    let zero = bivector(0.0, 0.0, 0.0);
    assert_eq!(zero.norm(), F(0.0));
}

#[test]
fn test_norm() {
    let o = vector(0.0, 0.0, 0.0);
    let p1 = vector(1.0, 0.0, 0.0);
    let p2 = vector(3.0, 4.0, 5.0);
    let p3 = vector(3.0, 4.0, 0.0);

    assert_eq!(o.norm_squared(), F(0.0));
    assert_eq!(p1.norm_squared(), F(1.0));
    assert_eq!(p2.norm_squared(), F(50.0));
    assert_eq!(p3.norm_squared(), F(25.0));
    assert_eq!(o.norm(), F(0.0));
    assert_eq!(p1.norm(), F(1.0));
    assert_eq!(p3.norm(), F(5.0));

    // Triangle inequality
    assert!(p1.add(p2).norm() <= p1.norm().add(p2.norm()));
    assert!(p1.add(p3).norm() <= p1.norm().add(p3.norm()));
    assert!(p2.add(p3).norm() <= p2.norm().add(p3.norm()));
}

#[test]
fn test_decompose() {
    let p1 = point(1.0, 0.0, 0.0).normalize();
    let p2 = point(3.0, 4.0, 5.0).normalize();
    let p3 = point(3.0, 4.0, 0.0).normalize();

    assert_eq!(p1.outer(p2).decompose(), Some((p1, p2)));
    assert_eq!(p1.outer(p3).decompose(), Some((p1, p3)));
    assert_eq!(p2.outer(p3).decompose(), Some((p2, p3)));
    assert_eq!(p2.outer(p1).decompose(), Some((p2, p1)));
    assert_eq!(p3.outer(p1).decompose(), Some((p3, p1)));
    assert_eq!(p3.outer(p2).decompose(), Some((p3, p2)));

    assert_eq!(p1.outer(Point::ni()).decompose(), None);
    assert_eq!(p2.outer(Point::ni()).decompose(), None);
    assert_eq!(p3.outer(Point::ni()).decompose(), None);

    assert_eq!(Point::ni().outer(p1).decompose(), None);
    assert_eq!(Point::ni().outer(p2).decompose(), None);
    assert_eq!(Point::ni().outer(p3).decompose(), None);
}

#[test]
fn test_pair() {
    let p1 = point(1.0, 2.0, 4.0);
    let p2 = point(0.0, 3.0, 0.0);
    assert_eq!(
        p1,
        Point {
            e1: F(1.0),
            e2: F(2.0),
            e3: F(4.0),
            ep: F(10.0),
            en: F(11.0),
            _pd: PhantomData,
        }
    );
    assert_eq!(
        p2,
        Point {
            e1: F(0.0),
            e2: F(3.0),
            e3: F(0.0),
            ep: F(4.0),
            en: F(5.0),
            _pd: PhantomData,
        }
    );

    let p = p1.outer(p2);
    assert_eq!(
        p,
        Pair {
            e12: F(3.0),
            e13: F(0.0),
            e23: F(-12.0),
            e1p: F(4.0),
            e1n: F(5.0),
            e2p: F(-22.0),
            e2n: F(-23.0),
            e3p: F(16.0),
            e3n: F(20.0),
            epn: F(6.0),
            _pd: PhantomData,
        }
    );
}

#[test]
fn test_distance() {
    let v1 = Vector::new(G(1.0_f32), G(2.0), G(4.0));
    let v2 = Vector::new(G(0.0), G(3.0), G(0.0));
    let p1: Point<G> = v1.into_point();
    let p2: Point<G> = v2.into_point();

    assert_eq!(p1.distance(p2), v1.sub(v2).norm());
    assert_eq!(p1.from_origin(), Some(v1));
    assert_eq!(p2.from_origin(), Some(v2));
    assert_eq!(
        Point::<G>::no().from_origin(),
        Some(Vector::new(G(0.0_f32), G(0.0), G(0.0)))
    );
    assert_eq!(Point::<G>::ni().from_origin(), None);
}

#[test]
fn test_extend() {
    let d = vector(-1.0, 1.0, -4.0);
    let v1 = vector(1.0, 2.0, 4.0);
    let p1: Point<F> = Point::new(v1);
    let p2: Point<F> = Point::new(v1.add(d));

    let l1 = p1.outer(p2).extend();
    let l2 = p2.outer(p1).extend();
    let d = d.as_direction();
    assert_eq!(p1.extend_along_vec(d), l1);
    assert_eq!(p2.extend_along_vec(d), l1);
    assert_eq!(p2.extend_along_vec(d.neg()), l2);
    assert_eq!(p1.extend_along_vec(d.neg()), l2);
}

#[test]
fn test_center() {
    let p1 = point(1.0, 0.0, 0.0).normalize();
    let p2 = point(3.0, 4.0, 5.0).normalize();
    let p3 = point(3.0, 4.0, 0.0).normalize();

    assert!(close(p1.into_sphere(F(1.0)).undual().center(), p1));
    assert!(close(p2.into_sphere(F(1.0)).undual().center(), p2));
    assert!(close(p3.into_sphere(F(1.0)).undual().center(), p3));

    assert!(close(p1.into_sphere(F(5.0)).undual().center(), p1));
    assert!(close(p2.into_sphere(F(5.0)).undual().center(), p2));
    assert!(close(p3.into_sphere(F(5.0)).undual().center(), p3));

    assert!(close(p1.into_sphere(F(0.2)).undual().center(), p1));
    assert!(close(p2.into_sphere(F(0.2)).undual().center(), p2));
    assert!(close(p3.into_sphere(F(0.2)).undual().center(), p3));
}

#[test]
fn test_from_vec() {
    let v1 = vector(1.0, 0.0, 0.0);
    let v2 = vector(3.0, 4.0, 5.0);
    let v3 = vector(3.0, 4.0, 0.0);

    assert_eq!(
        v1.into_translator::<Euclidean>().transform(v2.into_point()),
        v1.add(v2).into_point::<Euclidean>()
    );
    assert_eq!(
        v2.into_translator::<Euclidean>().transform(v1.into_point()),
        v1.add(v2).into_point::<Euclidean>()
    );
    assert_eq!(
        v1.into_translator::<Euclidean>().transform(v3.into_point()),
        v1.add(v3).into_point::<Euclidean>()
    );
    assert_eq!(
        v3.into_translator::<Euclidean>().transform(v1.into_point()),
        v1.add(v3).into_point::<Euclidean>()
    );
    assert_eq!(
        v3.into_translator::<Euclidean>().transform(v2.into_point()),
        v3.add(v2).into_point::<Euclidean>()
    );
    assert_eq!(
        v2.into_translator::<Euclidean>().transform(v3.into_point()),
        v3.add(v2).into_point::<Euclidean>()
    );
}

#[test]
fn test_from_points() {
    let v1 = vector(1.0, 0.0, 0.0);
    let v2 = vector(3.0, 4.0, 5.0);
    let v3 = vector(3.0, 4.0, 0.0);

    assert_eq!(
        v1.sub(v2).mul_scalar(F(2.0)).into_translator::<Euclidean>(),
        v1.into_point::<Euclidean>().into_flat().mul(v2.into_point().into_flat())
    );
    assert_eq!(
        v1.sub(v3).mul_scalar(F(2.0)).into_translator::<Euclidean>(),
        v1.into_point::<Euclidean>().into_flat().mul(v3.into_point().into_flat())
    );
    assert_eq!(
        v2.sub(v3).mul_scalar(F(2.0)).into_translator::<Euclidean>(),
        v2.into_point::<Euclidean>().into_flat().mul(v3.into_point().into_flat())
    );
    assert_eq!(
        v2.sub(v1).mul_scalar(F(2.0)).into_translator::<Euclidean>(),
        v2.into_point::<Euclidean>().into_flat().mul(v1.into_point().into_flat())
    );
    assert_eq!(
        v3.sub(v1).mul_scalar(F(2.0)).into_translator::<Euclidean>(),
        v3.into_point::<Euclidean>().into_flat().mul(v1.into_point().into_flat())
    );
    assert_eq!(
        v3.sub(v2).mul_scalar(F(2.0)).into_translator::<Euclidean>(),
        v3.into_point::<Euclidean>().into_flat().mul(v2.into_point().into_flat())
    );
}

#[test]
fn values_survive_the_way_through_the_multivector() {
    let full: R410<F> = R410 { s: F(1.0), e1: F(2.0), e2: F(3.0), e3: F(4.0), ep: F(5.0), en: F(6.0), e12: F(7.0), e13: F(8.0), e1p: F(9.0), e1n: F(10.0), e23: F(11.0), e2p: F(12.0), e2n: F(13.0), e3p: F(14.0), e3n: F(15.0), epn: F(16.0), e123: F(17.0), e12p: F(18.0), e12n: F(19.0), e13p: F(20.0), e13n: F(21.0), e1pn: F(22.0), e23p: F(23.0), e23n: F(24.0), e2pn: F(25.0), e3pn: F(26.0), e123p: F(27.0), e123n: F(28.0), e12pn: F(29.0), e13pn: F(30.0), e23pn: F(31.0), e123pn: F(32.0), ..R410::zero() };
    let x = Vector { e1: F(1.5), e2: F(2.5), e3: F(3.5) };
    assert_eq!(x.into_mv(), R410 { e1: F(1.5), e2: F(2.5), e3: F(3.5), ..R410::zero() });
    assert_eq!(Vector::from_mv(x.into_mv()), x);
    assert_eq!(Vector::from_mv(full), Vector { e1: F(2.0), e2: F(3.0), e3: F(4.0) });
    let x = Bivector { e12: F(2.0), e13: F(3.0), e23: F(4.0) };
    assert_eq!(x.into_mv(), R410 { e12: F(2.0), e13: F(3.0), e23: F(4.0), ..R410::zero() });
    assert_eq!(Bivector::from_mv(x.into_mv()), x);
    assert_eq!(Bivector::from_mv(full), Bivector { e12: F(7.0), e13: F(8.0), e23: F(11.0) });
    let x = Trivector { e123: F(2.5) };
    assert_eq!(x.into_mv(), R410 { e123: F(2.5), ..R410::zero() });
    assert_eq!(Trivector::from_mv(x.into_mv()), x);
    assert_eq!(Trivector::from_mv(full), Trivector { e123: F(17.0) });
    let x = DVector { e1i: F(3.0), e2i: F(4.0), e3i: F(5.0), _pd: PhantomData::<Euclidean> };
    assert_eq!(x.into_mv(), R410 { e1p: F(3.0), e1n: F(3.0), e2p: F(4.0), e2n: F(4.0), e3p: F(5.0), e3n: F(5.0), ..R410::zero() });
    assert_eq!(DVector::from_mv(x.into_mv()), x);
    assert_eq!(DVector::from_mv(full), DVector { e1i: F(9.0), e2i: F(12.0), e3i: F(14.0), _pd: PhantomData::<Euclidean> });
    let x = DVector { e1i: F(3.5), e2i: F(4.5), e3i: F(5.5), _pd: PhantomData::<Hyperbolic> };
    assert_eq!(x.into_mv(), R410 { e1p: F(3.5), e2p: F(4.5), e3p: F(5.5), ..R410::zero() });
    assert_eq!(DVector::from_mv(x.into_mv()), x);
    assert_eq!(DVector::from_mv(full), DVector { e1i: F(9.0), e2i: F(12.0), e3i: F(14.0), _pd: PhantomData::<Hyperbolic> });
    let x = DVector { e1i: F(4.0), e2i: F(5.0), e3i: F(6.0), _pd: PhantomData::<Spherical> };
    assert_eq!(x.into_mv(), R410 { e1n: F(4.0), e2n: F(5.0), e3n: F(6.0), ..R410::zero() });
    assert_eq!(DVector::from_mv(x.into_mv()), x);
    assert_eq!(DVector::from_mv(full), DVector { e1i: F(10.0), e2i: F(13.0), e3i: F(15.0), _pd: PhantomData::<Spherical> });
    let x = DLine { e12: F(4.5), e13: F(5.5), e23: F(6.5), e1i: F(7.5), e2i: F(8.5), e3i: F(9.5), _pd: PhantomData::<Euclidean> };
    assert_eq!(x.into_mv(), R410 { e12: F(4.5), e13: F(5.5), e1p: F(7.5), e1n: F(7.5), e23: F(6.5), e2p: F(8.5), e2n: F(8.5), e3p: F(9.5), e3n: F(9.5), ..R410::zero() });
    assert_eq!(DLine::from_mv(x.into_mv()), x);
    assert_eq!(DLine::from_mv(full), DLine { e12: F(7.0), e13: F(8.0), e23: F(11.0), e1i: F(9.0), e2i: F(12.0), e3i: F(14.0), _pd: PhantomData::<Euclidean> });
    let x = DLine { e12: F(5.0), e13: F(6.0), e23: F(7.0), e1i: F(8.0), e2i: F(9.0), e3i: F(10.0), _pd: PhantomData::<Hyperbolic> };
    assert_eq!(x.into_mv(), R410 { e12: F(5.0), e13: F(6.0), e1p: F(8.0), e23: F(7.0), e2p: F(9.0), e3p: F(10.0), ..R410::zero() });
    assert_eq!(DLine::from_mv(x.into_mv()), x);
    assert_eq!(DLine::from_mv(full), DLine { e12: F(7.0), e13: F(8.0), e23: F(11.0), e1i: F(9.0), e2i: F(12.0), e3i: F(14.0), _pd: PhantomData::<Hyperbolic> });
    let x = DLine { e12: F(5.5), e13: F(6.5), e23: F(7.5), e1i: F(8.5), e2i: F(9.5), e3i: F(10.5), _pd: PhantomData::<Spherical> };
    assert_eq!(x.into_mv(), R410 { e12: F(5.5), e13: F(6.5), e1n: F(8.5), e23: F(7.5), e2n: F(9.5), e3n: F(10.5), ..R410::zero() });
    assert_eq!(DLine::from_mv(x.into_mv()), x);
    assert_eq!(DLine::from_mv(full), DLine { e12: F(7.0), e13: F(8.0), e23: F(11.0), e1i: F(10.0), e2i: F(13.0), e3i: F(15.0), _pd: PhantomData::<Spherical> });
    let x = DPlane { e1: F(6.0), e2: F(7.0), e3: F(8.0), ei: F(9.0), _pd: PhantomData::<Euclidean> };
    assert_eq!(x.into_mv(), R410 { e1: F(6.0), e2: F(7.0), e3: F(8.0), ep: F(9.0), en: F(9.0), ..R410::zero() });
    assert_eq!(DPlane::from_mv(x.into_mv()), x);
    assert_eq!(DPlane::from_mv(full), DPlane { e1: F(2.0), e2: F(3.0), e3: F(4.0), ei: F(5.0), _pd: PhantomData::<Euclidean> });
    let x = DPlane { e1: F(6.5), e2: F(7.5), e3: F(8.5), ei: F(9.5), _pd: PhantomData::<Hyperbolic> };
    assert_eq!(x.into_mv(), R410 { e1: F(6.5), e2: F(7.5), e3: F(8.5), ep: F(9.5), ..R410::zero() });
    assert_eq!(DPlane::from_mv(x.into_mv()), x);
    assert_eq!(DPlane::from_mv(full), DPlane { e1: F(2.0), e2: F(3.0), e3: F(4.0), ei: F(5.0), _pd: PhantomData::<Hyperbolic> });
    let x = DPlane { e1: F(7.0), e2: F(8.0), e3: F(9.0), ei: F(10.0), _pd: PhantomData::<Spherical> };
    assert_eq!(x.into_mv(), R410 { e1: F(7.0), e2: F(8.0), e3: F(9.0), en: F(10.0), ..R410::zero() });
    assert_eq!(DPlane::from_mv(x.into_mv()), x);
    assert_eq!(DPlane::from_mv(full), DPlane { e1: F(2.0), e2: F(3.0), e3: F(4.0), ei: F(6.0), _pd: PhantomData::<Spherical> });
    let x = DSphere { e1: F(7.5), e2: F(8.5), e3: F(9.5), ep: F(10.5), en: F(11.5), _pd: PhantomData::<Euclidean> };
    assert_eq!(x.into_mv(), R410 { e1: F(7.5), e2: F(8.5), e3: F(9.5), ep: F(10.5), en: F(11.5), ..R410::zero() });
    assert_eq!(DSphere::from_mv(x.into_mv()), x);
    assert_eq!(DSphere::from_mv(full), DSphere { e1: F(2.0), e2: F(3.0), e3: F(4.0), ep: F(5.0), en: F(6.0), _pd: PhantomData::<Euclidean> });
    let x = DSphere { e1: F(8.0), e2: F(9.0), e3: F(10.0), ep: F(11.0), en: F(12.0), _pd: PhantomData::<Hyperbolic> };
    assert_eq!(x.into_mv(), R410 { e1: F(8.0), e2: F(9.0), e3: F(10.0), ep: F(11.0), en: F(12.0), ..R410::zero() });
    assert_eq!(DSphere::from_mv(x.into_mv()), x);
    assert_eq!(DSphere::from_mv(full), DSphere { e1: F(2.0), e2: F(3.0), e3: F(4.0), ep: F(5.0), en: F(6.0), _pd: PhantomData::<Hyperbolic> });
    let x = DSphere { e1: F(8.5), e2: F(9.5), e3: F(10.5), ep: F(11.5), en: F(12.5), _pd: PhantomData::<Spherical> };
    assert_eq!(x.into_mv(), R410 { e1: F(8.5), e2: F(9.5), e3: F(10.5), ep: F(11.5), en: F(12.5), ..R410::zero() });
    assert_eq!(DSphere::from_mv(x.into_mv()), x);
    assert_eq!(DSphere::from_mv(full), DSphere { e1: F(2.0), e2: F(3.0), e3: F(4.0), ep: F(5.0), en: F(6.0), _pd: PhantomData::<Spherical> });
    let x = Line { e12i: F(9.0), e13i: F(10.0), e23i: F(11.0), e1pn: F(12.0), e2pn: F(13.0), e3pn: F(14.0), _pd: PhantomData::<Euclidean> };
    assert_eq!(x.into_mv(), R410 { e12p: F(9.0), e12n: F(9.0), e13p: F(10.0), e13n: F(10.0), e1pn: F(12.0), e23p: F(11.0), e23n: F(11.0), e2pn: F(13.0), e3pn: F(14.0), ..R410::zero() });
    assert_eq!(Line::from_mv(x.into_mv()), x);
    assert_eq!(Line::from_mv(full), Line { e12i: F(18.0), e13i: F(20.0), e23i: F(23.0), e1pn: F(22.0), e2pn: F(25.0), e3pn: F(26.0), _pd: PhantomData::<Euclidean> });
    let x = Line { e12i: F(9.5), e13i: F(10.5), e23i: F(11.5), e1pn: F(12.5), e2pn: F(13.5), e3pn: F(14.5), _pd: PhantomData::<Hyperbolic> };
    assert_eq!(x.into_mv(), R410 { e12p: F(9.5), e13p: F(10.5), e1pn: F(12.5), e23p: F(11.5), e2pn: F(13.5), e3pn: F(14.5), ..R410::zero() });
    assert_eq!(Line::from_mv(x.into_mv()), x);
    assert_eq!(Line::from_mv(full), Line { e12i: F(18.0), e13i: F(20.0), e23i: F(23.0), e1pn: F(22.0), e2pn: F(25.0), e3pn: F(26.0), _pd: PhantomData::<Hyperbolic> });
    let x = Line { e12i: F(10.0), e13i: F(11.0), e23i: F(12.0), e1pn: F(13.0), e2pn: F(14.0), e3pn: F(15.0), _pd: PhantomData::<Spherical> };
    assert_eq!(x.into_mv(), R410 { e12n: F(10.0), e13n: F(11.0), e1pn: F(13.0), e23n: F(12.0), e2pn: F(14.0), e3pn: F(15.0), ..R410::zero() });
    assert_eq!(Line::from_mv(x.into_mv()), x);
    assert_eq!(Line::from_mv(full), Line { e12i: F(19.0), e13i: F(21.0), e23i: F(24.0), e1pn: F(22.0), e2pn: F(25.0), e3pn: F(26.0), _pd: PhantomData::<Spherical> });
    let x = Plane { e123i: F(10.5), e12pn: F(11.5), e13pn: F(12.5), e23pn: F(13.5), _pd: PhantomData::<Euclidean> };
    assert_eq!(x.into_mv(), R410 { e123p: F(10.5), e123n: F(10.5), e12pn: F(11.5), e13pn: F(12.5), e23pn: F(13.5), ..R410::zero() });
    assert_eq!(Plane::from_mv(x.into_mv()), x);
    assert_eq!(Plane::from_mv(full), Plane { e123i: F(27.0), e12pn: F(29.0), e13pn: F(30.0), e23pn: F(31.0), _pd: PhantomData::<Euclidean> });
    let x = Plane { e123i: F(11.0), e12pn: F(12.0), e13pn: F(13.0), e23pn: F(14.0), _pd: PhantomData::<Hyperbolic> };
    assert_eq!(x.into_mv(), R410 { e123p: F(11.0), e12pn: F(12.0), e13pn: F(13.0), e23pn: F(14.0), ..R410::zero() });
    assert_eq!(Plane::from_mv(x.into_mv()), x);
    assert_eq!(Plane::from_mv(full), Plane { e123i: F(27.0), e12pn: F(29.0), e13pn: F(30.0), e23pn: F(31.0), _pd: PhantomData::<Hyperbolic> });
    let x = Plane { e123i: F(11.5), e12pn: F(12.5), e13pn: F(13.5), e23pn: F(14.5), _pd: PhantomData::<Spherical> };
    assert_eq!(x.into_mv(), R410 { e123n: F(11.5), e12pn: F(12.5), e13pn: F(13.5), e23pn: F(14.5), ..R410::zero() });
    assert_eq!(Plane::from_mv(x.into_mv()), x);
    assert_eq!(Plane::from_mv(full), Plane { e123i: F(28.0), e12pn: F(29.0), e13pn: F(30.0), e23pn: F(31.0), _pd: PhantomData::<Spherical> });
    let x = FPoint { e1i: F(12.0), e2i: F(13.0), e3i: F(14.0), epn: F(15.0), _pd: PhantomData::<Euclidean> };
    assert_eq!(x.into_mv(), R410 { e1p: F(12.0), e1n: F(12.0), e2p: F(13.0), e2n: F(13.0), e3p: F(14.0), e3n: F(14.0), epn: F(15.0), ..R410::zero() });
    assert_eq!(FPoint::from_mv(x.into_mv()), x);
    assert_eq!(FPoint::from_mv(full), FPoint { e1i: F(9.0), e2i: F(12.0), e3i: F(14.0), epn: F(16.0), _pd: PhantomData::<Euclidean> });
    let x = FPoint { e1i: F(12.5), e2i: F(13.5), e3i: F(14.5), epn: F(15.5), _pd: PhantomData::<Hyperbolic> };
    assert_eq!(x.into_mv(), R410 { e1p: F(12.5), e2p: F(13.5), e3p: F(14.5), epn: F(15.5), ..R410::zero() });
    assert_eq!(FPoint::from_mv(x.into_mv()), x);
    assert_eq!(FPoint::from_mv(full), FPoint { e1i: F(9.0), e2i: F(12.0), e3i: F(14.0), epn: F(16.0), _pd: PhantomData::<Hyperbolic> });
    let x = FPoint { e1i: F(13.0), e2i: F(14.0), e3i: F(15.0), epn: F(16.0), _pd: PhantomData::<Spherical> };
    assert_eq!(x.into_mv(), R410 { e1n: F(13.0), e2n: F(14.0), e3n: F(15.0), epn: F(16.0), ..R410::zero() });
    assert_eq!(FPoint::from_mv(x.into_mv()), x);
    assert_eq!(FPoint::from_mv(full), FPoint { e1i: F(10.0), e2i: F(13.0), e3i: F(15.0), epn: F(16.0), _pd: PhantomData::<Spherical> });
    let x = Point { e1: F(13.5), e2: F(14.5), e3: F(15.5), ep: F(16.5), en: F(17.5), _pd: PhantomData::<Euclidean> };
    assert_eq!(x.into_mv(), R410 { e1: F(13.5), e2: F(14.5), e3: F(15.5), ep: F(16.5), en: F(17.5), ..R410::zero() });
    assert_eq!(Point::from_mv(x.into_mv()), x);
    assert_eq!(Point::from_mv(full), Point { e1: F(2.0), e2: F(3.0), e3: F(4.0), ep: F(5.0), en: F(6.0), _pd: PhantomData::<Euclidean> });
    let x = Point { e1: F(14.0), e2: F(15.0), e3: F(16.0), ep: F(17.0), en: F(18.0), _pd: PhantomData::<Hyperbolic> };
    assert_eq!(x.into_mv(), R410 { e1: F(14.0), e2: F(15.0), e3: F(16.0), ep: F(17.0), en: F(18.0), ..R410::zero() });
    assert_eq!(Point::from_mv(x.into_mv()), x);
    assert_eq!(Point::from_mv(full), Point { e1: F(2.0), e2: F(3.0), e3: F(4.0), ep: F(5.0), en: F(6.0), _pd: PhantomData::<Hyperbolic> });
    let x = Point { e1: F(14.5), e2: F(15.5), e3: F(16.5), ep: F(17.5), en: F(18.5), _pd: PhantomData::<Spherical> };
    assert_eq!(x.into_mv(), R410 { e1: F(14.5), e2: F(15.5), e3: F(16.5), ep: F(17.5), en: F(18.5), ..R410::zero() });
    assert_eq!(Point::from_mv(x.into_mv()), x);
    assert_eq!(Point::from_mv(full), Point { e1: F(2.0), e2: F(3.0), e3: F(4.0), ep: F(5.0), en: F(6.0), _pd: PhantomData::<Spherical> });
    let x = Pair { e12: F(15.0), e13: F(16.0), e23: F(17.0), e1p: F(18.0), e1n: F(19.0), e2p: F(20.0), e2n: F(21.0), e3p: F(22.0), e3n: F(23.0), epn: F(24.0), _pd: PhantomData::<Euclidean> };
    assert_eq!(x.into_mv(), R410 { e12: F(15.0), e13: F(16.0), e1p: F(18.0), e1n: F(19.0), e23: F(17.0), e2p: F(20.0), e2n: F(21.0), e3p: F(22.0), e3n: F(23.0), epn: F(24.0), ..R410::zero() });
    assert_eq!(Pair::from_mv(x.into_mv()), x);
    assert_eq!(Pair::from_mv(full), Pair { e12: F(7.0), e13: F(8.0), e23: F(11.0), e1p: F(9.0), e1n: F(10.0), e2p: F(12.0), e2n: F(13.0), e3p: F(14.0), e3n: F(15.0), epn: F(16.0), _pd: PhantomData::<Euclidean> });
    let x = Pair { e12: F(15.5), e13: F(16.5), e23: F(17.5), e1p: F(18.5), e1n: F(19.5), e2p: F(20.5), e2n: F(21.5), e3p: F(22.5), e3n: F(23.5), epn: F(24.5), _pd: PhantomData::<Hyperbolic> };
    assert_eq!(x.into_mv(), R410 { e12: F(15.5), e13: F(16.5), e1p: F(18.5), e1n: F(19.5), e23: F(17.5), e2p: F(20.5), e2n: F(21.5), e3p: F(22.5), e3n: F(23.5), epn: F(24.5), ..R410::zero() });
    assert_eq!(Pair::from_mv(x.into_mv()), x);
    assert_eq!(Pair::from_mv(full), Pair { e12: F(7.0), e13: F(8.0), e23: F(11.0), e1p: F(9.0), e1n: F(10.0), e2p: F(12.0), e2n: F(13.0), e3p: F(14.0), e3n: F(15.0), epn: F(16.0), _pd: PhantomData::<Hyperbolic> });
    let x = Pair { e12: F(16.0), e13: F(17.0), e23: F(18.0), e1p: F(19.0), e1n: F(20.0), e2p: F(21.0), e2n: F(22.0), e3p: F(23.0), e3n: F(24.0), epn: F(25.0), _pd: PhantomData::<Spherical> };
    assert_eq!(x.into_mv(), R410 { e12: F(16.0), e13: F(17.0), e1p: F(19.0), e1n: F(20.0), e23: F(18.0), e2p: F(21.0), e2n: F(22.0), e3p: F(23.0), e3n: F(24.0), epn: F(25.0), ..R410::zero() });
    assert_eq!(Pair::from_mv(x.into_mv()), x);
    assert_eq!(Pair::from_mv(full), Pair { e12: F(7.0), e13: F(8.0), e23: F(11.0), e1p: F(9.0), e1n: F(10.0), e2p: F(12.0), e2n: F(13.0), e3p: F(14.0), e3n: F(15.0), epn: F(16.0), _pd: PhantomData::<Spherical> });
    let x = Circle { e123: F(16.5), e12p: F(17.5), e12n: F(18.5), e13p: F(19.5), e13n: F(20.5), e23p: F(21.5), e23n: F(22.5), e1pn: F(23.5), e2pn: F(24.5), e3pn: F(25.5), _pd: PhantomData::<Euclidean> };
    assert_eq!(x.into_mv(), R410 { e123: F(16.5), e12p: F(17.5), e12n: F(18.5), e13p: F(19.5), e13n: F(20.5), e1pn: F(23.5), e23p: F(21.5), e23n: F(22.5), e2pn: F(24.5), e3pn: F(25.5), ..R410::zero() });
    assert_eq!(Circle::from_mv(x.into_mv()), x);
    assert_eq!(Circle::from_mv(full), Circle { e123: F(17.0), e12p: F(18.0), e12n: F(19.0), e13p: F(20.0), e13n: F(21.0), e23p: F(23.0), e23n: F(24.0), e1pn: F(22.0), e2pn: F(25.0), e3pn: F(26.0), _pd: PhantomData::<Euclidean> });
    let x = Circle { e123: F(17.0), e12p: F(18.0), e12n: F(19.0), e13p: F(20.0), e13n: F(21.0), e23p: F(22.0), e23n: F(23.0), e1pn: F(24.0), e2pn: F(25.0), e3pn: F(26.0), _pd: PhantomData::<Hyperbolic> };
    assert_eq!(x.into_mv(), R410 { e123: F(17.0), e12p: F(18.0), e12n: F(19.0), e13p: F(20.0), e13n: F(21.0), e1pn: F(24.0), e23p: F(22.0), e23n: F(23.0), e2pn: F(25.0), e3pn: F(26.0), ..R410::zero() });
    assert_eq!(Circle::from_mv(x.into_mv()), x);
    assert_eq!(Circle::from_mv(full), Circle { e123: F(17.0), e12p: F(18.0), e12n: F(19.0), e13p: F(20.0), e13n: F(21.0), e23p: F(23.0), e23n: F(24.0), e1pn: F(22.0), e2pn: F(25.0), e3pn: F(26.0), _pd: PhantomData::<Hyperbolic> });
    let x = Circle { e123: F(17.5), e12p: F(18.5), e12n: F(19.5), e13p: F(20.5), e13n: F(21.5), e23p: F(22.5), e23n: F(23.5), e1pn: F(24.5), e2pn: F(25.5), e3pn: F(26.5), _pd: PhantomData::<Spherical> };
    assert_eq!(x.into_mv(), R410 { e123: F(17.5), e12p: F(18.5), e12n: F(19.5), e13p: F(20.5), e13n: F(21.5), e1pn: F(24.5), e23p: F(22.5), e23n: F(23.5), e2pn: F(25.5), e3pn: F(26.5), ..R410::zero() });
    assert_eq!(Circle::from_mv(x.into_mv()), x);
    assert_eq!(Circle::from_mv(full), Circle { e123: F(17.0), e12p: F(18.0), e12n: F(19.0), e13p: F(20.0), e13n: F(21.0), e23p: F(23.0), e23n: F(24.0), e1pn: F(22.0), e2pn: F(25.0), e3pn: F(26.0), _pd: PhantomData::<Spherical> });
    let x = Sphere { e123p: F(18.0), e123n: F(19.0), e12pn: F(20.0), e13pn: F(21.0), e23pn: F(22.0), _pd: PhantomData::<Euclidean> };
    assert_eq!(x.into_mv(), R410 { e123p: F(18.0), e123n: F(19.0), e12pn: F(20.0), e13pn: F(21.0), e23pn: F(22.0), ..R410::zero() });
    assert_eq!(Sphere::from_mv(x.into_mv()), x);
    assert_eq!(Sphere::from_mv(full), Sphere { e123p: F(27.0), e123n: F(28.0), e12pn: F(29.0), e13pn: F(30.0), e23pn: F(31.0), _pd: PhantomData::<Euclidean> });
    let x = Sphere { e123p: F(18.5), e123n: F(19.5), e12pn: F(20.5), e13pn: F(21.5), e23pn: F(22.5), _pd: PhantomData::<Hyperbolic> };
    assert_eq!(x.into_mv(), R410 { e123p: F(18.5), e123n: F(19.5), e12pn: F(20.5), e13pn: F(21.5), e23pn: F(22.5), ..R410::zero() });
    assert_eq!(Sphere::from_mv(x.into_mv()), x);
    assert_eq!(Sphere::from_mv(full), Sphere { e123p: F(27.0), e123n: F(28.0), e12pn: F(29.0), e13pn: F(30.0), e23pn: F(31.0), _pd: PhantomData::<Hyperbolic> });
    let x = Sphere { e123p: F(19.0), e123n: F(20.0), e12pn: F(21.0), e13pn: F(22.0), e23pn: F(23.0), _pd: PhantomData::<Spherical> };
    assert_eq!(x.into_mv(), R410 { e123p: F(19.0), e123n: F(20.0), e12pn: F(21.0), e13pn: F(22.0), e23pn: F(23.0), ..R410::zero() });
    assert_eq!(Sphere::from_mv(x.into_mv()), x);
    assert_eq!(Sphere::from_mv(full), Sphere { e123p: F(27.0), e123n: F(28.0), e12pn: F(29.0), e13pn: F(30.0), e23pn: F(31.0), _pd: PhantomData::<Spherical> });
    let x = TBivector { e123: F(19.5), e12p: F(20.5), e12n: F(21.5), e13p: F(22.5), e13n: F(23.5), e23p: F(24.5), e23n: F(25.5), _pd: PhantomData::<Euclidean> };
    assert_eq!(x.into_mv(), R410 { e123: F(19.5), e12p: F(20.5), e12n: F(21.5), e13p: F(22.5), e13n: F(23.5), e23p: F(24.5), e23n: F(25.5), ..R410::zero() });
    assert_eq!(TBivector::from_mv(x.into_mv()), x);
    assert_eq!(TBivector::from_mv(full), TBivector { e123: F(17.0), e12p: F(18.0), e12n: F(19.0), e13p: F(20.0), e13n: F(21.0), e23p: F(23.0), e23n: F(24.0), _pd: PhantomData::<Euclidean> });
    let x = TBivector { e123: F(20.0), e12p: F(21.0), e12n: F(22.0), e13p: F(23.0), e13n: F(24.0), e23p: F(25.0), e23n: F(26.0), _pd: PhantomData::<Hyperbolic> };
    assert_eq!(x.into_mv(), R410 { e123: F(20.0), e12p: F(21.0), e12n: F(22.0), e13p: F(23.0), e13n: F(24.0), e23p: F(25.0), e23n: F(26.0), ..R410::zero() });
    assert_eq!(TBivector::from_mv(x.into_mv()), x);
    assert_eq!(TBivector::from_mv(full), TBivector { e123: F(17.0), e12p: F(18.0), e12n: F(19.0), e13p: F(20.0), e13n: F(21.0), e23p: F(23.0), e23n: F(24.0), _pd: PhantomData::<Hyperbolic> });
    let x = TBivector { e123: F(20.5), e12p: F(21.5), e12n: F(22.5), e13p: F(23.5), e13n: F(24.5), e23p: F(25.5), e23n: F(26.5), _pd: PhantomData::<Spherical> };
    assert_eq!(x.into_mv(), R410 { e123: F(20.5), e12p: F(21.5), e12n: F(22.5), e13p: F(23.5), e13n: F(24.5), e23p: F(25.5), e23n: F(26.5), ..R410::zero() });
    assert_eq!(TBivector::from_mv(x.into_mv()), x);
    assert_eq!(TBivector::from_mv(full), TBivector { e123: F(17.0), e12p: F(18.0), e12n: F(19.0), e13p: F(20.0), e13n: F(21.0), e23p: F(23.0), e23n: F(24.0), _pd: PhantomData::<Spherical> });
    let x = Rotor { s: F(21.0), e12: F(22.0), e13: F(23.0), e23: F(24.0) };
    assert_eq!(x.into_mv(), R410 { s: F(21.0), e12: F(22.0), e13: F(23.0), e23: F(24.0), ..R410::zero() });
    assert_eq!(Rotor::from_mv(x.into_mv()), x);
    assert_eq!(Rotor::from_mv(full), Rotor { s: F(1.0), e12: F(7.0), e13: F(8.0), e23: F(11.0) });
    let x = Translator { e1i: F(21.5), e2i: F(22.5), e3i: F(23.5), s: F(24.5), _pd: PhantomData::<Euclidean> };
    assert_eq!(x.into_mv(), R410 { s: F(24.5), e1p: F(21.5), e1n: F(21.5), e2p: F(22.5), e2n: F(22.5), e3p: F(23.5), e3n: F(23.5), ..R410::zero() });
    assert_eq!(Translator::from_mv(x.into_mv()), x);
    assert_eq!(Translator::from_mv(full), Translator { e1i: F(9.0), e2i: F(12.0), e3i: F(14.0), s: F(1.0), _pd: PhantomData::<Euclidean> });
    let x = Translator { e1i: F(22.0), e2i: F(23.0), e3i: F(24.0), s: F(25.0), _pd: PhantomData::<Hyperbolic> };
    assert_eq!(x.into_mv(), R410 { s: F(25.0), e1p: F(22.0), e2p: F(23.0), e3p: F(24.0), ..R410::zero() });
    assert_eq!(Translator::from_mv(x.into_mv()), x);
    assert_eq!(Translator::from_mv(full), Translator { e1i: F(9.0), e2i: F(12.0), e3i: F(14.0), s: F(1.0), _pd: PhantomData::<Hyperbolic> });
    let x = Translator { e1i: F(22.5), e2i: F(23.5), e3i: F(24.5), s: F(25.5), _pd: PhantomData::<Spherical> };
    assert_eq!(x.into_mv(), R410 { s: F(25.5), e1n: F(22.5), e2n: F(23.5), e3n: F(24.5), ..R410::zero() });
    assert_eq!(Translator::from_mv(x.into_mv()), x);
    assert_eq!(Translator::from_mv(full), Translator { e1i: F(10.0), e2i: F(13.0), e3i: F(15.0), s: F(1.0), _pd: PhantomData::<Spherical> });
    let x = TVector { e1o: F(23.0), e2o: F(24.0), e3o: F(25.0), _pd: PhantomData::<Euclidean> };
    assert_eq!(x.into_mv(), R410 { e1p: F(-23.0), e1n: F(23.0), e2p: F(-24.0), e2n: F(24.0), e3p: F(-25.0), e3n: F(25.0), ..R410::zero() });
    assert_eq!(TVector::from_mv(x.into_mv()), x);
    assert_eq!(TVector::from_mv(full), TVector { e1o: F(10.0), e2o: F(13.0), e3o: F(15.0), _pd: PhantomData::<Euclidean> });
    let x = TVector { e1o: F(23.5), e2o: F(24.5), e3o: F(25.5), _pd: PhantomData::<Hyperbolic> };
    assert_eq!(x.into_mv(), R410 { e1p: F(-23.5), e1n: F(23.5), e2p: F(-24.5), e2n: F(24.5), e3p: F(-25.5), e3n: F(25.5), ..R410::zero() });
    assert_eq!(TVector::from_mv(x.into_mv()), x);
    assert_eq!(TVector::from_mv(full), TVector { e1o: F(10.0), e2o: F(13.0), e3o: F(15.0), _pd: PhantomData::<Hyperbolic> });
    let x = TVector { e1o: F(24.0), e2o: F(25.0), e3o: F(26.0), _pd: PhantomData::<Spherical> };
    assert_eq!(x.into_mv(), R410 { e1p: F(-24.0), e1n: F(24.0), e2p: F(-25.0), e2n: F(25.0), e3p: F(-26.0), e3n: F(26.0), ..R410::zero() });
    assert_eq!(TVector::from_mv(x.into_mv()), x);
    assert_eq!(TVector::from_mv(full), TVector { e1o: F(10.0), e2o: F(13.0), e3o: F(15.0), _pd: PhantomData::<Spherical> });
    assert_eq!(Scalar(F(3.0)).into_mv(), R410 { s: F(3.0), ..R410::zero() });
    assert_eq!(Scalar::from_mv(full), Scalar(F(1.0)));
}

#[test]
fn vectors() {
    let a = vector(3.0, 4.0, 0.0);
    let b = vector(1.0, -2.0, 2.0);
    assert_eq!(Vector::from([F(3.0), F(4.0), F(0.0)]), a);
    assert_eq!((a.x(), a.y(), a.z()), (F(3.0), F(4.0), F(0.0)));
    assert_eq!(a.dot(b), F(-5.0));
    assert_eq!(a.norm_squared(), F(25.0));
    assert_eq!(a.norm(), F(5.0));
    assert_eq!(a.mul(b), Rotor { s: F(-5.0), e12: F(-10.0), e13: F(6.0), e23: F(8.0) });
    assert_eq!(a.outer(b), Bivector { e12: F(-10.0), e13: F(6.0), e23: F(8.0) });
    assert_eq!(a.inner(b), Scalar(F(-5.0)));
    assert_eq!(a.add(b), Vector { e1: F(4.0), e2: F(2.0), e3: F(2.0) });
    assert_eq!(a.sub(b), Vector { e1: F(2.0), e2: F(6.0), e3: F(-2.0) });
    assert_eq!(a.neg(), Vector { e1: F(-3.0), e2: F(-4.0), e3: F(0.0) });
    assert_eq!(a.mul_scalar(F(-0.5)), Vector { e1: F(-1.5), e2: F(-2.0), e3: F(0.0) });
    assert_eq!(a.div_scalar(F(4.0)), Vector { e1: F(0.75), e2: F(1.0), e3: F(0.0) });
    assert_eq!(a.reflect(b), Vector { e1: F(-55.0), e2: F(10.0), e3: F(-50.0) });
    let mut c = a;
    c.mul_assign(F(2.0));
    assert_eq!(c, Vector { e1: F(6.0), e2: F(8.0), e3: F(0.0) });
    c.div_assign(F(4.0));
    assert_eq!(c, Vector { e1: F(1.5), e2: F(2.0), e3: F(0.0) });
    assert_eq!(Vector::<F>::zero(), vector(0.0, 0.0, 0.0));
    assert!(Vector::<F>::zero().is_zero());
    assert!(!a.is_zero());
    assert_eq!(vector(0.0, 0.0, 0.0).normalize(), vector(0.0, 0.0, 0.0));
    assert_eq!(vector(0.0, -4.0, 0.0).normalize(), vector(0.0, -1.0, 0.0));
    assert_eq!(a.normal::<Euclidean>(F(2.0)), DPlane { e1: F(3.0), e2: F(4.0), e3: F(0.0), ei: F(2.0), _pd: PhantomData::<Euclidean> });
    assert_eq!(a.normal::<Spherical>(F(2.0)), DPlane { e1: F(3.0), e2: F(4.0), e3: F(0.0), ei: F(2.0), _pd: PhantomData::<Spherical> });
    assert_eq!(a.as_direction::<Euclidean>(), DVector { e1i: F(3.0), e2i: F(4.0), e3i: F(0.0), _pd: PhantomData::<Euclidean> });
    assert_eq!(a.as_direction::<Hyperbolic>(), DVector { e1i: F(3.0), e2i: F(4.0), e3i: F(0.0), _pd: PhantomData::<Hyperbolic> });
    assert_eq!(a.into_translator::<Euclidean>(), Translator { e1i: F(-1.5), e2i: F(-2.0), e3i: F(0.0), s: F(1.0), _pd: PhantomData::<Euclidean> });
    assert_eq!(a.into_point::<Euclidean>(), Point { e1: F(3.0), e2: F(4.0), e3: F(0.0), ep: F(12.0), en: F(13.0), _pd: PhantomData::<Euclidean> });
    assert_eq!(a.into_point::<Hyperbolic>(), Point { e1: F(3.0), e2: F(4.0), e3: F(0.0), ep: F(12.0), en: F(0.5), _pd: PhantomData::<Hyperbolic> });
    assert_eq!(a.into_point::<Spherical>(), Point { e1: F(3.0), e2: F(4.0), e3: F(0.0), ep: F(-0.5), en: F(13.0), _pd: PhantomData::<Spherical> });
    for v in [a, b, vector(0.0, 0.0, 0.0), vector(-1.5, 0.25, 8.0)] {
        assert_eq!(v.into_point_expanded::<Euclidean>(), v.into_point::<Euclidean>());
        assert_eq!(v.into_point_expanded::<Hyperbolic>(), v.into_point::<Hyperbolic>());
        assert_eq!(v.into_point_expanded::<Spherical>(), v.into_point::<Spherical>());
    }
}

#[test]
fn bivectors() {
    let a = bivector(1.0, -2.0, 2.0);
    let b = bivector(3.0, 1.0, -1.0);
    assert_eq!(a.dot(b), F(1.0));
    assert_eq!(a.inner(b), Scalar(F(1.0)));
    assert_eq!(a.norm_squared(), F(9.0));
    assert_eq!(a.norm(), F(3.0));
    assert_eq!(bivector(0.0, 4.0, 0.0).normalized(), bivector(0.0, 1.0, 0.0));
    assert_eq!(a.div_scalar(F(2.0)), Bivector { e12: F(0.5), e13: F(-1.0), e23: F(1.0) });
    assert_eq!(a.outer(vector(3.0, 4.0, 5.0)), Trivector { e123: F(19.0) });
    assert_eq!(a.mul(Trivector { e123: F(2.0) }), Vector { e1: F(-4.0), e2: F(-4.0), e3: F(-2.0) });
    assert_eq!(a.with_angle(F(0.0)), Rotor { s: F(1.0), e12: F(0.0), e13: F(-0.0), e23: F(0.0) });
    let quarter = a.with_angle(F(std::f64::consts::PI));
    assert_eq!(quarter.e12, F((std::f64::consts::PI * 0.5).sin()));
    assert_eq!(quarter.s, F((std::f64::consts::PI * 0.5).cos()));
    assert_eq!(Trivector { e123: F(2.0) }.inner(Trivector { e123: F(3.0) }), Scalar(F(-6.0)));
}

#[test]
fn points() {
    let p = point(1.0, 2.0, 2.0);
    let q = point(3.0, 0.0, -4.0);
    assert_eq!(p, Point { e1: F(1.0), e2: F(2.0), e3: F(2.0), ep: F(4.0), en: F(5.0), _pd: PhantomData::<Euclidean> });
    assert_eq!(Point::<F>::new(vector(3.0, 0.0, -4.0)), q);
    assert_eq!(Point::<F>::no(), Point { e1: F(0.0), e2: F(0.0), e3: F(0.0), ep: F(-0.5), en: F(0.5), _pd: PhantomData::<Euclidean> });
    assert_eq!(Point::<F>::ni(), Point { e1: F(0.0), e2: F(0.0), e3: F(0.0), ep: F(1.0), en: F(1.0), _pd: PhantomData::<Euclidean> });
    assert_eq!(Point::<F, Hyperbolic>::ni(), Point { e1: F(0.0), e2: F(0.0), e3: F(0.0), ep: F(1.0), en: F(0.0), _pd: PhantomData::<Hyperbolic> });
    assert_eq!(Point::<F, Spherical>::ni(), Point { e1: F(0.0), e2: F(0.0), e3: F(0.0), ep: F(0.0), en: F(1.0), _pd: PhantomData::<Spherical> });
    assert_eq!(origin::<F>(), R410 { ep: F(-0.5), en: F(0.5), ..R410::zero() });
    assert_eq!(p.norm(), F(-1.0));
    assert_eq!(Point::<F>::ni().norm(), F(0.0));
    assert_eq!(p.normalize(), Point { e1: F(-1.0), e2: F(-2.0), e3: F(-2.0), ep: F(-4.0), en: F(-5.0), _pd: PhantomData::<Euclidean> });
    assert_eq!(p.dot(q), F(-22.0));
    assert_eq!(p.dot(p), F(0.0));
    assert_eq!(p.inner(q), Scalar(F(-22.0)));
    assert_eq!(p.outer(q), Pair { e12: F(-6.0), e13: F(-10.0), e23: F(-8.0), e1p: F(0.0), e1n: F(-2.0), e2p: F(24.0), e2n: F(26.0), e3p: F(40.0), e3n: F(46.0), epn: F(-8.0), _pd: PhantomData::<Euclidean> });
    assert_eq!(p.into_flat(), FPoint { e1i: F(1.0), e2i: F(2.0), e3i: F(2.0), epn: F(-1.0), _pd: PhantomData::<Euclidean> });
    assert_eq!(p.outer(q.into_flat()), Line { e12i: F(-6.0), e13i: F(-10.0), e23i: F(-8.0), e1pn: F(2.0), e2pn: F(-2.0), e3pn: F(-6.0), _pd: PhantomData::<Euclidean> });
    assert_eq!(p.midplane(q), DPlane { e1: F(-2.0), e2: F(2.0), e3: F(6.0), ei: F(-8.0), _pd: PhantomData::<Euclidean> });
    assert_eq!(p.into_sphere(F(2.0)), DSphere { e1: F(1.0), e2: F(2.0), e3: F(2.0), ep: F(2.0), en: F(3.0), _pd: PhantomData::<Euclidean> });
    assert_eq!(p.extend_along_vec(vector(0.0, 0.0, 1.0).as_direction()), Line { e12i: F(0.0), e13i: F(1.0), e23i: F(2.0), e1pn: F(0.0), e2pn: F(0.0), e3pn: F(1.0), _pd: PhantomData::<Euclidean> });
    assert_eq!(p.from_origin(), Some(vector(1.0, 2.0, 2.0)));
    assert_eq!(Point::<F>::ni().from_origin(), None);
    let s: Sphere<F> = Sphere { e123p: F(1.0), e123n: F(2.0), e12pn: F(-1.0), e13pn: F(3.0), e23pn: F(2.0), _pd: PhantomData::<Euclidean> };
    assert_eq!(p.inner(s), Circle { e123: F(6.0), e12p: F(-3.0), e12n: F(0.0), e13p: F(13.0), e13n: F(8.0), e23p: F(11.0), e23n: F(10.0), e1pn: F(-4.0), e2pn: F(-5.0), e3pn: F(7.0), _pd: PhantomData::<Euclidean> });
}

#[test]
fn distance_law() {
    let a = point(1.0, 0.0, 0.0);
    let b = point(3.0, 4.0, 5.0);
    assert_eq!(a.distance(b), F(45.0_f64.sqrt()));
    assert_eq!(b.distance(a), F(45.0_f64.sqrt()));
    assert_eq!(a.distance(a), F(0.0));
    assert_eq!(point(0.0, 3.0, 0.0).distance(point(4.0, 0.0, 0.0)), F(5.0));
    // the scalar product is minus half the squared distance
    assert_eq!(a.dot(b), F(-22.5));
    assert_eq!(a.try_distance(b), Some(F(45.0_f64.sqrt())));
    assert_eq!(a.try_distance(Point::ni()), None);
    assert_eq!(Point::<F>::ni().try_distance(a), None);
    assert_eq!(a.try_normalize(), Some(a.normalize()));
    assert_eq!(Point::<F>::ni().try_normalize(), None);
}

#[test]
fn pairs() {
    let p = point(1.0, 2.0, 2.0);
    let q = point(3.0, 0.0, -4.0);
    let pair = p.outer(q);
    assert_eq!(pair.extend(), Line { e12i: F(-6.0), e13i: F(-10.0), e23i: F(-8.0), e1pn: F(2.0), e2pn: F(-2.0), e3pn: F(-6.0), _pd: PhantomData::<Euclidean> });
    assert_eq!(pair.midplane(), DPlane { e1: F(-2.0), e2: F(2.0), e3: F(6.0), ei: F(-8.0), _pd: PhantomData::<Euclidean> });
    assert_eq!(pair.norm_squared(), F(-484.0));
    assert_eq!(pair.inner(pair), Scalar(F(484.0)));
    assert_eq!(pair.outer(point(0.0, 1.0, 0.0)), Circle { e123: F(10.0), e12p: F(0.0), e12n: F(-4.0), e13p: F(0.0), e13n: F(-10.0), e23p: F(40.0), e23n: F(38.0), e1pn: F(0.0), e2pn: F(16.0), e3pn: F(40.0), _pd: PhantomData::<Euclidean> });
    assert_eq!(pair.inner(p.midplane(q)), Point { e1: F(-88.0), e2: F(-44.0), e3: F(44.0), ep: F(-352.0), en: F(-396.0), _pd: PhantomData::<Euclidean> });
    // a pair whose square is negative holds no real points
    let imaginary: Pair<F> = Pair { e12: F(1.0), e13: F(0.0), e23: F(0.0), e1p: F(0.0), e1n: F(0.0), e2p: F(0.0), e2n: F(0.0), e3p: F(0.0), e3n: F(0.0), epn: F(0.0), _pd: PhantomData::<Euclidean> };
    assert_eq!(imaginary.inner(imaginary), Scalar(F(-1.0)));
    assert_eq!(imaginary.decompose(), None);
    // a pair with infinity has no second point
    assert_eq!(p.outer(Point::ni()).decompose(), None);
    assert_eq!(p.outer(Point::ni()).split(F(1.0)), None);
    // given the root, the points come out in the order they went in
    let a = point(1.0, 0.0, 0.0);
    let b = point(3.0, 4.0, 0.0);
    let root = a.outer(b).inner(a.outer(b)).0.sqrt();
    assert_eq!(a.outer(b).split(root), Some((a.normalize(), b.normalize())));
    assert_eq!(b.outer(a).split(root), Some((b.normalize(), a.normalize())));
    assert_eq!(a.outer(b).decompose(), Some((a.normalize(), b.normalize())));
}

#[test]
fn circles_and_spheres() {
    let p = point(1.0, 2.0, 2.0);
    let q = point(3.0, 0.0, -4.0);
    let r = point(0.0, 1.0, 0.0);
    let circle = p.outer(q).outer(r);
    assert_eq!(circle, Circle { e123: F(10.0), e12p: F(0.0), e12n: F(-4.0), e13p: F(0.0), e13n: F(-10.0), e23p: F(40.0), e23n: F(38.0), e1pn: F(0.0), e2pn: F(16.0), e3pn: F(40.0), _pd: PhantomData::<Euclidean> });
    assert_eq!(circle.extend(), Plane { e123i: F(10.0), e12pn: F(4.0), e13pn: F(10.0), e23pn: F(2.0), _pd: PhantomData::<Euclidean> });
    assert_eq!(circle.axis(), DLine { e12: F(4.0), e13: F(10.0), e23: F(2.0), e1i: F(0.0), e2i: F(-16.0), e3i: F(-40.0), _pd: PhantomData::<Euclidean> });
    let sphere = circle.outer(point(0.0, 0.0, 1.0));
    assert_eq!(sphere, Sphere { e123p: F(0.0), e123n: F(14.0), e12pn: F(0.0), e13pn: F(0.0), e23pn: F(56.0), _pd: PhantomData::<Euclidean> });
    assert_eq!(sphere.dual(), DSphere { e1: F(56.0), e2: F(0.0), e3: F(0.0), ep: F(-14.0), en: F(0.0), _pd: PhantomData::<Euclidean> });
}

#[test]
fn dual_spheres() {
    let p = point(1.0, 2.0, 2.0);
    let ds = p.into_sphere(F(2.0));
    assert_eq!(ds.radius(), F(2.0));
    assert_eq!(p.into_sphere(F(5.0)).radius(), F(5.0));
    assert_eq!(p.into_sphere(F(0.0)).radius(), F(0.0));
    assert_eq!(ds.dot(ds), F(4.0));
    assert_eq!(ds.inner(ds), Scalar(F(4.0)));
    let other = point(3.0, 0.0, -4.0).into_sphere(F(1.0));
    assert_eq!(ds.dot(other), F(-19.5));
    assert_eq!(ds.center(), Point { e1: F(-2.0), e2: F(-4.0), e3: F(-4.0), ep: F(-8.0), en: F(-10.0), _pd: PhantomData::<Euclidean> });
    assert_eq!(ds.center().normalize(), Point { e1: F(-1.0), e2: F(-2.0), e3: F(-2.0), ep: F(-4.0), en: F(-5.0), _pd: PhantomData::<Euclidean> });
    assert_eq!(ds.center().normalize(), p.normalize());
    assert_eq!(ds.undual(), Sphere { e123p: F(-3.0), e123n: F(-2.0), e12pn: F(2.0), e13pn: F(-2.0), e23pn: F(1.0), _pd: PhantomData::<Euclidean> });
    assert_eq!(ds.undual().center(), p.normalize());
    assert_eq!(ds.undual().dual(), ds);
    let line = p.outer(point(3.0, 0.0, -4.0)).extend();
    assert_eq!(ds.inner(line), Pair { e12: F(6.0), e13: F(10.0), e23: F(8.0), e1p: F(26.0), e1n: F(28.0), e2p: F(16.0), e2n: F(14.0), e3p: F(-8.0), e3n: F(-14.0), epn: F(-14.0), _pd: PhantomData::<Euclidean> });
    assert_eq!(ds.inner(ds.undual()), Circle { e123: F(0.0), e12p: F(0.0), e12n: F(0.0), e13p: F(0.0), e13n: F(0.0), e23p: F(0.0), e23n: F(0.0), e1pn: F(0.0), e2pn: F(0.0), e3pn: F(0.0), _pd: PhantomData::<Euclidean> });
}

#[test]
fn lines_and_planes() {
    let p = point(1.0, 2.0, 2.0);
    let q = point(3.0, 0.0, -4.0);
    let r = point(0.0, 1.0, 0.0);
    let line = p.outer(q).extend();
    let plane = p.outer(q).outer(r).extend();
    assert_eq!(line, Line { e12i: F(-6.0), e13i: F(-10.0), e23i: F(-8.0), e1pn: F(2.0), e2pn: F(-2.0), e3pn: F(-6.0), _pd: PhantomData::<Euclidean> });
    assert_eq!(line.into_vector(), Vector { e1: F(2.0), e2: F(-2.0), e3: F(-6.0) });
    assert_eq!(line.direction(), DVector { e1i: F(2.0), e2i: F(-2.0), e3i: F(-6.0), _pd: PhantomData::<Euclidean> });
    assert_eq!(line.dual(), DLine { e12: F(6.0), e13: F(-2.0), e23: F(-2.0), e1i: F(8.0), e2i: F(-10.0), e3i: F(6.0), _pd: PhantomData::<Euclidean> });
    assert_eq!(line.dual().undual(), line);
    assert_eq!(plane, Plane { e123i: F(10.0), e12pn: F(4.0), e13pn: F(10.0), e23pn: F(2.0), _pd: PhantomData::<Euclidean> });
    assert_eq!(plane.to_round(), Sphere { e123p: F(10.0), e123n: F(10.0), e12pn: F(4.0), e13pn: F(10.0), e23pn: F(2.0), _pd: PhantomData::<Euclidean> });
    assert_eq!(plane.dual(), DPlane { e1: F(2.0), e2: F(-10.0), e3: F(4.0), ei: F(-10.0), _pd: PhantomData::<Euclidean> });
    assert_eq!(plane.dual().undual(), plane);
    assert_eq!(line.dual().inner(plane), FPoint { e1i: F(0.0), e2i: F(0.0), e3i: F(0.0), epn: F(0.0), _pd: PhantomData::<Euclidean> });
    assert_eq!(plane.dual().inner(line), FPoint { e1i: F(0.0), e2i: F(0.0), e3i: F(0.0), epn: F(0.0), _pd: PhantomData::<Euclidean> });
    assert_eq!(line.dual().inner(plane.to_round()), Pair { e12: F(0.0), e13: F(0.0), e23: F(0.0), e1p: F(0.0), e1n: F(0.0), e2p: F(0.0), e2n: F(0.0), e3p: F(0.0), e3n: F(0.0), epn: F(0.0), _pd: PhantomData::<Euclidean> });
    assert_eq!(plane.dual().transform(line), Line { e12i: F(720.0), e13i: F(1200.0), e23i: F(960.0), e1pn: F(-240.0), e2pn: F(240.0), e3pn: F(720.0), _pd: PhantomData::<Euclidean> });
    assert_eq!(line.meet(plane), FPoint { e1i: F(0.0), e2i: F(0.0), e3i: F(0.0), epn: F(0.0), _pd: PhantomData::<Euclidean> });
    assert_eq!(line.position_on(Point::ni()), None);
    let flat = p.into_flat();
    assert_eq!(flat.extend_along_vec(vector(2.0, -2.0, -6.0)), Line { e12i: F(-6.0), e13i: F(-10.0), e23i: F(-8.0), e1pn: F(2.0), e2pn: F(-2.0), e3pn: F(-6.0), _pd: PhantomData::<Euclidean> });
    assert_eq!(flat.mul(q.into_flat()), Translator { e1i: F(2.0), e2i: F(-2.0), e3i: F(-6.0), s: F(1.0), _pd: PhantomData::<Euclidean> });
}

#[test]
fn product_of_two_lines() {
    let a: Line<F> = Line { e12i: F(1.0), e13i: F(2.0), e23i: F(3.0), e1pn: F(4.0), e2pn: F(5.0), e3pn: F(6.0), _pd: PhantomData::<Euclidean> };
    let b: Line<F> = Line { e12i: F(-2.0), e13i: F(1.0), e23i: F(2.0), e1pn: F(3.0), e2pn: F(-1.0), e3pn: F(2.0), _pd: PhantomData::<Euclidean> };
    assert_eq!(a.mul(b), Motor { s: F(19.0), e12: F(-19.0), e13: F(-10.0), e23: F(16.0), e1i: F(11.0), e2i: F(17.0), e3i: F(-11.0), e123i: F(-4.0) });
}

#[test]
fn duality_is_an_involution() {
    let x = Line { e12i: F(1.0), e13i: F(-2.0), e23i: F(3.0), e1pn: F(4.0), e2pn: F(-5.0), e3pn: F(6.0), _pd: PhantomData::<Euclidean> };
    assert_eq!(x.dual(), DLine { e12: F(-6.0), e13: F(-5.0), e23: F(-4.0), e1i: F(-3.0), e2i: F(-2.0), e3i: F(-1.0), _pd: PhantomData::<Euclidean> });
    assert_eq!(x.dual().undual(), x);
    let x = Plane { e123i: F(2.0), e12pn: F(-3.0), e13pn: F(5.0), e23pn: F(7.0), _pd: PhantomData::<Euclidean> };
    assert_eq!(x.dual(), DPlane { e1: F(7.0), e2: F(-5.0), e3: F(-3.0), ei: F(-2.0), _pd: PhantomData::<Euclidean> });
    assert_eq!(x.dual().undual(), x);
    let x = Sphere { e123p: F(1.0), e123n: F(-2.0), e12pn: F(3.0), e13pn: F(-4.0), e23pn: F(5.0), _pd: PhantomData::<Euclidean> };
    assert_eq!(x.dual(), DSphere { e1: F(5.0), e2: F(4.0), e3: F(3.0), ep: F(2.0), en: F(-1.0), _pd: PhantomData::<Euclidean> });
    assert_eq!(x.dual().undual(), x);
    let x = Line { e12i: F(1.0), e13i: F(-2.0), e23i: F(3.0), e1pn: F(4.0), e2pn: F(-5.0), e3pn: F(6.0), _pd: PhantomData::<Hyperbolic> };
    assert_eq!(x.dual(), DLine { e12: F(-6.0), e13: F(-5.0), e23: F(-4.0), e1i: F(-3.0), e2i: F(-2.0), e3i: F(-1.0), _pd: PhantomData::<Spherical> });
    assert_eq!(x.dual().undual(), x);
    let x = Plane { e123i: F(2.0), e12pn: F(-3.0), e13pn: F(5.0), e23pn: F(7.0), _pd: PhantomData::<Hyperbolic> };
    assert_eq!(x.dual(), DPlane { e1: F(7.0), e2: F(-5.0), e3: F(-3.0), ei: F(-2.0), _pd: PhantomData::<Spherical> });
    assert_eq!(x.dual().undual(), x);
    let x = Sphere { e123p: F(1.0), e123n: F(-2.0), e12pn: F(3.0), e13pn: F(-4.0), e23pn: F(5.0), _pd: PhantomData::<Hyperbolic> };
    assert_eq!(x.dual(), DSphere { e1: F(5.0), e2: F(4.0), e3: F(3.0), ep: F(2.0), en: F(-1.0), _pd: PhantomData::<Hyperbolic> });
    assert_eq!(x.dual().undual(), Sphere { e123p: F(1.0), e123n: F(-2.0), e12pn: F(3.0), e13pn: F(-4.0), e23pn: F(5.0), _pd: PhantomData::<Spherical> });
    let x = Line { e12i: F(1.0), e13i: F(-2.0), e23i: F(3.0), e1pn: F(4.0), e2pn: F(-5.0), e3pn: F(6.0), _pd: PhantomData::<Spherical> };
    assert_eq!(x.dual(), DLine { e12: F(-6.0), e13: F(-5.0), e23: F(-4.0), e1i: F(-3.0), e2i: F(-2.0), e3i: F(-1.0), _pd: PhantomData::<Hyperbolic> });
    assert_eq!(x.dual().undual(), x);
    let x = Plane { e123i: F(2.0), e12pn: F(-3.0), e13pn: F(5.0), e23pn: F(7.0), _pd: PhantomData::<Spherical> };
    assert_eq!(x.dual(), DPlane { e1: F(7.0), e2: F(-5.0), e3: F(-3.0), ei: F(-2.0), _pd: PhantomData::<Hyperbolic> });
    assert_eq!(x.dual().undual(), x);
    let x = Sphere { e123p: F(1.0), e123n: F(-2.0), e12pn: F(3.0), e13pn: F(-4.0), e23pn: F(5.0), _pd: PhantomData::<Spherical> };
    assert_eq!(x.dual(), DSphere { e1: F(5.0), e2: F(4.0), e3: F(3.0), ep: F(2.0), en: F(-1.0), _pd: PhantomData::<Spherical> });
    assert_eq!(x.dual().undual(), Sphere { e123p: F(1.0), e123n: F(-2.0), e12pn: F(3.0), e13pn: F(-4.0), e23pn: F(5.0), _pd: PhantomData::<Hyperbolic> });
}

#[test]
fn directions_and_translators() {
    let d = vector(2.0, -4.0, 6.0).as_direction::<Euclidean>();
    assert_eq!(d, DVector { e1i: F(2.0), e2i: F(-4.0), e3i: F(6.0), _pd: PhantomData::<Euclidean> });
    assert_eq!(d.neg(), DVector { e1i: F(-2.0), e2i: F(4.0), e3i: F(-6.0), _pd: PhantomData::<Euclidean> });
    assert_eq!(d.mul_scalar(F(0.5)), DVector { e1i: F(1.0), e2i: F(-2.0), e3i: F(3.0), _pd: PhantomData::<Euclidean> });
    assert_eq!(d.div_scalar(F(2.0)), DVector { e1i: F(1.0), e2i: F(-2.0), e3i: F(3.0), _pd: PhantomData::<Euclidean> });
    assert_eq!(d.exp(), Translator { e1i: F(-2.0), e2i: F(4.0), e3i: F(-6.0), s: F(1.0), _pd: PhantomData::<Euclidean> });
    assert_eq!(d.into_translator(), Translator { e1i: F(-1.0), e2i: F(2.0), e3i: F(-3.0), s: F(1.0), _pd: PhantomData::<Euclidean> });
    let t = d.into_translator();
    let u = vector(0.0, 2.0, -2.0).into_translator::<Euclidean>();
    assert_eq!(t.mul(u), vector(2.0, -2.0, 4.0).into_translator::<Euclidean>());
    assert_eq!(t.mul_scalar(F(2.0)), Translator { e1i: F(-2.0), e2i: F(4.0), e3i: F(-6.0), s: F(2.0), _pd: PhantomData::<Euclidean> });
    let p = point(1.0, 2.0, 2.0);
    assert_eq!(t.transform(p), point(3.0, -2.0, 8.0));
    assert_eq!(u.transform(t.transform(p)), point(3.0, 0.0, 6.0));
    assert_eq!(t.transform(p.into_sphere(F(2.0))), point(3.0, -2.0, 8.0).into_sphere(F(2.0)));
    assert_eq!(t.transform(p.into_sphere(F(2.0)).undual()), point(3.0, -2.0, 8.0).into_sphere(F(2.0)).undual());
    let h = vector(2.0, -4.0, 6.0).as_direction::<Hyperbolic>();
    assert_eq!(h.exp(), Translator { e1i: F(-2.0), e2i: F(4.0), e3i: F(-6.0), s: F(1.0), _pd: PhantomData::<Hyperbolic> });
}

#[test]
fn rotors() {
    let r = vector(1.0, 0.0, 0.0).mul(vector(0.0, 1.0, 0.0));
    assert_eq!(r, Rotor { s: F(0.0), e12: F(1.0), e13: F(0.0), e23: F(0.0) });
    // twice the right angle from e1 to e2
    assert_eq!(r.transform(vector(1.0, 0.0, 0.0)), Vector { e1: F(-1.0), e2: F(0.0), e3: F(0.0) });
    assert_eq!(r.transform(vector(0.0, 0.0, 1.0)), Vector { e1: F(0.0), e2: F(0.0), e3: F(1.0) });
    let q = vector(1.0, 0.0, 0.0).mul(vector(1.0, 1.0, 0.0));
    assert_eq!(q, Rotor { s: F(1.0), e12: F(1.0), e13: F(0.0), e23: F(0.0) });
    // twice the angle of 45 degrees, and the square of the length of the second vector
    assert_eq!(q.transform(vector(1.0, 0.0, 0.0)), Vector { e1: F(0.0), e2: F(2.0), e3: F(0.0) });
    assert_eq!(q.transform(vector(0.0, 1.0, 0.0)), Vector { e1: F(-2.0), e2: F(0.0), e3: F(0.0) });
    assert_eq!(q.mul(r), Rotor { s: F(-1.0), e12: F(1.0), e13: F(0.0), e23: F(0.0) });
    assert_eq!(r.mul(q), Rotor { s: F(-1.0), e12: F(1.0), e13: F(0.0), e23: F(0.0) });
}

#[test]
fn tangents() {
    let t: TVector<F> = TVector { e1o: F(1.0), e2o: F(-2.0), e3o: F(3.0), _pd: PhantomData::<Euclidean> };
    assert_eq!(t.into_mv(), R410 { e1p: F(-1.0), e1n: F(1.0), e2p: F(2.0), e2n: F(-2.0), e3p: F(-3.0), e3n: F(3.0), ..R410::zero() });
    assert_eq!(t.into_line(), Line { e12i: F(0.0), e13i: F(0.0), e23i: F(0.0), e1pn: F(-2.0), e2pn: F(4.0), e3pn: F(-6.0), _pd: PhantomData::<Euclidean> });
    assert_eq!(t.direction(), DVector { e1i: F(-2.0), e2i: F(4.0), e3i: F(-6.0), _pd: PhantomData::<Euclidean> });
    assert_eq!(t.mul_scalar(F(2.0)), TVector { e1o: F(2.0), e2o: F(-4.0), e3o: F(6.0), _pd: PhantomData::<Euclidean> });
    assert_eq!(t.div_scalar(F(2.0)), TVector { e1o: F(0.5), e2o: F(-1.0), e3o: F(1.5), _pd: PhantomData::<Euclidean> });
    let b: TBivector<F> = TBivector { e123: F(1.0), e12p: F(2.0), e12n: F(3.0), e13p: F(-1.0), e13n: F(2.0), e23p: F(4.0), e23n: F(1.0), _pd: PhantomData::<Euclidean> };
    assert_eq!(b.into_plane(), Plane { e123i: F(1.0), e12pn: F(-1.0), e13pn: F(-3.0), e23pn: F(3.0), _pd: PhantomData::<Euclidean> });
}

#[test]
fn closed_forms_agree_with_the_general_path() {
    let a = vector(3.0, 4.0, 0.0);
    let b = vector(1.0, -2.0, 2.0);
    assert_eq!(a.dot(b), a.into_mv().bitor(b.into_mv()).s);
    assert_eq!(a.outer(b), Bivector::from_mv(a.into_mv().bitxor(b.into_mv())));
    assert_eq!(a.mul(b), Rotor::from_mv(a.into_mv().mul(b.into_mv())));
    let c = bivector(1.0, -2.0, 2.0);
    let d = bivector(3.0, 1.0, -1.0);
    let t = Trivector { e123: F(2.0) };
    assert_eq!(c.dot(d), c.into_mv().bitor(d.into_mv()).s);
    assert_eq!(c.outer(a), Trivector::from_mv(c.into_mv().bitxor(a.into_mv())));
    assert_eq!(c.mul(t), Vector::from_mv(c.into_mv().mul(t.into_mv())));
    let s = point(1.0, 2.0, 2.0).into_sphere(F(2.0));
    let o = point(3.0, 0.0, -4.0).into_sphere(F(1.0));
    assert_eq!(s.dot(o), s.into_mv().bitor(o.into_mv()).s);
    assert_eq!(s.dot(o), s.inner(o).0);
}
