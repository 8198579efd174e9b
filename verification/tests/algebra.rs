use cga::blades::blade_product;
use cga::blades::count;
use cga::blades::count_shared;
use cga::blades::flips;
use cga::blades::generators;
use cga::blades::grade;
use cga::blades::index_of;
use cga::blades::KBlade;
use cga::blades::Rotor3;
use cga::blades::Vector3;
use cga::blades::BLADES;
use cga::field::half;
use cga::field::two;
use cga::spaces::IBasis;
use cga::Euclidean;
use cga::Field;
use cga::Hyperbolic;
use cga::Space;
use cga::SpaceKind;
use cga::Spherical;
use cga::R410;

/// A double-precision float as a scalar of the algebra.
#[derive(Clone, Copy, Debug, PartialEq, PartialOrd, Default)]
struct F(f64);

impl Field for F {
    fn zero_spec() -> F {
        F(0.0)
    }
    fn one_spec() -> F {
        F(1.0)
    }
    fn add_spec(self, rhs: F) -> F {
        F(self.0 + rhs.0)
    }
    fn sub_spec(self, rhs: F) -> F {
        F(self.0 - rhs.0)
    }
    fn mul_spec(self, rhs: F) -> F {
        F(self.0 * rhs.0)
    }
    fn neg_spec(self) -> F {
        F(-self.0)
    }
    fn recip_spec(self) -> F {
        F(1.0 / self.0)
    }
    fn abs_spec(self) -> F {
        F(self.0.abs())
    }
    fn sqrt_spec(self) -> F {
        F(self.0.sqrt())
    }
    fn has_sqrt_spec(self) -> bool {
        self.0 >= 0.0
    }
    fn sin_spec(self) -> F {
        F(self.0.sin())
    }
    fn cos_spec(self) -> F {
        F(self.0.cos())
    }
    fn is_zero_spec(self) -> bool {
        self.0 == 0.0
    }
    fn zero() -> F {
        F(0.0)
    }
    fn one() -> F {
        F(1.0)
    }
    fn add(self, rhs: F) -> F {
        F(self.0 + rhs.0)
    }
    fn sub(self, rhs: F) -> F {
        F(self.0 - rhs.0)
    }
    fn mul(self, rhs: F) -> F {
        F(self.0 * rhs.0)
    }
    fn neg(self) -> F {
        F(-self.0)
    }
    fn recip(self) -> F {
        F(1.0 / self.0)
    }
    fn abs(self) -> F {
        F(self.0.abs())
    }
    fn sqrt(self) -> F {
        F(self.0.sqrt())
    }
    fn try_sqrt(self) -> Option<F> {
        if self.0 >= 0.0 {
            Some(F(self.0.sqrt()))
        } else {
            None
        }
    }
    fn sin_cos(self) -> (F, F) {
        let (s, c) = self.0.sin_cos();
        (F(s), F(c))
    }
    fn is_zero(self) -> bool {
        self.0 == 0.0
    }
}

/// The unit blades, in the order of their enumeration.
fn units() -> [R410<F>; 32] {
    [
        R410::one(),
        R410::e1(),
        R410::e2(),
        R410::e3(),
        R410::ep(),
        R410::en(),
        R410::e12(),
        R410::e13(),
        R410::e1p(),
        R410::e1n(),
        R410::e23(),
        R410::e2p(),
        R410::e2n(),
        R410::e3p(),
        R410::e3n(),
        R410::epn(),
        R410::e123(),
        R410::e12p(),
        R410::e12n(),
        R410::e13p(),
        R410::e13n(),
        R410::e1pn(),
        R410::e23p(),
        R410::e23n(),
        R410::e2pn(),
        R410::e3pn(),
        R410::e123p(),
        R410::e123n(),
        R410::e12pn(),
        R410::e13pn(),
        R410::e23pn(),
        R410::e123pn(),
    ]
}

/// A multivector with a different coefficient on every blade.
fn sample() -> R410<F> {
    R410 { s: F(-1.0), e1: F(2.0), e2: F(3.0), e3: F(-4.0), ep: F(5.0), en: F(6.0), e12: F(-7.0), e13: F(8.0), e1p: F(9.0), e1n: F(-10.0), e23: F(11.0), e2p: F(12.0), e2n: F(-13.0), e3p: F(14.0), e3n: F(15.0), epn: F(-16.0), e123: F(17.0), e12p: F(18.0), e12n: F(-19.0), e13p: F(20.0), e13n: F(21.0), e1pn: F(-22.0), e23p: F(23.0), e23n: F(24.0), e2pn: F(-25.0), e3pn: F(26.0), e123p: F(27.0), e123n: F(-28.0), e12pn: F(29.0), e13pn: F(30.0), e23pn: F(-31.0), e123pn: F(32.0), ..R410::zero() }
}

/// Another multivector, with small coefficients and some zeros.
fn other() -> R410<F> {
    R410 { s: F(-2.0), e2: F(2.0), e3: F(-1.0), ep: F(1.0), en: F(-2.0), e13: F(2.0), e1p: F(-1.0), e1n: F(1.0), e23: F(-2.0), e2n: F(2.0), e3p: F(-1.0), e3n: F(1.0), epn: F(-2.0), e12p: F(2.0), e12n: F(-1.0), e13p: F(1.0), e13n: F(-2.0), e23p: F(2.0), e23n: F(-1.0), e2pn: F(1.0), e3pn: F(-2.0), e123n: F(2.0), e12pn: F(-1.0), e13pn: F(1.0), e23pn: F(-2.0), ..R410::zero() }
}

#[test]
fn it_works() {
    assert_eq!(2 + 2, 4);
}

#[test]
fn basis_vectors_anticommute() {
    let e1: R410<F> = R410::e1();
    let e2: R410<F> = R410::e2();
    assert_eq!(e1.mul(e2), e2.mul(e1).neg());
    assert_eq!(e1.mul(e2), R410::e12());
}

#[test]
fn basis_products_associate() {
    let e1: R410<F> = R410::e1();
    let e2: R410<F> = R410::e2();
    let e3: R410<F> = R410::e3();
    assert_eq!(e1.mul(e2).mul(e3), e1.mul(e2.mul(e3)));
    assert_eq!(e1.mul(e2).mul(e3), R410::e123());
}

#[test]
fn generators_square_to_their_signature() {
    let one: R410<F> = R410::one();
    assert_eq!(R410::<F>::e1().mul(R410::e1()), one);
    assert_eq!(R410::<F>::e2().mul(R410::e2()), one);
    assert_eq!(R410::<F>::e3().mul(R410::e3()), one);
    assert_eq!(R410::<F>::ep().mul(R410::ep()), one);
    assert_eq!(R410::<F>::en().mul(R410::en()), one.neg());
}

#[test]
fn products_of_unit_blades_follow_the_blade_rule() {
    let e = units();
    for x in 0..BLADES {
        for y in 0..BLADES {
            let (place, negative) = blade_product(x, y);
            let expected = if negative { e[place].neg() } else { e[place] };
            assert_eq!(e[x].mul(e[y]), expected, "{} * {}", x, y);

            let gx = generators(x);
            let gy = generators(y);
            let zero = R410::<F>::zero();
            let outer = if gx & gy == 0 { expected } else { zero };
            assert_eq!(e[x].bitxor(e[y]), outer, "{} ^ {}", x, y);
            let inner = if gx & gy == gx || gx & gy == gy { expected } else { zero };
            assert_eq!(e[x].bitor(e[y]), inner, "{} | {}", x, y);
        }
    }
}

#[test]
fn blade_product_on_chosen_blades() {
    // e2 * e1 = -e12
    assert_eq!(blade_product(2, 1), (6, true));
    // e1 * e2 = e12
    assert_eq!(blade_product(1, 2), (6, false));
    // en * en = -1
    assert_eq!(blade_product(5, 5), (0, true));
    // ep * ep = 1
    assert_eq!(blade_product(4, 4), (0, false));
    // e123pn * e123pn = -1
    assert_eq!(blade_product(31, 31), (0, true));
    // 1 * e23pn = e23pn
    assert_eq!(blade_product(0, 30), (30, false));
    // e12 * e23 = e13
    assert_eq!(blade_product(6, 10), (7, false));
    // epn * epn = 1
    assert_eq!(blade_product(15, 15), (0, false));
}

#[test]
fn enumeration_of_the_blades() {
    let expected: [u32; 32] = [
        0, 1, 2, 4, 8, 16, 3, 5, 9, 17, 6, 10, 18, 12, 20, 24, 7, 11, 19, 13, 21, 25, 14, 22, 26, 28,
        15, 23, 27, 29, 30, 31,
    ];
    for i in 0..BLADES {
        assert_eq!(generators(i), expected[i]);
        assert_eq!(index_of(expected[i]), i);
        assert_eq!(grade(i), expected[i].count_ones());
    }
    assert_eq!(grade(0), 0);
    assert_eq!(grade(5), 1);
    assert_eq!(grade(15), 2);
    assert_eq!(grade(31), 5);
}

#[test]
fn flips_counts_swaps() {
    // e1 then e2 stand in order; e2 then e1 take one swap
    assert_eq!(flips(0b001, 0, 0, 0b010, 0, 0), 0);
    assert_eq!(flips(0b010, 0, 0, 0b001, 0, 0), 1);
    // e123 * e123: e1 passes e2 e3, e2 passes e3
    assert_eq!(flips(0b111, 0, 0, 0b111, 0, 0), 3);
    // a positive generator on the right passes every negative one on the left
    assert_eq!(flips(0, 0b11, 0, 0b1, 0, 0), 2);
    // and every null one
    assert_eq!(flips(0, 0, 0b111, 0b11, 0, 0), 6);
    // a negative generator on the right passes the null ones on the left
    assert_eq!(flips(0, 0, 0b11, 0, 0b1, 0), 2);
    // a negative generator met twice counts once more
    assert_eq!(flips(0, 0b1, 0, 0, 0b1, 0), 1);
    assert_eq!(flips(0, 0b11, 0, 0, 0b11, 0), 3);
    // a positive or a null generator met twice does not
    assert_eq!(flips(0b1, 0, 0, 0b1, 0, 0), 0);
    assert_eq!(flips(0, 0, 0b1, 0, 0, 0b1), 0);
    // the highest bit is a generator like any other
    assert_eq!(flips(0x8000_0000, 0, 0, 0x7fff_ffff, 0, 0), 31);
    assert_eq!(flips(0xffff_ffff, 0, 0, 0xffff_ffff, 0, 0), 496);
    assert_eq!(flips(0, 0, 0, 0, 0, 0), 0);
}

#[test]
fn counting_generators() {
    assert_eq!(count(0), 0);
    assert_eq!(count(0b1011), 3);
    assert_eq!(count(u32::MAX), 32);
    assert_eq!(count_shared(0b1011, 0b0110), 1);
    assert_eq!(count_shared(0b1011, 0b0100), 0);
    assert_eq!(count_shared(u32::MAX, u32::MAX), 32);
}

fn kblade(positive: u32, negative: u32, null: u32, value: f64) -> KBlade<F> {
    KBlade { positive, negative, null, value: F(value) }
}

#[test]
fn multiples_of_blades_multiply() {
    // 2 e1 * 3 e2 = 6 e12
    assert_eq!(kblade(1, 0, 0, 2.0).mul(kblade(2, 0, 0, 3.0)), kblade(3, 0, 0, 6.0));
    // 3 e2 * 2 e1 = -6 e12
    assert_eq!(kblade(2, 0, 0, 3.0).mul(kblade(1, 0, 0, 2.0)), kblade(3, 0, 0, -6.0));
    // a negative generator squares to -1
    assert_eq!(kblade(0, 1, 0, 2.0).mul(kblade(0, 1, 0, 5.0)), kblade(0, 0, 0, -10.0));
    // a positive one to +1
    assert_eq!(kblade(4, 0, 0, 2.0).mul(kblade(4, 0, 0, 5.0)), kblade(0, 0, 0, 10.0));
    // a shared null generator gives zero
    assert_eq!(kblade(1, 0, 1, 2.0).mul(kblade(0, 0, 1, 5.0)), kblade(1, 0, 0, 0.0));
    // null generators that are not shared do not
    assert_eq!(kblade(0, 0, 1, 2.0).mul(kblade(0, 0, 2, 5.0)), kblade(0, 0, 3, 10.0));
    assert_eq!(kblade(0, 0, 2, 2.0).mul(kblade(0, 0, 1, 5.0)), kblade(0, 0, 3, -10.0));
}

#[test]
fn multiples_of_blades_add() {
    assert_eq!(kblade(3, 0, 0, 2.0).add(kblade(3, 0, 0, 5.0)), Some(kblade(3, 0, 0, 7.0)));
    assert_eq!(kblade(3, 0, 0, 2.0).add(kblade(1, 0, 0, 5.0)), None);
    assert_eq!(kblade(3, 0, 0, 2.0).add(kblade(3, 1, 0, 5.0)), None);
    assert_eq!(kblade(3, 0, 0, 2.0).add(kblade(3, 0, 4, 5.0)), None);
}

#[test]
fn vectors_of_three_generators_multiply() {
    let a = Vector3::new(F(1.0), F(2.0), F(3.0));
    let b = Vector3::new(F(4.0), F(5.0), F(6.0));
    assert_eq!(a.x, kblade(1, 0, 0, 1.0));
    assert_eq!(a.y, kblade(2, 0, 0, 2.0));
    assert_eq!(a.z, kblade(4, 0, 0, 3.0));
    assert_eq!(
        a.mul(b),
        Rotor3 {
            s: kblade(0, 0, 0, 32.0),
            xy: kblade(3, 0, 0, -3.0),
            xz: kblade(5, 0, 0, -6.0),
            yz: kblade(6, 0, 0, -3.0),
        }
    );
    assert_eq!(
        b.mul(a),
        Rotor3 {
            s: kblade(0, 0, 0, 32.0),
            xy: kblade(3, 0, 0, 3.0),
            xz: kblade(5, 0, 0, 6.0),
            yz: kblade(6, 0, 0, 3.0),
        }
    );
}

#[test]
fn scalar_helpers() {
    assert_eq!(two::<F>(), F(2.0));
    assert_eq!(half::<F>(), F(0.5));
}

#[test]
fn spaces_split_and_join() {
    let IBasis { ep, en } = Euclidean::split(F(3.0));
    assert_eq!((ep, en), (F(3.0), F(3.0)));
    let IBasis { ep, en } = Hyperbolic::split(F(3.0));
    assert_eq!((ep, en), (F(3.0), F(0.0)));
    let IBasis { ep, en } = Spherical::split(F(3.0));
    assert_eq!((ep, en), (F(0.0), F(3.0)));

    assert_eq!(Euclidean::join(F(3.0), F(3.0)), F(3.0));
    assert_eq!(Hyperbolic::join(F(3.0), F(4.0)), F(3.0));
    assert_eq!(Spherical::join(F(3.0), F(4.0)), F(4.0));
}

#[test]
fn spaces_infinity() {
    let zero = R410::<F>::zero();
    assert_eq!(Euclidean::infinity::<F>(), R410 { ep: F(1.0), en: F(1.0), ..zero });
    assert_eq!(Hyperbolic::infinity::<F>(), R410 { ep: F(1.0), ..zero });
    assert_eq!(Spherical::infinity::<F>(), R410 { en: F(1.0), ..zero });
    // infinity is a null vector in the Euclidean geometry only
    let ni = Euclidean::infinity::<F>();
    assert_eq!(ni.mul(ni), zero);
    let ni = Hyperbolic::infinity::<F>();
    assert_eq!(ni.mul(ni), R410::one());
    let ni = Spherical::infinity::<F>();
    assert_eq!(ni.mul(ni), R410::<F>::one().neg());
}

#[test]
fn spaces_dual() {
    assert_eq!(Euclidean::tag(), SpaceKind::Euclidean);
    assert_eq!(Hyperbolic::tag(), SpaceKind::Hyperbolic);
    assert_eq!(Spherical::tag(), SpaceKind::Spherical);
    assert_eq!(SpaceKind::Euclidean.dual_space(), SpaceKind::Euclidean);
    assert_eq!(SpaceKind::Hyperbolic.dual_space(), SpaceKind::Spherical);
    assert_eq!(SpaceKind::Spherical.dual_space(), SpaceKind::Hyperbolic);
}

#[test]
fn zero_one_and_scalars() {
    let zero = R410::<F>::zero();
    assert!(zero.is_zero());
    assert!(!R410::<F>::one().is_zero());
    assert!(!R410::<F>::e123pn().is_zero());
    assert_eq!(R410::<F>::one(), R410 { s: F(1.0), ..zero });
    assert_eq!(R410::from_scalar(F(7.0)), R410 { s: F(7.0), ..zero });
    assert_eq!(R410::<F>::i(), R410::e123pn());
    assert_eq!(R410::<F>::default(), zero);
}

#[test]
fn grade_involutions() {
    let a = sample();
    let b = other();
    assert_eq!(a.reverse(), R410 { s: F(-1.0), e1: F(2.0), e2: F(3.0), e3: F(-4.0), ep: F(5.0), en: F(6.0), e12: F(7.0), e13: F(-8.0), e1p: F(-9.0), e1n: F(10.0), e23: F(-11.0), e2p: F(-12.0), e2n: F(13.0), e3p: F(-14.0), e3n: F(-15.0), epn: F(16.0), e123: F(-17.0), e12p: F(-18.0), e12n: F(19.0), e13p: F(-20.0), e13n: F(-21.0), e1pn: F(22.0), e23p: F(-23.0), e23n: F(-24.0), e2pn: F(25.0), e3pn: F(-26.0), e123p: F(27.0), e123n: F(-28.0), e12pn: F(29.0), e13pn: F(30.0), e23pn: F(-31.0), e123pn: F(32.0), ..R410::zero() });
    assert_eq!(a.conjugate(), R410 { s: F(-1.0), e1: F(-2.0), e2: F(-3.0), e3: F(4.0), ep: F(-5.0), en: F(-6.0), e12: F(7.0), e13: F(-8.0), e1p: F(-9.0), e1n: F(10.0), e23: F(-11.0), e2p: F(-12.0), e2n: F(13.0), e3p: F(-14.0), e3n: F(-15.0), epn: F(16.0), e123: F(17.0), e12p: F(18.0), e12n: F(-19.0), e13p: F(20.0), e13n: F(21.0), e1pn: F(-22.0), e23p: F(23.0), e23n: F(24.0), e2pn: F(-25.0), e3pn: F(26.0), e123p: F(27.0), e123n: F(-28.0), e12pn: F(29.0), e13pn: F(30.0), e23pn: F(-31.0), e123pn: F(-32.0), ..R410::zero() });
    assert_eq!(a.involute(), R410 { s: F(-1.0), e1: F(-2.0), e2: F(-3.0), e3: F(4.0), ep: F(-5.0), en: F(-6.0), e12: F(-7.0), e13: F(8.0), e1p: F(9.0), e1n: F(-10.0), e23: F(11.0), e2p: F(12.0), e2n: F(-13.0), e3p: F(14.0), e3n: F(15.0), epn: F(-16.0), e123: F(-17.0), e12p: F(-18.0), e12n: F(19.0), e13p: F(-20.0), e13n: F(-21.0), e1pn: F(22.0), e23p: F(-23.0), e23n: F(-24.0), e2pn: F(25.0), e3pn: F(-26.0), e123p: F(27.0), e123n: F(-28.0), e12pn: F(29.0), e13pn: F(30.0), e23pn: F(-31.0), e123pn: F(-32.0), ..R410::zero() });
    assert_eq!(a.reverse().reverse(), a);
    assert_eq!(a.conjugate(), a.reverse().involute());
}

#[test]
fn sums_and_scalars() {
    let a = sample();
    let b = other();
    assert_eq!(a.add(b), R410 { s: F(-3.0), e1: F(2.0), e2: F(5.0), e3: F(-5.0), ep: F(6.0), en: F(4.0), e12: F(-7.0), e13: F(10.0), e1p: F(8.0), e1n: F(-9.0), e23: F(9.0), e2p: F(12.0), e2n: F(-11.0), e3p: F(13.0), e3n: F(16.0), epn: F(-18.0), e123: F(17.0), e12p: F(20.0), e12n: F(-20.0), e13p: F(21.0), e13n: F(19.0), e1pn: F(-22.0), e23p: F(25.0), e23n: F(23.0), e2pn: F(-24.0), e3pn: F(24.0), e123p: F(27.0), e123n: F(-26.0), e12pn: F(28.0), e13pn: F(31.0), e23pn: F(-33.0), e123pn: F(32.0), ..R410::zero() });
    assert_eq!(a.sub(b), R410 { s: F(1.0), e1: F(2.0), e2: F(1.0), e3: F(-3.0), ep: F(4.0), en: F(8.0), e12: F(-7.0), e13: F(6.0), e1p: F(10.0), e1n: F(-11.0), e23: F(13.0), e2p: F(12.0), e2n: F(-15.0), e3p: F(15.0), e3n: F(14.0), epn: F(-14.0), e123: F(17.0), e12p: F(16.0), e12n: F(-18.0), e13p: F(19.0), e13n: F(23.0), e1pn: F(-22.0), e23p: F(21.0), e23n: F(25.0), e2pn: F(-26.0), e3pn: F(28.0), e123p: F(27.0), e123n: F(-30.0), e12pn: F(30.0), e13pn: F(29.0), e23pn: F(-29.0), e123pn: F(32.0), ..R410::zero() });
    assert_eq!(a.neg(), R410 { s: F(1.0), e1: F(-2.0), e2: F(-3.0), e3: F(4.0), ep: F(-5.0), en: F(-6.0), e12: F(7.0), e13: F(-8.0), e1p: F(-9.0), e1n: F(10.0), e23: F(-11.0), e2p: F(-12.0), e2n: F(13.0), e3p: F(-14.0), e3n: F(-15.0), epn: F(16.0), e123: F(-17.0), e12p: F(-18.0), e12n: F(19.0), e13p: F(-20.0), e13n: F(-21.0), e1pn: F(22.0), e23p: F(-23.0), e23n: F(-24.0), e2pn: F(25.0), e3pn: F(-26.0), e123p: F(-27.0), e123n: F(28.0), e12pn: F(-29.0), e13pn: F(-30.0), e23pn: F(31.0), e123pn: F(-32.0), ..R410::zero() });
    assert_eq!(a.mul_scalar(F(2.0)), R410 { s: F(-2.0), e1: F(4.0), e2: F(6.0), e3: F(-8.0), ep: F(10.0), en: F(12.0), e12: F(-14.0), e13: F(16.0), e1p: F(18.0), e1n: F(-20.0), e23: F(22.0), e2p: F(24.0), e2n: F(-26.0), e3p: F(28.0), e3n: F(30.0), epn: F(-32.0), e123: F(34.0), e12p: F(36.0), e12n: F(-38.0), e13p: F(40.0), e13n: F(42.0), e1pn: F(-44.0), e23p: F(46.0), e23n: F(48.0), e2pn: F(-50.0), e3pn: F(52.0), e123p: F(54.0), e123n: F(-56.0), e12pn: F(58.0), e13pn: F(60.0), e23pn: F(-62.0), e123pn: F(64.0), ..R410::zero() });
    assert_eq!(a.div_scalar(F(2.0)), R410 { s: F(-0.5), e1: F(1.0), e2: F(1.5), e3: F(-2.0), ep: F(2.5), en: F(3.0), e12: F(-3.5), e13: F(4.0), e1p: F(4.5), e1n: F(-5.0), e23: F(5.5), e2p: F(6.0), e2n: F(-6.5), e3p: F(7.0), e3n: F(7.5), epn: F(-8.0), e123: F(8.5), e12p: F(9.0), e12n: F(-9.5), e13p: F(10.0), e13n: F(10.5), e1pn: F(-11.0), e23p: F(11.5), e23n: F(12.0), e2pn: F(-12.5), e3pn: F(13.0), e123p: F(13.5), e123n: F(-14.0), e12pn: F(14.5), e13pn: F(15.0), e23pn: F(-15.5), e123pn: F(16.0), ..R410::zero() });
    assert_eq!(a.add_scalar(F(2.0)), R410 { s: F(1.0), e1: F(2.0), e2: F(3.0), e3: F(-4.0), ep: F(5.0), en: F(6.0), e12: F(-7.0), e13: F(8.0), e1p: F(9.0), e1n: F(-10.0), e23: F(11.0), e2p: F(12.0), e2n: F(-13.0), e3p: F(14.0), e3n: F(15.0), epn: F(-16.0), e123: F(17.0), e12p: F(18.0), e12n: F(-19.0), e13p: F(20.0), e13n: F(21.0), e1pn: F(-22.0), e23p: F(23.0), e23n: F(24.0), e2pn: F(-25.0), e3pn: F(26.0), e123p: F(27.0), e123n: F(-28.0), e12pn: F(29.0), e13pn: F(30.0), e23pn: F(-31.0), e123pn: F(32.0), ..R410::zero() });
    assert_eq!(a.sub_scalar(F(2.0)), R410 { s: F(-3.0), e1: F(2.0), e2: F(3.0), e3: F(-4.0), ep: F(5.0), en: F(6.0), e12: F(-7.0), e13: F(8.0), e1p: F(9.0), e1n: F(-10.0), e23: F(11.0), e2p: F(12.0), e2n: F(-13.0), e3p: F(14.0), e3n: F(15.0), epn: F(-16.0), e123: F(17.0), e12p: F(18.0), e12n: F(-19.0), e13p: F(20.0), e13n: F(21.0), e1pn: F(-22.0), e23p: F(23.0), e23n: F(24.0), e2pn: F(-25.0), e3pn: F(26.0), e123p: F(27.0), e123n: F(-28.0), e12pn: F(29.0), e13pn: F(30.0), e23pn: F(-31.0), e123pn: F(32.0), ..R410::zero() });
    assert_eq!(a.sub_from(F(2.0)), R410 { s: F(3.0), e1: F(-2.0), e2: F(-3.0), e3: F(4.0), ep: F(-5.0), en: F(-6.0), e12: F(7.0), e13: F(-8.0), e1p: F(-9.0), e1n: F(10.0), e23: F(-11.0), e2p: F(-12.0), e2n: F(13.0), e3p: F(-14.0), e3n: F(-15.0), epn: F(16.0), e123: F(-17.0), e12p: F(-18.0), e12n: F(19.0), e13p: F(-20.0), e13n: F(-21.0), e1pn: F(22.0), e23p: F(-23.0), e23n: F(-24.0), e2pn: F(25.0), e3pn: F(-26.0), e123p: F(-27.0), e123n: F(28.0), e12pn: F(-29.0), e13pn: F(-30.0), e23pn: F(31.0), e123pn: F(-32.0), ..R410::zero() });
}

#[test]
fn geometric_product_of_two_multivectors() {
    let a = sample();
    let b = other();
    assert_eq!(a.mul(b), R410 { s: F(-164.0), e1: F(-84.0), e2: F(233.0), e3: F(34.0), ep: F(30.0), en: F(123.0), e12: F(-44.0), e13: F(-115.0), e1p: F(-289.0), e1n: F(104.0), e23: F(174.0), e2p: F(163.0), e2n: F(90.0), e3p: F(-17.0), e3n: F(112.0), epn: F(-48.0), e123: F(-110.0), e12p: F(-32.0), e12n: F(349.0), e13p: F(90.0), e13n: F(-273.0), e1pn: F(48.0), e23p: F(-130.0), e23n: F(-33.0), e2pn: F(63.0), e3pn: F(90.0), e123p: F(237.0), e123n: F(-24.0), e12pn: F(-214.0), e13pn: F(-83.0), e23pn: F(-134.0), e123pn: F(-154.0), ..R410::zero() });
    assert_eq!(b.mul(a), R410 { s: F(-164.0), e1: F(256.0), e2: F(-23.0), e3: F(-170.0), ep: F(234.0), en: F(-51.0), e12: F(-124.0), e13: F(117.0), e1p: F(-57.0), e1n: F(114.0), e23: F(106.0), e2p: F(183.0), e2n: F(-192.0), e3p: F(103.0), e3n: F(-58.0), epn: F(-244.0), e123: F(-214.0), e12p: F(-420.0), e12n: F(279.0), e13p: F(86.0), e13n: F(-35.0), e1pn: F(224.0), e23p: F(74.0), e23n: F(-147.0), e2pn: F(-53.0), e3pn: F(-202.0), e123p: F(-235.0), e123n: F(182.0), e12pn: F(-58.0), e13pn: F(-55.0), e23pn: F(250.0), e123pn: F(-154.0), ..R410::zero() });
}

#[test]
fn outer_product_of_two_multivectors() {
    let a = sample();
    let b = other();
    assert_eq!(a.bitxor(b), R410 { s: F(2.0), e1: F(-4.0), e2: F(-8.0), e3: F(9.0), ep: F(-11.0), en: F(-10.0), e12: F(18.0), e13: F(-20.0), e1p: F(-15.0), e1n: F(15.0), e23: F(-15.0), e2p: F(-31.0), e2n: F(6.0), e3p: F(-26.0), e3n: F(-17.0), epn: F(18.0), e123: F(-53.0), e12p: F(-60.0), e12n: F(74.0), e13p: F(-20.0), e13n: F(-48.0), e1pn: F(21.0), e23p: F(-10.0), e23n: F(-53.0), e2pn: F(-10.0), e3pn: F(-80.0), e123p: F(-32.0), e123n: F(85.0), e12pn: F(-138.0), e13pn: F(-138.0), e23pn: F(-13.0), e123pn: F(-154.0), ..R410::zero() });
    assert_eq!(b.bitxor(a), R410 { s: F(2.0), e1: F(-4.0), e2: F(-8.0), e3: F(9.0), ep: F(-11.0), en: F(-10.0), e12: F(10.0), e13: F(-16.0), e1p: F(-19.0), e1n: F(23.0), e23: F(-25.0), e2p: F(-17.0), e2n: F(42.0), e3p: F(-28.0), e3n: F(-45.0), epn: F(50.0), e123: F(-53.0), e12p: F(-60.0), e12n: F(74.0), e13p: F(-20.0), e13n: F(-48.0), e1pn: F(21.0), e23p: F(-10.0), e23n: F(-53.0), e2pn: F(-10.0), e3pn: F(-80.0), e123p: F(-168.0), e123n: F(91.0), e12pn: F(14.0), e13pn: F(-20.0), e23pn: F(219.0), e123pn: F(-154.0), ..R410::zero() });
}

#[test]
fn inner_product_of_two_multivectors() {
    let a = sample();
    let b = other();
    assert_eq!(a.bitor(b), R410 { s: F(-164.0), e1: F(-84.0), e2: F(233.0), e3: F(34.0), ep: F(30.0), en: F(123.0), e12: F(-84.0), e13: F(1.0), e1p: F(-173.0), e1n: F(109.0), e23: F(140.0), e2p: F(173.0), e2n: F(-51.0), e3p: F(43.0), e3n: F(27.0), epn: F(-146.0), e123: F(-115.0), e12p: F(9.0), e12n: F(1.0), e13p: F(143.0), e13n: F(-127.0), e1pn: F(143.0), e23p: F(-154.0), e23n: F(10.0), e2pn: F(134.0), e3pn: F(8.0), e123p: F(10.0), e123n: F(22.0), e12pn: F(-89.0), e13pn: F(-125.0), e23pn: F(64.0), e123pn: F(-64.0), ..R410::zero() });
    assert_eq!(b.bitor(a), R410 { s: F(-164.0), e1: F(256.0), e2: F(-23.0), e3: F(-170.0), ep: F(234.0), en: F(-51.0), e12: F(-84.0), e13: F(1.0), e1p: F(-173.0), e1n: F(109.0), e23: F(140.0), e2p: F(173.0), e2n: F(-51.0), e3p: F(43.0), e3n: F(27.0), epn: F(-146.0), e123: F(-81.0), e12p: F(-149.0), e12n: F(141.0), e13p: F(-97.0), e13n: F(47.0), e1pn: F(73.0), e23p: F(-6.0), e23n: F(-40.0), e2pn: F(92.0), e3pn: F(-108.0), e123p: F(10.0), e123n: F(22.0), e12pn: F(-89.0), e13pn: F(-125.0), e23pn: F(64.0), e123pn: F(-64.0), ..R410::zero() });
}

#[test]
fn dual_and_undual() {
    let a = sample();
    let b = other();
    assert_eq!(a.dual(), R410 { s: F(32.0), e1: F(-31.0), e2: F(-30.0), e3: F(29.0), ep: F(28.0), en: F(-27.0), e12: F(-26.0), e13: F(-25.0), e1p: F(-24.0), e1n: F(-23.0), e23: F(22.0), e2p: F(21.0), e2n: F(20.0), e3p: F(19.0), e3n: F(-18.0), epn: F(17.0), e123: F(16.0), e12p: F(15.0), e12n: F(14.0), e13p: F(13.0), e13n: F(-12.0), e1pn: F(11.0), e23p: F(-10.0), e23n: F(9.0), e2pn: F(-8.0), e3pn: F(-7.0), e123p: F(6.0), e123n: F(5.0), e12pn: F(4.0), e13pn: F(3.0), e23pn: F(-2.0), e123pn: F(1.0), ..R410::zero() });
    assert_eq!(a.not(), R410 { s: F(32.0), e1: F(-31.0), e2: F(-30.0), e3: F(29.0), ep: F(28.0), en: F(-27.0), e12: F(-26.0), e13: F(-25.0), e1p: F(-24.0), e1n: F(-23.0), e23: F(22.0), e2p: F(21.0), e2n: F(20.0), e3p: F(19.0), e3n: F(-18.0), epn: F(17.0), e123: F(16.0), e12p: F(15.0), e12n: F(14.0), e13p: F(13.0), e13n: F(-12.0), e1pn: F(11.0), e23p: F(-10.0), e23n: F(9.0), e2pn: F(-8.0), e3pn: F(-7.0), e123p: F(6.0), e123n: F(5.0), e12pn: F(4.0), e13pn: F(3.0), e23pn: F(-2.0), e123pn: F(1.0), ..R410::zero() });
    assert_eq!(a.undual(), R410 { s: F(-32.0), e1: F(31.0), e2: F(30.0), e3: F(-29.0), ep: F(-28.0), en: F(27.0), e12: F(26.0), e13: F(25.0), e1p: F(24.0), e1n: F(23.0), e23: F(-22.0), e2p: F(-21.0), e2n: F(-20.0), e3p: F(-19.0), e3n: F(18.0), epn: F(-17.0), e123: F(-16.0), e12p: F(-15.0), e12n: F(-14.0), e13p: F(-13.0), e13n: F(12.0), e1pn: F(-11.0), e23p: F(10.0), e23n: F(-9.0), e2pn: F(8.0), e3pn: F(7.0), e123p: F(-6.0), e123n: F(-5.0), e12pn: F(-4.0), e13pn: F(-3.0), e23pn: F(2.0), e123pn: F(-1.0), ..R410::zero() });
    assert_eq!(a.dual().undual(), a);
    assert_eq!(a.undual().dual(), a);
}

#[test]
fn regressive_product_is_the_dual_of_the_inner_product_with_the_dual() {
    let a = sample();
    let b = other();
    assert_eq!(a.bitand(b), R410 { s: F(-2.0), e1: F(-60.0), e2: F(-24.0), e3: F(-41.0), ep: F(-53.0), en: F(10.0), e12: F(17.0), e13: F(141.0), e1p: F(165.0), e1n: F(-133.0), e23: F(74.0), e2p: F(55.0), e2n: F(-1.0), e3p: F(28.0), e3n: F(-74.0), epn: F(-72.0), e123: F(162.0), e12p: F(226.0), e12n: F(-314.0), e13p: F(-88.0), e13n: F(154.0), e1pn: F(-136.0), e23p: F(28.0), e23n: F(90.0), e2pn: F(-5.0), e3pn: F(56.0), e123p: F(-237.0), e123n: F(24.0), e12pn: F(214.0), e13pn: F(83.0), e23pn: F(134.0), e123pn: F(154.0), ..R410::zero() });
    assert_eq!(a.bitand(b), a.dual().bitor(b).dual());
}

#[test]
fn sandwiches() {
    let a = sample();
    let b = other();
    assert_eq!(b.sandwich(a), R410 { s: F(-426.0), e1: F(-114.0), e2: F(1494.0), e3: F(-438.0), ep: F(384.0), en: F(-480.0), e12: F(490.0), e13: F(-638.0), e1p: F(-526.0), e1n: F(-1314.0), e23: F(-2086.0), e2p: F(-806.0), e2n: F(438.0), e3p: F(-1178.0), e3n: F(-1438.0), epn: F(10.0), e123: F(-750.0), e12p: F(-122.0), e12n: F(-1846.0), e13p: F(-894.0), e13n: F(-650.0), e1pn: F(822.0), e23p: F(1442.0), e23n: F(134.0), e2pn: F(834.0), e3pn: F(-914.0), e123p: F(-1168.0), e123n: F(-672.0), e12pn: F(-1026.0), e13pn: F(902.0), e23pn: F(-954.0), e123pn: F(-438.0), ..R410::zero() });
    assert_eq!(b.reversed_sandwich(a), R410 { s: F(-362.0), e1: F(-1006.0), e2: F(18.0), e3: F(-2362.0), ep: F(-1660.0), en: F(1132.0), e12: F(42.0), e13: F(1506.0), e1p: F(2010.0), e1n: F(-1558.0), e23: F(-94.0), e2p: F(-1410.0), e2n: F(1390.0), e3p: F(-1378.0), e3n: F(766.0), epn: F(-1174.0), e123: F(-66.0), e12p: F(1006.0), e12n: F(-1106.0), e13p: F(-762.0), e13n: F(46.0), e1pn: F(-550.0), e23p: F(146.0), e23n: F(-198.0), e2pn: F(-314.0), e3pn: F(-2214.0), e123p: F(264.0), e123n: F(344.0), e12pn: F(214.0), e13pn: F(2774.0), e23pn: F(238.0), e123pn: F(-642.0), ..R410::zero() });
}

#[test]
fn norms_and_inverses() {
    let c: R410<F> = R410 { e1: F(3.0), e2: F(4.0), ..R410::zero() };
    let d: R410<F> = R410 { e12: F(3.0), e13: F(4.0), ..R410::zero() };
    let e: R410<F> = R410 { s: F(2.0), e12: F(2.0), ..R410::zero() };
    assert_eq!(c.norm_squared(), F(-25.0));
    assert_eq!(d.norm_squared(), F(25.0));
    assert_eq!(e.norm_squared(), F(8.0));
    assert_eq!(c.norm(), F(5.0));
    assert_eq!(d.norm(), F(5.0));
    let g: R410<F> = R410 { e2: F(4.0), ..R410::zero() };
    let h: R410<F> = R410 { e13: F(-2.0), ..R410::zero() };
    assert_eq!(g.normalized(), R410 { e2: F(1.0), ..R410::zero() });
    assert_eq!(h.normalized(), R410 { e13: F(-1.0), ..R410::zero() });
    assert_eq!(e.recip(), R410 { s: F(0.25), e12: F(-0.25), ..R410::zero() });
    assert_eq!(e.mul(e.recip()), R410::one());
    assert_eq!(d.div(e), R410 { s: F(0.75), e12: F(0.75), e13: F(1.0), e23: F(-1.0), ..R410::zero() });
    assert_eq!(e.div_into(F(4.0)), R410 { s: F(1.0), e12: F(-1.0), ..R410::zero() });
    assert_eq!(c.inorm(), F(5.0));
    assert_eq!(R410::<F>::i().recip(), R410::<F>::i().neg());
    assert_eq!(e.try_recip(), Some(e.recip()));
    assert_eq!(R410::<F>::zero().try_recip(), None);
    // a null vector has no inverse
    assert_eq!(R410::<F>::ep().add(R410::en()).try_recip(), None);
}
