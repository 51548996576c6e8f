//! Conversion plans: the formula of each directed unit pair, exactly.
//!
//! Every supported conversion is an affine map.  A [`Affine`] holds it as
//! four integers: applied to a value `v`, the plan means
//!
//! ```text
//! (v + pre/100) * num / den + post/100
//! ```
//!
//! in that operation order.  The two offsets are stored in hundredths so
//! that the temperature offsets (32 and 273.15 degrees) are exact
//! integers.  Every other category has both offsets zero and is a pure
//! scale.  The module gives each directed pair its plan, evaluates a plan
//! exactly on a rational value, and proves the round-trip and identity
//! laws over that exact semantics.

use vstd::prelude::*;
use crate::units::{Unit, unit_category};

verus! {

/// An affine conversion plan: `v` converts to
/// `(v + pre/100) * num / den + post/100`, operations in that order.
#[derive(Clone, Copy, PartialEq, Eq, Structural, Debug)]
pub struct Affine {
    /// Offset added before scaling, in hundredths.
    pub pre: i64,
    /// Numerator of the scale factor.
    pub num: i64,
    /// Denominator of the scale factor.
    pub den: i64,
    /// Offset added after scaling, in hundredths.
    pub post: i64,
}

/// Well-formedness of a plan: a positive, bounded scale and bounded
/// offsets.  Every plan this library hands out satisfies it, and it is
/// what the exact evaluator needs to rule out overflow.
pub open spec fn plan_wf(p: Affine) -> bool {
    &&& 1 <= p.num <= 1000000
    &&& 1 <= p.den <= 1000000
    &&& -27315 <= p.pre <= 27315
    &&& -27315 <= p.post <= 27315
}

/// The plan that returns its input unchanged.
pub open spec fn identity_plan() -> Affine {
    Affine { pre: 0, num: 1, den: 1, post: 0 }
}

/// The conversion plan of the directed pair `(from, to)`: `Some` exactly
/// when both units share a category.  An identity pair (`from == to`) is
/// defined and returns the input unchanged.  The non-identity plans are
/// the documented formulas of the converter, one per directed pair.
pub open spec fn spec_plan(from: Unit, to: Unit) -> Option<Affine> {
    if from == to {
        Some(identity_plan())
    } else {
        match (from, to) {
            // time: base unit second
            (Unit::Second, Unit::Minute) => Some(Affine { pre: 0, num: 1, den: 60, post: 0 }),
            (Unit::Second, Unit::Hour) => Some(Affine { pre: 0, num: 1, den: 3600, post: 0 }),
            (Unit::Minute, Unit::Second) => Some(Affine { pre: 0, num: 60, den: 1, post: 0 }),
            (Unit::Minute, Unit::Hour) => Some(Affine { pre: 0, num: 1, den: 60, post: 0 }),
            (Unit::Hour, Unit::Second) => Some(Affine { pre: 0, num: 3600, den: 1, post: 0 }),
            (Unit::Hour, Unit::Minute) => Some(Affine { pre: 0, num: 60, den: 1, post: 0 }),
            // length: base unit meter
            (Unit::Centimeter, Unit::Meter) => Some(Affine { pre: 0, num: 1, den: 100, post: 0 }),
            (Unit::Centimeter, Unit::Kilometer) => Some(
                Affine { pre: 0, num: 1, den: 100000, post: 0 },
            ),
            (Unit::Meter, Unit::Centimeter) => Some(Affine { pre: 0, num: 100, den: 1, post: 0 }),
            (Unit::Meter, Unit::Kilometer) => Some(Affine { pre: 0, num: 1, den: 1000, post: 0 }),
            (Unit::Kilometer, Unit::Centimeter) => Some(
                Affine { pre: 0, num: 100000, den: 1, post: 0 },
            ),
            (Unit::Kilometer, Unit::Meter) => Some(Affine { pre: 0, num: 1000, den: 1, post: 0 }),
            // mass: base unit gram
            (Unit::Gram, Unit::Kilogram) => Some(Affine { pre: 0, num: 1, den: 1000, post: 0 }),
            (Unit::Gram, Unit::Ton) => Some(Affine { pre: 0, num: 1, den: 1000000, post: 0 }),
            (Unit::Kilogram, Unit::Gram) => Some(Affine { pre: 0, num: 1000, den: 1, post: 0 }),
            (Unit::Kilogram, Unit::Ton) => Some(Affine { pre: 0, num: 1, den: 1000, post: 0 }),
            (Unit::Ton, Unit::Gram) => Some(Affine { pre: 0, num: 1000000, den: 1, post: 0 }),
            (Unit::Ton, Unit::Kilogram) => Some(Affine { pre: 0, num: 1000, den: 1, post: 0 }),
            // temperature: affine, offsets in hundredths of a degree
            (Unit::Celsius, Unit::Fahrenheit) => Some(
                Affine { pre: 0, num: 9, den: 5, post: 3200 },
            ),
            (Unit::Celsius, Unit::Kelvin) => Some(Affine { pre: 0, num: 1, den: 1, post: 27315 }),
            (Unit::Fahrenheit, Unit::Celsius) => Some(
                Affine { pre: -3200i64, num: 5, den: 9, post: 0 },
            ),
            (Unit::Fahrenheit, Unit::Kelvin) => Some(
                Affine { pre: -3200i64, num: 5, den: 9, post: 27315 },
            ),
            (Unit::Kelvin, Unit::Celsius) => Some(
                Affine { pre: -27315i64, num: 1, den: 1, post: 0 },
            ),
            (Unit::Kelvin, Unit::Fahrenheit) => Some(
                Affine { pre: -27315i64, num: 9, den: 5, post: 3200 },
            ),
            _ => None,
        }
    }
}

/// The conversion plan of the directed pair `(from, to)`, or `None` when
/// the units belong to different categories.
pub fn plan_for(from: Unit, to: Unit) -> (r: Option<Affine>)
    ensures
        r == spec_plan(from, to),
{
    if from == to {
        Some(Affine { pre: 0, num: 1, den: 1, post: 0 })
    } else {
        match (from, to) {
            (Unit::Second, Unit::Minute) => Some(Affine { pre: 0, num: 1, den: 60, post: 0 }),
            (Unit::Second, Unit::Hour) => Some(Affine { pre: 0, num: 1, den: 3600, post: 0 }),
            (Unit::Minute, Unit::Second) => Some(Affine { pre: 0, num: 60, den: 1, post: 0 }),
            (Unit::Minute, Unit::Hour) => Some(Affine { pre: 0, num: 1, den: 60, post: 0 }),
            (Unit::Hour, Unit::Second) => Some(Affine { pre: 0, num: 3600, den: 1, post: 0 }),
            (Unit::Hour, Unit::Minute) => Some(Affine { pre: 0, num: 60, den: 1, post: 0 }),
            (Unit::Centimeter, Unit::Meter) => Some(Affine { pre: 0, num: 1, den: 100, post: 0 }),
            (Unit::Centimeter, Unit::Kilometer) => Some(
                Affine { pre: 0, num: 1, den: 100000, post: 0 },
            ),
            (Unit::Meter, Unit::Centimeter) => Some(Affine { pre: 0, num: 100, den: 1, post: 0 }),
            (Unit::Meter, Unit::Kilometer) => Some(Affine { pre: 0, num: 1, den: 1000, post: 0 }),
            (Unit::Kilometer, Unit::Centimeter) => Some(
                Affine { pre: 0, num: 100000, den: 1, post: 0 },
            ),
            (Unit::Kilometer, Unit::Meter) => Some(Affine { pre: 0, num: 1000, den: 1, post: 0 }),
            (Unit::Gram, Unit::Kilogram) => Some(Affine { pre: 0, num: 1, den: 1000, post: 0 }),
            (Unit::Gram, Unit::Ton) => Some(Affine { pre: 0, num: 1, den: 1000000, post: 0 }),
            (Unit::Kilogram, Unit::Gram) => Some(Affine { pre: 0, num: 1000, den: 1, post: 0 }),
            (Unit::Kilogram, Unit::Ton) => Some(Affine { pre: 0, num: 1, den: 1000, post: 0 }),
            (Unit::Ton, Unit::Gram) => Some(Affine { pre: 0, num: 1000000, den: 1, post: 0 }),
            (Unit::Ton, Unit::Kilogram) => Some(Affine { pre: 0, num: 1000, den: 1, post: 0 }),
            (Unit::Celsius, Unit::Fahrenheit) => Some(
                Affine { pre: 0, num: 9, den: 5, post: 3200 },
            ),
            (Unit::Celsius, Unit::Kelvin) => Some(Affine { pre: 0, num: 1, den: 1, post: 27315 }),
            (Unit::Fahrenheit, Unit::Celsius) => Some(
                Affine { pre: -3200, num: 5, den: 9, post: 0 },
            ),
            (Unit::Fahrenheit, Unit::Kelvin) => Some(
                Affine { pre: -3200, num: 5, den: 9, post: 27315 },
            ),
            (Unit::Kelvin, Unit::Celsius) => Some(
                Affine { pre: -27315, num: 1, den: 1, post: 0 },
            ),
            (Unit::Kelvin, Unit::Fahrenheit) => Some(
                Affine { pre: -27315, num: 9, den: 5, post: 3200 },
            ),
            _ => None,
        }
    }
}

/// Numerator of the exact result of applying plan `p` to the rational
/// `xn / xd`; the matching denominator is [`apply_den`].
pub open spec fn apply_num(p: Affine, xn: int, xd: int) -> int {
    (100 * xn + (p.pre as int) * xd) * (p.num as int) + (p.post as int) * xd * (p.den as int)
}

/// Denominator of the exact result of applying plan `p` to a rational
/// with denominator `xd`.
pub open spec fn apply_den(p: Affine, xd: int) -> int {
    100 * xd * (p.den as int)
}

/// Equality of the rationals `an / ad` and `bn / bd`, by cross
/// multiplication.
pub open spec fn rat_eq(an: int, ad: int, bn: int, bd: int) -> bool {
    an * bd == bn * ad
}

/// Plans `p` and `q` are mutual inverses as affine maps: their scales
/// multiply to one and their offsets cancel.  The two equations are the
/// coefficient form of `q(p(v)) == v`.
pub open spec fn is_inverse(p: Affine, q: Affine) -> bool {
    &&& (p.num as int) * (q.num as int) == (p.den as int) * (q.den as int)
    &&& (q.num as int) * ((p.pre as int) * (p.num as int) + (p.post as int) * (p.den as int)) + (
    p.den as int) * ((q.pre as int) * (q.num as int) + (q.post as int) * (q.den as int)) == 0
}

/// A product of two bounded factors is bounded by the product of the
/// bounds.
proof fn lemma_abs_mul_bound(a: int, b: int, aa: int, bb: int)
    requires
        -aa <= a <= aa,
        -bb <= b <= bb,
        0 <= aa,
        0 <= bb,
    ensures
        -(aa * bb) <= a * b <= aa * bb,
{
    assert(-(aa * bb) <= a * b <= aa * bb) by (nonlinear_arith)
        requires
            -aa <= a <= aa,
            -bb <= b <= bb,
            0 <= aa,
            0 <= bb,
    {}
}

/// Apply plan `p` to the exact rational `xn / xd`; the result is the
/// rational `r.0 / r.1`, with no rounding of any kind.
pub fn apply_exact(p: &Affine, xn: i64, xd: i64) -> (r: (i128, i128))
    requires
        plan_wf(*p),
        xd != 0,
    ensures
        r.0 == apply_num(*p, xn as int, xd as int),
        r.1 == apply_den(*p, xd as int),
        r.1 != 0,
{
    proof {
        lemma_abs_mul_bound(p.pre as int, xd as int, 27315, (9223372036854775808 as int));
    }
    let scaled: i128 = 100 * (xn as i128) + (p.pre as i128) * (xd as i128);
    proof {
        lemma_abs_mul_bound(scaled as int, p.num as int, 27415 * (9223372036854775808 as int), 1000000);
        lemma_abs_mul_bound(p.post as int, xd as int, 27315, (9223372036854775808 as int));
        lemma_abs_mul_bound(
            (p.post as int) * (xd as int),
            p.den as int,
            27315 * (9223372036854775808 as int),
            1000000,
        );
    }
    let numerator: i128 = scaled * (p.num as i128) + (p.post as i128) * (xd as i128) * (
    p.den as i128);
    proof {
        lemma_abs_mul_bound(100 * (xd as int), p.den as int, 100 * (9223372036854775808 as int), 1000000);
        assert(100 * (xd as int) * (p.den as int) != 0) by (nonlinear_arith)
            requires
                xd != 0,
                p.den >= 1,
        {}
    }
    let denominator: i128 = 100 * (xd as i128) * (p.den as i128);
    (numerator, denominator)
}

/// Every plan the table hands out is well formed, and a pair is defined
/// exactly when its two units share a category.
pub proof fn lemma_plan_defined(from: Unit, to: Unit)
    ensures
        spec_plan(from, to) is Some <==> unit_category(from) == unit_category(to),
        spec_plan(from, to) matches Some(p) ==> plan_wf(p),
{
}

/// Whenever the pair `(from, to)` is defined, so is the reverse pair, and
/// the two plans are mutual inverses as affine maps.
pub proof fn lemma_plans_inverse(from: Unit, to: Unit)
    requires
        unit_category(from) == unit_category(to),
    ensures
        spec_plan(from, to) is Some,
        spec_plan(to, from) is Some,
        is_inverse(spec_plan(from, to).unwrap(), spec_plan(to, from).unwrap()),
{
    lemma_plan_defined(from, to);
    lemma_plan_defined(to, from);
    let p = spec_plan(from, to).unwrap();
    let q = spec_plan(to, from).unwrap();
    if from == to {
        assert(is_inverse(p, q));
    } else {
        match (from, to) {
            (Unit::Second, Unit::Minute) => assert(is_inverse(p, q)),
            (Unit::Second, Unit::Hour) => assert(is_inverse(p, q)),
            (Unit::Minute, Unit::Second) => assert(is_inverse(p, q)),
            (Unit::Minute, Unit::Hour) => assert(is_inverse(p, q)),
            (Unit::Hour, Unit::Second) => assert(is_inverse(p, q)),
            (Unit::Hour, Unit::Minute) => assert(is_inverse(p, q)),
            (Unit::Centimeter, Unit::Meter) => assert(is_inverse(p, q)),
            (Unit::Centimeter, Unit::Kilometer) => assert(is_inverse(p, q)),
            (Unit::Meter, Unit::Centimeter) => assert(is_inverse(p, q)),
            (Unit::Meter, Unit::Kilometer) => assert(is_inverse(p, q)),
            (Unit::Kilometer, Unit::Centimeter) => assert(is_inverse(p, q)),
            (Unit::Kilometer, Unit::Meter) => assert(is_inverse(p, q)),
            (Unit::Gram, Unit::Kilogram) => assert(is_inverse(p, q)),
            (Unit::Gram, Unit::Ton) => assert(is_inverse(p, q)),
            (Unit::Kilogram, Unit::Gram) => assert(is_inverse(p, q)),
            (Unit::Kilogram, Unit::Ton) => assert(is_inverse(p, q)),
            (Unit::Ton, Unit::Gram) => assert(is_inverse(p, q)),
            (Unit::Ton, Unit::Kilogram) => assert(is_inverse(p, q)),
            (Unit::Celsius, Unit::Fahrenheit) => assert(is_inverse(p, q)),
            (Unit::Celsius, Unit::Kelvin) => assert(is_inverse(p, q)),
            (Unit::Fahrenheit, Unit::Celsius) => assert(is_inverse(p, q)),
            (Unit::Fahrenheit, Unit::Kelvin) => assert(is_inverse(p, q)),
            (Unit::Kelvin, Unit::Celsius) => assert(is_inverse(p, q)),
            (Unit::Kelvin, Unit::Fahrenheit) => assert(is_inverse(p, q)),
            _ => assert(false),
        }
    }
}

/// Two mutually inverse plans cancel on every rational value: applying
/// `p` and then `q` to `xn / xd` yields a rational equal to `xn / xd`,
/// and neither application degenerates (no denominator is zero).
pub proof fn lemma_inverse_applies(p: Affine, q: Affine, xn: int, xd: int)
    requires
        plan_wf(p),
        plan_wf(q),
        is_inverse(p, q),
        xd != 0,
    ensures
        apply_den(p, xd) != 0,
        apply_den(q, apply_den(p, xd)) != 0,
        rat_eq(
            apply_num(q, apply_num(p, xn, xd), apply_den(p, xd)),
            apply_den(q, apply_den(p, xd)),
            xn,
            xd,
        ),
{
    let pn = p.num as int;
    let pd = p.den as int;
    let pa = p.pre as int;
    let pb = p.post as int;
    let qn = q.num as int;
    let qd = q.den as int;
    let qa = q.pre as int;
    let qb = q.post as int;
    let yn = apply_num(p, xn, xd);
    let yd = apply_den(p, xd);
    let zn = apply_num(q, yn, yd);
    let zd = apply_den(q, yd);
    // Expand q's application of the intermediate value into flat products.
    assert(zn == 100 * qn * yn + qa * qn * yd + qb * qd * yd) by (nonlinear_arith)
        requires
            zn == (100 * yn + qa * yd) * qn + qb * yd * qd,
    {}
    // Rewrite p's application so that the offset aggregate `u` of the
    // inverse condition appears as one factor.
    let u = pa * pn + pb * pd;
    let v = qa * qn + qb * qd;
    assert((100 * xn + pa * xd) * pn == 100 * pn * xn + pa * pn * xd) by (nonlinear_arith) {}
    assert(pa * pn * xd + pb * xd * pd == (pa * pn + pb * pd) * xd) by (nonlinear_arith) {}
    assert(yn == 100 * pn * xn + u * xd);
    // Push the substitution through each of the three summands of `zn`.
    assert(100 * qn * (100 * pn * xn + u * xd) == 10000 * (pn * qn) * xn + 100 * (qn * u) * xd)
        by (nonlinear_arith) {}
    assert(qa * qn * (100 * xd * pd) == 100 * (pd * (qa * qn)) * xd) by (nonlinear_arith) {}
    assert(qb * qd * (100 * xd * pd) == 100 * (pd * (qb * qd)) * xd) by (nonlinear_arith) {}
    assert(100 * (pd * (qa * qn)) * xd + 100 * (pd * (qb * qd)) * xd == 100 * (pd * v) * xd)
        by (nonlinear_arith)
        requires
            v == qa * qn + qb * qd,
    {}
    assert(zn == 10000 * (pn * qn) * xn + 100 * (qn * u) * xd + 100 * (pd * v) * xd);
    // The offsets cancel by the second inverse equation, and the scale
    // condition leaves the factor that the composed denominator carries.
    assert(100 * (qn * u) * xd + 100 * (pd * v) * xd == 100 * (qn * u + pd * v) * xd)
        by (nonlinear_arith) {}
    assert(qn * u + pd * v == 0);
    assert(100 * (qn * u + pd * v) * xd == 0) by (nonlinear_arith)
        requires
            qn * u + pd * v == 0,
    {}
    assert(zn == 10000 * (pn * qn) * xn);
    assert(zn == 10000 * (pd * qd) * xn);
    assert(100 * (100 * xd * pd) * qd == 10000 * (pd * qd) * xd) by (nonlinear_arith) {}
    assert(zd == 10000 * (pd * qd) * xd);
    assert((10000 * (pd * qd) * xn) * xd == xn * (10000 * (pd * qd) * xd)) by (nonlinear_arith) {}
    assert(zn * xd == xn * zd);
    assert(yd != 0) by (nonlinear_arith)
        requires
            yd == 100 * xd * pd,
            xd != 0,
            pd >= 1,
    {}
    assert(zd != 0) by (nonlinear_arith)
        requires
            zd == 10000 * (pd * qd) * xd,
            xd != 0,
            pd >= 1,
            qd >= 1,
    {}
}

/// The round-trip law: for every defined directed pair, converting from
/// `from` to `to` and back again returns the original value exactly, as
/// rationals, and neither application degenerates.  The machine-float
/// round trip is this law up to rounding.
pub proof fn lemma_round_trip(from: Unit, to: Unit, xn: int, xd: int)
    requires
        unit_category(from) == unit_category(to),
        xd != 0,
    ensures
        spec_plan(from, to) is Some,
        spec_plan(to, from) is Some,
        ({
            let p = spec_plan(from, to).unwrap();
            let q = spec_plan(to, from).unwrap();
            &&& apply_den(p, xd) != 0
            &&& apply_den(q, apply_den(p, xd)) != 0
            &&& rat_eq(
                apply_num(q, apply_num(p, xn, xd), apply_den(p, xd)),
                apply_den(q, apply_den(p, xd)),
                xn,
                xd,
            )
        }),
{
    lemma_plans_inverse(from, to);
    lemma_plan_defined(from, to);
    lemma_plan_defined(to, from);
    lemma_inverse_applies(spec_plan(from, to).unwrap(), spec_plan(to, from).unwrap(), xn, xd);
}

/// The identity law: for every unit, the pair `(u, u)` is defined, its
/// plan is the identity plan, and applying it to any rational value
/// yields an equal rational.  Identity conversion never fails and never
/// changes the value, in every category alike.
pub proof fn lemma_identity(u: Unit, xn: int, xd: int)
    requires
        xd != 0,
    ensures
        spec_plan(u, u) == Some(identity_plan()),
        rat_eq(
            apply_num(identity_plan(), xn, xd),
            apply_den(identity_plan(), xd),
            xn,
            xd,
        ),
{
    let i = identity_plan();
    assert(apply_num(i, xn, xd) * xd == xn * apply_den(i, xd)) by (nonlinear_arith)
        requires
            apply_num(i, xn, xd) == (100 * xn + 0 * xd) * 1 + 0 * xd * 1,
            apply_den(i, xd) == 100 * xd * 1,
    {}
}

} // verus!
