//! The exact value model behind the scale tables.
//!
//! A quantity is a rational `n/d` times an integer power of pi (only
//! plane-angle factors carry a pi). Conversion in this model is exact, and
//! the conversion rules — multiply by the source factor, divide by the
//! target factor; or through Celsius by the two affine maps — are proved
//! here to be the identity on self-conversion and on round trips.

use vstd::prelude::*;
use crate::factor::{AffineMap, Factor};

verus! {

/// A quantity in the exact model: the rational `n/d` times `pi^p`.
pub struct Qty {
    pub n: int,
    pub d: int,
    pub p: int,
}

/// A quantity is well formed when its denominator is not zero.
pub open spec fn qty_wf(q: Qty) -> bool {
    q.d != 0
}

/// Equality of quantities as values: equal cross products and equal pi
/// exponents.
pub open spec fn qty_eq(a: Qty, b: Qty) -> bool {
    a.n * b.d == b.n * a.d && a.p == b.p
}

/// The quantity a scale factor stands for.
pub open spec fn factor_qty(f: Factor) -> Qty {
    Qty { n: f.num as int, d: f.den as int, p: if f.pi { 1int } else { 0int } }
}

pub open spec fn qty_mul(a: Qty, b: Qty) -> Qty {
    Qty { n: a.n * b.n, d: a.d * b.d, p: a.p + b.p }
}

pub open spec fn qty_div(a: Qty, b: Qty) -> Qty {
    Qty { n: a.n * b.d, d: a.d * b.n, p: a.p - b.p }
}

/// Sum of two quantities of one kind (equal pi exponents; every quantity of
/// the affine temperature model carries exponent zero).
pub open spec fn qty_add(a: Qty, b: Qty) -> Qty {
    Qty { n: a.n * b.d + b.n * a.d, d: a.d * b.d, p: a.p }
}

/// Difference of two quantities of one kind (equal pi exponents).
pub open spec fn qty_sub(a: Qty, b: Qty) -> Qty {
    Qty { n: a.n * b.d - b.n * a.d, d: a.d * b.d, p: a.p }
}

/// Quantity equality is transitive (on well-formed quantities).
pub proof fn lemma_qty_eq_trans(a: Qty, b: Qty, c: Qty)
    requires
        qty_wf(a),
        qty_wf(b),
        qty_wf(c),
        qty_eq(a, b),
        qty_eq(b, c),
    ensures
        qty_eq(a, c),
{
    assert(a.n * c.d == c.n * a.d) by (nonlinear_arith)
        requires
            a.n * b.d == b.n * a.d,
            b.n * c.d == c.n * b.d,
            b.d != 0,
    ;
}

/// Scale conversion in the exact model: `v * from / to`.
pub open spec fn scale_convert(v: Qty, from: Factor, to: Factor) -> Qty {
    qty_div(qty_mul(v, factor_qty(from)), factor_qty(to))
}

/// Self-conversion is exact: converting a value from a unit to the same
/// unit gives back the value, exactly, in the exact model.
pub proof fn lemma_scale_self_conversion(v: Qty, f: Factor)
    requires
        qty_wf(v),
        f.wf(),
    ensures
        qty_wf(scale_convert(v, f, f)),
        qty_eq(scale_convert(v, f, f), v),
{
    assert(((v.n * f.num) * f.den) * v.d == v.n * ((v.d * f.den) * f.num)) by (nonlinear_arith);
    assert((v.d * f.den) * f.num != 0) by (nonlinear_arith)
        requires
            v.d != 0,
            f.den > 0,
            f.num > 0,
    ;
}

/// A round trip is exact: converting a value from unit A to unit B and the
/// result back from B to A gives back the value, exactly, in the exact
/// model.
pub proof fn lemma_scale_round_trip(v: Qty, a: Factor, b: Factor)
    requires
        qty_wf(v),
        a.wf(),
        b.wf(),
    ensures
        qty_wf(scale_convert(scale_convert(v, a, b), b, a)),
        qty_eq(scale_convert(scale_convert(v, a, b), b, a), v),
{
    assert(((((v.n * a.num) * b.den) * b.num) * a.den) * v.d == v.n * ((((v.d * a.den) * b.num)
        * b.den) * a.num)) by (nonlinear_arith);
    assert((((v.d * a.den) * b.num) * b.den) * a.num != 0) by (nonlinear_arith)
        requires
            v.d != 0,
            a.den > 0,
            a.num > 0,
            b.num > 0,
            b.den > 0,
    ;
}

/// The offset of an affine map, as a quantity.
pub open spec fn off_qty(m: AffineMap) -> Qty {
    Qty { n: m.off_num as int, d: m.off_den as int, p: 0 }
}

/// The scale of an affine map, as a quantity.
pub open spec fn scale_qty(m: AffineMap) -> Qty {
    Qty { n: m.scale_num as int, d: m.scale_den as int, p: 0 }
}

/// Map a value in the unit of `m` to Celsius: `(v - off) * scale`.
pub open spec fn affine_to_celsius(v: Qty, m: AffineMap) -> Qty {
    qty_mul(qty_sub(v, off_qty(m)), scale_qty(m))
}

/// Map a Celsius value into the unit of `m`: `c / scale + off`.
pub open spec fn affine_from_celsius(c: Qty, m: AffineMap) -> Qty {
    qty_add(qty_div(c, scale_qty(m)), off_qty(m))
}

/// Temperature conversion in the exact model: to Celsius by the source
/// map, then out of Celsius by the target map.
pub open spec fn affine_convert(v: Qty, from: AffineMap, to: AffineMap) -> Qty {
    affine_from_celsius(affine_to_celsius(v, from), to)
}

/// Temperature self-conversion is exact: mapping a value to Celsius and
/// back through the same unit gives back the value, exactly.
pub proof fn lemma_affine_self_conversion(v: Qty, m: AffineMap)
    requires
        qty_wf(v),
        m.wf(),
    ensures
        qty_wf(affine_convert(v, m, m)),
        qty_eq(affine_convert(v, m, m), v),
{
    let on: int = m.off_num as int;
    let od: int = m.off_den as int;
    let sn: int = m.scale_num as int;
    let sd: int = m.scale_den as int;
    let e: int = v.n * od - on * v.d;
    let x: int = sn * sd * od;
    assert(((e * sn) * sd) * od == e * x) by (nonlinear_arith)
        requires
            x == sn * sd * od,
    ;
    assert(on * (((v.d * od) * sd) * sn) == (on * v.d) * x) by (nonlinear_arith)
        requires
            x == sn * sd * od,
    ;
    assert(e * x + (on * v.d) * x == (e + on * v.d) * x) by (nonlinear_arith);
    assert((((v.d * od) * sd) * sn) * od == (v.d * od) * x) by (nonlinear_arith)
        requires
            x == sn * sd * od,
    ;
    assert(((v.n * od) * x) * v.d == v.n * ((v.d * od) * x)) by (nonlinear_arith);
    assert(x > 0) by (nonlinear_arith)
        requires
            sn > 0,
            sd > 0,
            od > 0,
            x == sn * sd * od,
    ;
    assert((v.d * od) * x != 0) by (nonlinear_arith)
        requires
            v.d != 0,
            od > 0,
            x > 0,
    ;
}

/// Mapping a Celsius value into a unit and back to Celsius is exact.
pub proof fn lemma_affine_inverse(c: Qty, m: AffineMap)
    requires
        qty_wf(c),
        m.wf(),
    ensures
        qty_wf(affine_to_celsius(affine_from_celsius(c, m), m)),
        qty_eq(affine_to_celsius(affine_from_celsius(c, m), m), c),
{
    let on: int = m.off_num as int;
    let od: int = m.off_den as int;
    let sn: int = m.scale_num as int;
    let sd: int = m.scale_den as int;
    assert(((c.n * sd) * od + on * (c.d * sn)) * od == ((c.n * sd) * od) * od + (on * (c.d * sn))
        * od) by (nonlinear_arith);
    assert(on * ((c.d * sn) * od) == (on * (c.d * sn)) * od) by (nonlinear_arith);
    assert(((((c.n * sd) * od) * od) * sn) * c.d == c.n * ((((c.d * sn) * od) * od) * sd))
        by (nonlinear_arith);
    assert((((c.d * sn) * od) * od) * sd != 0) by (nonlinear_arith)
        requires
            c.d != 0,
            od > 0,
            sd > 0,
            sn > 0,
    ;
}

/// Mapping out of Celsius respects quantity equality.
pub proof fn lemma_affine_from_celsius_congruent(x: Qty, y: Qty, m: AffineMap)
    requires
        qty_wf(x),
        qty_wf(y),
        qty_eq(x, y),
        m.wf(),
    ensures
        qty_wf(affine_from_celsius(x, m)),
        qty_wf(affine_from_celsius(y, m)),
        qty_eq(affine_from_celsius(x, m), affine_from_celsius(y, m)),
{
    let on: int = m.off_num as int;
    let od: int = m.off_den as int;
    let sn: int = m.scale_num as int;
    let sd: int = m.scale_den as int;
    let xn: int = (x.n * sd) * od;
    let xo: int = on * (x.d * sn);
    let xd: int = (x.d * sn) * od;
    let yn: int = (y.n * sd) * od;
    let yo: int = on * (y.d * sn);
    let yd: int = (y.d * sn) * od;
    assert((xn + xo) * yd == xn * yd + xo * yd) by (nonlinear_arith);
    assert((yn + yo) * xd == yn * xd + yo * xd) by (nonlinear_arith);
    let k: int = ((sd * od) * sn) * od;
    assert(xn * yd == (x.n * y.d) * k) by (nonlinear_arith)
        requires
            xn == (x.n * sd) * od,
            yd == (y.d * sn) * od,
            k == ((sd * od) * sn) * od,
    ;
    assert(yn * xd == (y.n * x.d) * k) by (nonlinear_arith)
        requires
            yn == (y.n * sd) * od,
            xd == (x.d * sn) * od,
            k == ((sd * od) * sn) * od,
    ;
    assert(xn * yd == yn * xd);
    assert(xo * yd == yo * xd) by (nonlinear_arith)
        requires
            xo == on * (x.d * sn),
            yd == (y.d * sn) * od,
            yo == on * (y.d * sn),
            xd == (x.d * sn) * od,
    ;
    assert(xd != 0 && yd != 0) by (nonlinear_arith)
        requires
            x.d != 0,
            y.d != 0,
            od > 0,
            sn > 0,
            xd == (x.d * sn) * od,
            yd == (y.d * sn) * od,
    ;
}

/// A temperature round trip is exact: converting a value from unit A to
/// unit B and the result back from B to A gives back the value, exactly,
/// in the exact model.
pub proof fn lemma_affine_round_trip(v: Qty, a: AffineMap, b: AffineMap)
    requires
        qty_wf(v),
        a.wf(),
        b.wf(),
    ensures
        qty_wf(affine_convert(affine_convert(v, a, b), b, a)),
        qty_eq(affine_convert(affine_convert(v, a, b), b, a), v),
{
    let c = affine_to_celsius(v, a);
    let w = affine_from_celsius(c, b);
    assert(qty_wf(c)) by {
        assert((v.d * (a.off_den as int)) * (a.scale_den as int) != 0) by (nonlinear_arith)
            requires
                v.d != 0,
                a.off_den > 0,
                a.scale_den > 0,
        ;
    }
    lemma_affine_inverse(c, b);
    let c2 = affine_to_celsius(w, b);
    lemma_affine_from_celsius_congruent(c2, c, a);
    lemma_affine_self_conversion(v, a);
    lemma_qty_eq_trans(affine_from_celsius(c2, a), affine_from_celsius(c, a), v);
}

} // verus!
