//! Points of E: y^2 = x^3 + 4 over the base field, held as canonical affine
//! coordinates or the point at infinity; the group operations are amcl's.
use vstd::prelude::*;
use amcl::bls381::big::BIG;
use amcl::bls381::ecp::ECP;
use crate::constants::{h_eff_fe, h_eff_val};
use crate::field::{p, Fp};
use crate::FIELD_BYTES;

verus! {

/// Whether canonical coordinates satisfy E's equation.
pub open spec fn on_curve(x: int, y: int) -> bool {
    (y * y) % p() == (x * x * x + 4) % p()
}

/// A point of E in affine form, or the identity.
pub enum G1Point {
    Infinity,
    Affine { x: Fp, y: Fp },
}

impl G1Point {
    /// Coordinates canonical whenever the point is affine.
    pub open spec fn wf(&self) -> bool {
        match *self {
            G1Point::Infinity => true,
            G1Point::Affine { x, y } => x.canon() && y.canon(),
        }
    }

    /// The value a point stands for: coordinates and an infinity flag.
    pub open spec fn model(&self) -> (int, int, bool) {
        match *self {
            G1Point::Infinity => (0, 0, true),
            G1Point::Affine { x, y } => (x.val(), y.val(), false),
        }
    }

    /// Well-formed and actually a point of E (or the identity).
    pub open spec fn valid(&self) -> bool {
        match *self {
            G1Point::Infinity => true,
            G1Point::Affine { x, y } => x.canon() && y.canon() && on_curve(x.val(), y.val()),
        }
    }

    /// Whether this is the identity.
    pub fn is_infinity(&self) -> (r: bool)
        ensures
            r == self.model().2,
    {
        match *self {
            G1Point::Infinity => true,
            G1Point::Affine { .. } => false,
        }
    }

    /// Whether the point satisfies E's defining equation; the identity
    /// counts as on the curve.
    pub fn is_on_curve(&self) -> (r: bool)
        requires
            self.wf(),
        ensures
            r == (self.model().2 || on_curve(self.model().0, self.model().1)),
    {
        match self {
            G1Point::Infinity => true,
            G1Point::Affine { x, y } => {
                let ysq = crate::field::fe_mul(y, y);
                let xsq = crate::field::fe_mul(x, x);
                let xcu = crate::field::fe_mul(&xsq, x);
                let four = crate::field::fe_from_byte(4);
                let rhs = crate::field::fe_add_mod(&xcu, &four);
                proof {
                    let xv = x.val();
                    vstd::arithmetic::div_mod::lemma_mul_mod_noop_left(xv * xv, xv, p());
                    vstd::arithmetic::div_mod::lemma_add_mod_noop(xv * xv * xv, 4, p());
                    vstd::arithmetic::div_mod::lemma_small_mod(4nat, p() as nat);
                }
                crate::field::fe_eq(&ysq, &rhs)
            },
        }
    }

    /// The affine coordinates as big-endian bytes, or nothing for the
    /// identity.
    pub fn coordinates(&self) -> (r: Option<(Vec<u8>, Vec<u8>)>)
        requires
            self.wf(),
        ensures
            match r {
                Some(c) => !self.model().2 && c.0@.len() == FIELD_BYTES && c.1@.len()
                    == FIELD_BYTES && crate::be_val(c.0@) == self.model().0 && crate::be_val(c.1@)
                    == self.model().1,
                None => self.model().2,
            },
    {
        match self {
            G1Point::Infinity => None,
            G1Point::Affine { x, y } => Some((x.to_be_bytes(), y.to_be_bytes())),
        }
    }
}

/// The value of the sum of two points of E, as amcl's group addition
/// computes it from the points' values.
pub uninterp spec fn ec_add_val(a: (int, int, bool), b: (int, int, bool)) -> (int, int, bool);

/// The value of a scalar multiple of a point of E, as amcl's multiplication
/// computes it from the scalar's and the point's values.
pub uninterp spec fn ec_mul_val(k: int, a: (int, int, bool)) -> (int, int, bool);

/// What a pair of canonical coordinates yields as a point: itself on E,
/// the identity off it.
pub open spec fn point_of_xy(x: Fp, y: Fp) -> G1Point {
    if on_curve(x.val(), y.val()) {
        G1Point::Affine { x, y }
    } else {
        G1Point::Infinity
    }
}

/// Relies on amcl's `ECP::new_bigs`, which keeps an (x, y) pair satisfying
/// E's equation and turns anything else into the point at infinity.
#[verifier::external_body]
pub(crate) fn point_from_xy(x: &Fp, y: &Fp) -> (r: G1Point)
    requires
        x.canon(),
        y.canon(),
    ensures
        r == point_of_xy(*x, *y),
{
    let e = ECP::new_bigs(&BIG::frombytes(&x.b), &BIG::frombytes(&y.b));
    if e.is_infinity() {
        G1Point::Infinity
    } else {
        G1Point::Affine { x: Fp { b: x.b.clone() }, y: Fp { b: y.b.clone() } }
    }
}

/// Relies on amcl's `ECP::add`, the group addition of E: the sum is a
/// function of the two points' values, and two points of E sum to a point
/// of E or to the identity.
#[verifier::external_body]
pub(crate) fn point_add(a: &G1Point, b: &G1Point) -> (r: G1Point)
    requires
        a.wf(),
        b.wf(),
    ensures
        r.wf(),
        r.model() == ec_add_val(a.model(), b.model()),
        a.valid() && b.valid() ==> r.valid(),
{
    let mut e = match a { G1Point::Affine { x, y } => ECP::new_bigs(&BIG::frombytes(&x.b), &BIG::frombytes(&y.b)), _ => ECP::new() };
    let f = match b { G1Point::Affine { x, y } => ECP::new_bigs(&BIG::frombytes(&x.b), &BIG::frombytes(&y.b)), _ => ECP::new() };
    e.add(&f);
    if e.is_infinity() { return G1Point::Infinity; }
    let (mut xb, mut yb) = (vec![0u8; FIELD_BYTES], vec![0u8; FIELD_BYTES]);
    e.getx().tobytes(&mut xb);
    e.gety().tobytes(&mut yb);
    G1Point::Affine { x: Fp { b: xb }, y: Fp { b: yb } }
}

/// Relies on amcl's `ECP::mul`, the scalar multiplication of E: the multiple
/// is a function of the scalar's and the point's values, and a multiple of a
/// point of E is a point of E or the identity.
#[verifier::external_body]
pub(crate) fn point_mul(a: &G1Point, k: &Fp) -> (r: G1Point)
    requires
        a.wf(),
        k.wf(),
    ensures
        r.wf(),
        r.model() == ec_mul_val(k.val(), a.model()),
        a.valid() ==> r.valid(),
{
    let e = match a { G1Point::Affine { x, y } => ECP::new_bigs(&BIG::frombytes(&x.b), &BIG::frombytes(&y.b)), _ => ECP::new() };
    let r = e.mul(&BIG::frombytes(&k.b));
    if r.is_infinity() { return G1Point::Infinity; }
    let (mut xb, mut yb) = (vec![0u8; FIELD_BYTES], vec![0u8; FIELD_BYTES]);
    r.getx().tobytes(&mut xb);
    r.gety().tobytes(&mut yb);
    G1Point::Affine { x: Fp { b: xb }, y: Fp { b: yb } }
}

/// A scalar multiple of a point, the scalar given as a field element.
pub fn scalar_mul(a: &G1Point, k: &Fp) -> (r: G1Point)
    requires
        a.wf(),
        k.wf(),
    ensures
        r.wf(),
        r.model() == ec_mul_val(k.val(), a.model()),
        a.valid() ==> r.valid(),
{
    point_mul(a, k)
}

/// The value of a point after cofactor clearing.
pub open spec fn clear_cofactor_spec(q: (int, int, bool)) -> (int, int, bool) {
    ec_mul_val(h_eff_val(), q)
}

/// Cofactor clearing: multiplication by the effective cofactor h_eff.
pub fn clear_cofactor(q: &G1Point) -> (r: G1Point)
    requires
        q.wf(),
    ensures
        r.wf(),
        r.model() == clear_cofactor_spec(q.model()),
        q.valid() ==> r.valid(),
{
    let h = h_eff_fe();
    point_mul(q, &h)
}

} // verus!
