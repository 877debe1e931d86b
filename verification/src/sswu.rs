//! The simplified SWU map onto the auxiliary curve E': y^2 = x^3 + A'x + B',
//! specialised to p = 3 mod 4, written branch-free over `cmov` as the draft
//! gives it.
use vstd::prelude::*;
use crate::field::{
    fe_add_mod, fe_add_raw, fe_cmov, fe_eq, fe_gt, fe_inv0, fe_is_one, fe_is_zero, fe_mul, fe_neg0,
    fe_one, fe_pow, inv0_spec, neg_spec, p, pow_mod, Fp,
};
use crate::constants::{
    c1_fe, c1_val, c2_fe, c2_val, iso_a_fe, iso_a_val, iso_b_fe, iso_b_val, pm1div2_fe,
    pm1div2_val, sqrt_exp_fe, sqrt_exp_val, z_fe, z_val,
};

verus! {

/// The draft's sign of a canonical field element: negative exactly when it
/// exceeds (p - 1) / 2.
pub open spec fn sgn0_spec(x: int) -> bool {
    x > pm1div2_val()
}

/// Euler's criterion: x is a square (or zero) when x^((p-1)/2) is 0 or 1.
pub open spec fn is_square_spec(x: int) -> bool {
    pow_mod(x, pm1div2_val() as nat) == 0 || pow_mod(x, pm1div2_val() as nat) == 1
}

/// The square-root candidate x^((p+1)/4) used when p = 3 mod 4.
pub open spec fn sqrt_spec(x: int) -> int {
    pow_mod(x, sqrt_exp_val() as nat)
}

/// The whole SSWU recipe on a canonical u, step for step as the draft
/// writes it; the result lies on E' whenever y^2 below is a square.
pub open spec fn sswu_spec(u: int) -> (int, int) {
    let tv1 = (z_val() * ((u * u) % p())) % p();
    let tv2 = (tv1 * tv1) % p();
    let x1i = inv0_spec((tv1 + tv2) % p());
    let e1 = x1i == 0;
    let x1s = if e1 {
        c2_val()
    } else {
        x1i + 1
    };
    let x1 = (x1s * c1_val()) % p();
    let gx1 = ((((x1 * x1) % p() + iso_a_val()) % p() * x1) % p() + iso_b_val()) % p();
    let x2 = (tv1 * x1) % p();
    let gx2 = (gx1 * ((tv1 * tv2) % p())) % p();
    let e2 = is_square_spec(gx1);
    let x = if e2 {
        x1
    } else {
        x2
    };
    let y2 = if e2 {
        gx1
    } else {
        gx2
    };
    let y = sqrt_spec(y2);
    let e3 = sgn0_spec(u) == sgn0_spec(y);
    let yf = if e3 {
        y
    } else {
        neg_spec(y)
    };
    (x, yf)
}

/// Whether canonical coordinates satisfy E's auxiliary curve equation
/// y^2 = x^3 + A'x + B'.
pub open spec fn on_curve_prime(x: int, y: int) -> bool {
    (y * y) % p() == (x * x * x + iso_a_val() * x + iso_b_val()) % p()
}

/// Decides E' membership of a coordinate pair.
pub fn on_iso_curve(x: &Fp, y: &Fp) -> (r: bool)
    requires
        x.canon(),
        y.canon(),
    ensures
        r == on_curve_prime(x.val(), y.val()),
{
    let ysq = fe_mul(y, y);
    let xsq = fe_mul(x, x);
    let xcu = fe_mul(&xsq, x);
    let a = iso_a_fe();
    let b = iso_b_fe();
    let ax = fe_mul(&a, x);
    let t = fe_add_mod(&xcu, &ax);
    let rhs = fe_add_mod(&t, &b);
    proof {
        let xv = x.val();
        vstd::arithmetic::div_mod::lemma_mul_mod_noop_left(xv * xv, xv, p());
        vstd::arithmetic::div_mod::lemma_add_mod_noop(xv * xv * xv, iso_a_val() * xv, p());
        vstd::arithmetic::div_mod::lemma_add_mod_noop(xv * xv * xv + iso_a_val() * xv, iso_b_val(), p());
        vstd::arithmetic::div_mod::lemma_small_mod(iso_b_val() as nat, p() as nat);
    }
    fe_eq(&ysq, &rhs)
}

/// The draft's sign of a field element; true stands for the negative half.
pub fn sgn0(x: &Fp) -> (neg: bool)
    requires
        x.canon(),
    ensures
        neg == sgn0_spec(x.val()),
{
    let half = pm1div2_fe();
    fe_gt(x, &half)
}

/// Whether x is zero or a quadratic residue, by Euler's criterion.
pub fn is_square(x: &Fp) -> (r: bool)
    requires
        x.canon(),
    ensures
        r == is_square_spec(x.val()),
{
    let e = pm1div2_fe();
    let t = fe_pow(x, &e);
    let z = fe_is_zero(&t);
    let o = fe_is_one(&t);
    z || o
}

/// The square root for p = 3 mod 4: x^((p+1)/4).
pub fn sqrt_3mod4(x: &Fp) -> (r: Fp)
    requires
        x.canon(),
    ensures
        r.canon(),
        r.val() == sqrt_spec(x.val()),
{
    let e = sqrt_exp_fe();
    fe_pow(x, &e)
}

/// The simplified SWU map: a point of E' for every canonical u, 0 included.
pub fn map_to_curve_simple_swu(u: &Fp) -> (r: (Fp, Fp))
    requires
        u.canon(),
    ensures
        r.0.canon(),
        r.1.canon(),
        (r.0.val(), r.1.val()) == sswu_spec(u.val()),
{
    let zc = z_fe();
    let usq = fe_mul(u, u);
    let tv1 = fe_mul(&zc, &usq);
    let tv2 = fe_mul(&tv1, &tv1);

    let x1sum = fe_add_mod(&tv1, &tv2);
    let x1i = fe_inv0(&x1sum);
    let e1 = fe_is_zero(&x1i);

    let one = fe_one();
    let x1p = fe_add_raw(&x1i, &one);
    let c2 = c2_fe();
    let x1s = fe_cmov(&x1p, &c2, e1);
    let c1 = c1_fe();
    let x1 = fe_mul(&x1s, &c1);

    let a = iso_a_fe();
    let b = iso_b_fe();
    let x1sq = fe_mul(&x1, &x1);
    let t1 = fe_add_mod(&x1sq, &a);
    let t2 = fe_mul(&t1, &x1);
    let gx1 = fe_add_mod(&t2, &b);

    let x2 = fe_mul(&tv1, &x1);
    let tv2b = fe_mul(&tv1, &tv2);
    let gx2 = fe_mul(&gx1, &tv2b);

    let e2 = is_square(&gx1);
    let x = fe_cmov(&x2, &x1, e2);
    let y2 = fe_cmov(&gx2, &gx1, e2);

    let y = sqrt_3mod4(&y2);

    let e3 = sgn0(u) == sgn0(&y);
    let yneg = fe_neg0(&y);
    let yf = fe_cmov(&yneg, &y, e3);

    (x, yf)
}

} // verus!
