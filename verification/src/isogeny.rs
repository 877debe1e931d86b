//! The 11-degree isogeny from the auxiliary curve E' to E, evaluated as four
//! coefficient-table polynomials over a shared vector of monomials.
use vstd::prelude::*;
use crate::field::{fe_add_mod, fe_dup, fe_inv0, fe_mul, fe_one, inv0_spec, p, pow_mod, Fp};
use crate::constants::{x_den, x_den_vals, x_num, x_num_vals, y_den, y_den_vals, y_num, y_num_vals};
use vstd::arithmetic::div_mod::lemma_small_mod;

verus! {

/// The integer values carried by a sequence of field elements.
pub open spec fn vals_of(s: Seq<Fp>) -> Seq<int> {
    s.map_values(|f: Fp| f.val())
}

/// Sum of xs[i] * ks[i] mod p over the length of ks, folded left to right
/// with every partial sum reduced, as the evaluation loop computes it.
pub open spec fn dot_mod(xs: Seq<int>, ks: Seq<int>) -> int
    decreases ks.len(),
{
    if ks.len() == 0 {
        0
    } else {
        (dot_mod(xs, ks.drop_last()) + (xs[ks.len() - 1] * ks.last()) % p()) % p()
    }
}

/// The first n powers of x, reduced: 1, x, x^2, ...
pub open spec fn monomials(x: int, n: nat) -> Seq<int> {
    Seq::new(n, |i: int| pow_mod(x, i as nat))
}

/// A coefficient table evaluated at x.
pub open spec fn poly_eval(ks: Seq<int>, x: int) -> int {
    dot_mod(monomials(x, 16), ks)
}

/// The isogeny: x = X_NUM(x')/X_DEN(x'), y = y' * Y_NUM(x')/Y_DEN(x'),
/// with inv0 standing in for the division.
pub open spec fn iso_map_spec(xp: int, yp: int) -> (int, int) {
    let xn = poly_eval(x_num_vals(), xp);
    let xd = poly_eval(x_den_vals(), xp);
    let yn = poly_eval(y_num_vals(), xp);
    let yd = poly_eval(y_den_vals(), xp);
    (((xn * inv0_spec(xd)) % p()), ((((yn * inv0_spec(yd)) % p()) * yp) % p()))
}

/// One polynomial of the isogeny: the dot product of the monomial vector
/// with a coefficient table.
fn iso_map_helper(xs: &Vec<Fp>, ks: &Vec<Fp>) -> (r: Fp)
    requires
        ks@.len() <= xs@.len(),
        forall|i: int| 0 <= i < xs@.len() ==> (#[trigger] xs@[i]).wf(),
        forall|i: int| 0 <= i < ks@.len() ==> (#[trigger] ks@[i]).wf(),
    ensures
        r.canon(),
        r.val() == dot_mod(vals_of(xs@), vals_of(ks@)),
{
    let zero = crate::field::fe_zero();
    let mut acc = zero;
    let mut i: usize = 0;
    while i < ks.len()
        invariant
            ks@.len() <= xs@.len(),
            forall|j: int| 0 <= j < xs@.len() ==> (#[trigger] xs@[j]).wf(),
            forall|j: int| 0 <= j < ks@.len() ==> (#[trigger] ks@[j]).wf(),
            i <= ks@.len(),
            acc.canon(),
            acc.val() == dot_mod(vals_of(xs@), vals_of(ks@).take(i as int)),
        decreases ks@.len() - i,
    {
        let t = fe_mul(&xs[i], &ks[i]);
        let next = fe_add_mod(&acc, &t);
        proof {
            let kv = vals_of(ks@);
            assert(kv.take(i + 1).drop_last() =~= kv.take(i as int));
            assert(kv.take(i + 1).last() == kv[i as int]);
        }
        acc = next;
        i += 1;
    }
    proof {
        assert(vals_of(ks@).take(ks@.len() as int) =~= vals_of(ks@));
    }
    acc
}

/// The monomial vector 1, x', ..., x'^15 used by all four polynomials.
fn monomial_vec(xp: &Fp) -> (r: Vec<Fp>)
    requires
        xp.canon(),
    ensures
        r@.len() == 16,
        forall|i: int| 0 <= i < 16 ==> (#[trigger] r@[i]).canon() && r@[i].val() == pow_mod(
            xp.val(),
            i as nat,
        ),
{
    let mut v: Vec<Fp> = Vec::new();
    v.push(fe_one());
    v.push(fe_dup(xp));
    proof {
        reveal_with_fuel(pow_mod, 3);
        lemma_small_mod(xp.val() as nat, p() as nat);
        assert(pow_mod(xp.val(), 1) == xp.val() % p());
        assert(xp.val() % p() == xp.val());
    }
    let mut i: usize = 2;
    while i < 16
        invariant
            xp.canon(),
            2 <= i <= 16,
            v@.len() == i,
            forall|j: int| 0 <= j < i ==> (#[trigger] v@[j]).canon() && v@[j].val() == pow_mod(
                xp.val(),
                j as nat,
            ),
        decreases 16 - i,
    {
        let next = fe_mul(&v[i - 1], xp);
        proof {
            reveal_with_fuel(pow_mod, 2);
            assert(pow_mod(xp.val(), i as nat) == (xp.val() * pow_mod(
                xp.val(),
                (i - 1) as nat,
            )) % p());
        }
        v.push(next);
        i += 1;
    }
    v
}

/// The isogeny carrying an E' point to E, the four tables evaluated over one
/// monomial vector and combined through inv0.
pub fn iso_map(x_prime: &Fp, y_prime: &Fp) -> (r: (Fp, Fp))
    requires
        x_prime.canon(),
        y_prime.canon(),
    ensures
        r.0.canon(),
        r.1.canon(),
        (r.0.val(), r.1.val()) == iso_map_spec(x_prime.val(), y_prime.val()),
{
    let xs = monomial_vec(x_prime);
    let kxn = x_num();
    let kxd = x_den();
    let kyn = y_num();
    let kyd = y_den();
    proof {
        assert(vals_of(xs@) =~= monomials(x_prime.val(), 16));
        assert(vals_of(kxn@) =~= x_num_vals());
        assert(vals_of(kxd@) =~= x_den_vals());
        assert(vals_of(kyn@) =~= y_num_vals());
        assert(vals_of(kyd@) =~= y_den_vals());
    }
    let xn = iso_map_helper(&xs, &kxn);
    let xd = iso_map_helper(&xs, &kxd);
    let yn = iso_map_helper(&xs, &kyn);
    let yd = iso_map_helper(&xs, &kyd);

    let xdi = fe_inv0(&xd);
    let x = fe_mul(&xn, &xdi);

    let ydi = fe_inv0(&yd);
    let yq = fe_mul(&yn, &ydi);
    let y = fe_mul(&yq, y_prime);

    (x, y)
}

} // verus!
