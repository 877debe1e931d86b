//! The base field of BLS12-381: elements are canonical 48-byte big-endian
//! strings; arithmetic modulo the prime is delegated to amcl's `BIG`.
use vstd::prelude::*;
use amcl::bls381::big::BIG;
use amcl::bls381::rom;
use crate::{be_val, FIELD_BYTES};

verus! {

/// The BLS12-381 base prime
/// p = 0x1a0111ea397fe69a4b1ba7b6434bacd764774b84f38512bf6730d2a0f6b0f624
///     1eabfffeb153ffffb9feffffffffaaab.
pub open spec fn p() -> int {
    0x1a0111ea397fe69a4b1ba7b6434bacd764774b84f38512bf6730d2a0f6b0f6241eabfffeb153ffffb9feffffffffaaabint
}

/// b^e mod p, with the convention b^0 = 1.
pub open spec fn pow_mod(b: int, e: nat) -> int
    decreases e,
{
    if e == 0 {
        1
    } else {
        (b * pow_mod(b, (e - 1) as nat)) % p()
    }
}

/// Modular inverse extended with inv0(0) = 0; for 0 <= x < p this is x^(p-2) mod p.
pub open spec fn inv0_spec(x: int) -> int {
    pow_mod(x, (p() - 2) as nat)
}

/// Negation modulo p of a canonical value, fixing neg(0) = 0.
pub open spec fn neg_spec(x: int) -> int {
    if x == 0 {
        0
    } else {
        p() - x
    }
}

/// An element of the base field, stored as its big-endian byte encoding.
pub struct Fp {
    pub b: Vec<u8>,
}

impl Fp {
    /// The encoding has the fixed field width.
    pub open spec fn wf(&self) -> bool {
        self.b@.len() == FIELD_BYTES
    }

    /// The integer the encoding stands for.
    pub open spec fn val(&self) -> int {
        be_val(self.b@)
    }

    /// Well-formed and reduced: the canonical representation of a field element.
    pub open spec fn canon(&self) -> bool {
        self.wf() && 0 <= self.val() < p()
    }

    pub open spec fn bytes(&self) -> Seq<u8> {
        self.b@
    }

    /// Wraps a 48-byte big-endian encoding; anything of another length is refused.
    pub fn from_be_bytes(v: Vec<u8>) -> (r: Option<Fp>)
        ensures
            v@.len() == FIELD_BYTES ==> (r is Some && r->0.b@ == v@),
            v@.len() != FIELD_BYTES ==> r is None,
    {
        if v.len() == FIELD_BYTES {
            Some(Fp { b: v })
        } else {
            None
        }
    }

    /// The big-endian encoding of the element.
    pub fn to_be_bytes(&self) -> (r: Vec<u8>)
        ensures
            r@ == self.b@,
    {
        vstd::slice::slice_to_vec(self.b.as_slice())
    }
}

/// An independent copy of an element.
pub fn fe_dup(a: &Fp) -> (r: Fp)
    ensures
        r.b@ == a.b@,
{
    Fp { b: vstd::slice::slice_to_vec(a.b.as_slice()) }
}

/// Relies on amcl's `BIG::modmul`, which reduces both operands and returns
/// their product modulo the prime, reduced and re-encoded over 48 bytes.
#[verifier::external_body]
pub(crate) fn fe_mul(a: &Fp, b: &Fp) -> (r: Fp)
    requires
        a.wf(),
        b.wf(),
    ensures
        r.wf(),
        r.val() == (a.val() * b.val()) % p(),
        0 <= r.val() < p(),
{
    let m = BIG::new_ints(&rom::MODULUS);
    let x = BIG::frombytes(&a.b);
    let y = BIG::frombytes(&b.b);
    let mut z = BIG::modmul(&x, &y, &m);
    let mut out = vec![0u8; FIELD_BYTES];
    z.tobytes(&mut out);
    Fp { b: out }
}

/// Relies on amcl's `BIG::add`: plain addition of two reduced values; the sum
/// is below 2p, so it still fits the 48-byte encoding unreduced.
#[verifier::external_body]
pub(crate) fn fe_add_raw(a: &Fp, b: &Fp) -> (r: Fp)
    requires
        a.canon(),
        b.canon(),
    ensures
        r.wf(),
        r.val() == a.val() + b.val(),
{
    let mut x = BIG::frombytes(&a.b);
    let y = BIG::frombytes(&b.b);
    x.add(&y);
    let mut out = vec![0u8; FIELD_BYTES];
    x.tobytes(&mut out);
    Fp { b: out }
}

/// Relies on amcl's `BIG::rmod`: reduction of a 48-byte value modulo the prime.
#[verifier::external_body]
pub(crate) fn fe_rmod(a: &Fp) -> (r: Fp)
    requires
        a.wf(),
    ensures
        r.wf(),
        r.val() == a.val() % p(),
        0 <= r.val() < p(),
{
    let m = BIG::new_ints(&rom::MODULUS);
    let mut x = BIG::frombytes(&a.b);
    x.rmod(&m);
    let mut out = vec![0u8; FIELD_BYTES];
    x.tobytes(&mut out);
    Fp { b: out }
}

/// Relies on amcl's `BIG::modneg`, which returns p - a for a reduced, non-zero a.
/// amcl would answer p itself on input 0, so that input is kept out.
#[verifier::external_body]
pub(crate) fn fe_neg(a: &Fp) -> (r: Fp)
    requires
        a.canon(),
        a.val() != 0,
    ensures
        r.wf(),
        r.val() == p() - a.val(),
        0 <= r.val() < p(),
{
    let m = BIG::new_ints(&rom::MODULUS);
    let x = BIG::frombytes(&a.b);
    let mut z = BIG::modneg(&x, &m);
    let mut out = vec![0u8; FIELD_BYTES];
    z.tobytes(&mut out);
    Fp { b: out }
}

/// Relies on amcl's `BIG::invmodp`, the modular inverse for the prime modulus,
/// which for 0 < a < p equals a^(p-2) mod p. amcl does not terminate on
/// input 0, so that input is kept out.
#[verifier::external_body]
pub(crate) fn fe_inv(a: &Fp) -> (r: Fp)
    requires
        a.canon(),
        a.val() != 0,
    ensures
        r.wf(),
        r.val() == inv0_spec(a.val()),
        0 <= r.val() < p(),
{
    let m = BIG::new_ints(&rom::MODULUS);
    let mut x = BIG::frombytes(&a.b);
    x.invmodp(&m);
    let mut out = vec![0u8; FIELD_BYTES];
    x.tobytes(&mut out);
    Fp { b: out }
}

/// Relies on amcl's `BIG::powmod`: x^e modulo the prime by square-and-multiply.
#[verifier::external_body]
pub(crate) fn fe_pow(x: &Fp, e: &Fp) -> (r: Fp)
    requires
        x.canon(),
        e.wf(),
    ensures
        r.wf(),
        r.val() == pow_mod(x.val(), e.val() as nat),
        0 <= r.val() < p(),
{
    let m = BIG::new_ints(&rom::MODULUS);
    let mut b = BIG::frombytes(&x.b);
    let ex = BIG::frombytes(&e.b);
    let mut z = b.powmod(&ex, &m);
    let mut out = vec![0u8; FIELD_BYTES];
    z.tobytes(&mut out);
    Fp { b: out }
}

/// Relies on amcl's `BIG::cmove`, a branch-free conditional overwrite.
#[verifier::external_body]
pub(crate) fn fe_cmov(a: &Fp, b: &Fp, c: bool) -> (r: Fp)
    requires
        a.wf(),
        b.wf(),
    ensures
        r.b@ == if c {
            b.b@
        } else {
            a.b@
        },
{
    let mut x = BIG::frombytes(&a.b);
    let y = BIG::frombytes(&b.b);
    x.cmove(&y, if c { 1 } else { 0 });
    let mut out = vec![0u8; FIELD_BYTES];
    x.tobytes(&mut out);
    Fp { b: out }
}

/// Relies on amcl's `BIG::comp`, the lexicographic comparison of two reduced values.
#[verifier::external_body]
pub(crate) fn fe_gt(a: &Fp, b: &Fp) -> (r: bool)
    requires
        a.canon(),
        b.canon(),
    ensures
        r == (a.val() > b.val()),
{
    let x = BIG::frombytes(&a.b);
    let y = BIG::frombytes(&b.b);
    BIG::comp(&x, &y) > 0
}

/// 256^n: the weight of a byte n places before the end of a string.
pub open spec fn pow256(n: nat) -> int
    decreases n,
{
    if n == 0 {
        1
    } else {
        256 * pow256((n - 1) as nat)
    }
}

/// Cutting a byte string at k splits its value into a high part weighted by
/// 256^(len - k) and a low part.
pub proof fn lemma_be_val_split(s: Seq<u8>, k: int)
    requires
        0 <= k <= s.len(),
    ensures
        be_val(s) == be_val(s.take(k)) * pow256((s.len() - k) as nat) + be_val(s.skip(k)),
    decreases s.len() - k,
{
    if k == s.len() {
        assert(s.take(k) =~= s);
        assert(be_val(s.skip(k)) == 0);
    } else {
        lemma_be_val_split(s.drop_last(), k);
        assert(s.drop_last().take(k) =~= s.take(k));
        assert(s.drop_last().skip(k) =~= s.skip(k).drop_last());
        assert(s.skip(k).last() == s.last());
        let a = be_val(s.take(k));
        let q = pow256((s.len() - 1 - k) as nat);
        assert(pow256((s.len() - k) as nat) == 256 * q);
        assert((a * q) * 256 == a * (256 * q)) by (nonlinear_arith);
    }
}

/// An all-zero byte string stands for the value 0.
pub proof fn lemma_be_val_zeros(s: Seq<u8>)
    requires
        forall|i: int| 0 <= i < s.len() ==> s[i] == 0,
    ensures
        be_val(s) == 0,
    decreases s.len(),
{
    if s.len() > 0 {
        lemma_be_val_zeros(s.drop_last());
    }
}

/// A big-endian value is never negative.
pub proof fn lemma_be_val_nonneg(s: Seq<u8>)
    ensures
        be_val(s) >= 0,
    decreases s.len(),
{
    if s.len() > 0 {
        lemma_be_val_nonneg(s.drop_last());
    }
}

/// The value is 0 exactly when every byte is 0.
pub proof fn lemma_be_val_zero_iff(s: Seq<u8>)
    ensures
        be_val(s) == 0 <==> (forall|i: int| 0 <= i < s.len() ==> s[i] == 0),
    decreases s.len(),
{
    if s.len() > 0 {
        lemma_be_val_zero_iff(s.drop_last());
        lemma_be_val_nonneg(s.drop_last());
        if be_val(s) == 0 {
            assert(forall|i: int| 0 <= i < s.len() - 1 ==> s[i] == s.drop_last()[i]);
        } else {
            if forall|i: int| 0 <= i < s.len() ==> s[i] == 0 {
                assert(forall|i: int| 0 <= i < s.len() - 1 ==> s.drop_last()[i] == s[i]);
            }
        }
    }
}

/// The zero element.
pub fn fe_zero() -> (r: Fp)
    ensures
        r.canon(),
        r.val() == 0,
{
    let mut v: Vec<u8> = Vec::new();
    let mut i: usize = 0;
    while i < FIELD_BYTES
        invariant
            i <= FIELD_BYTES,
            v@.len() == i,
            forall|j: int| 0 <= j < i ==> v@[j] == 0,
        decreases FIELD_BYTES - i,
    {
        v.push(0u8);
        i += 1;
    }
    proof {
        lemma_be_val_zeros(v@);
        crate::field::lemma_p_pos();
    }
    Fp { b: v }
}

/// The one element.
pub fn fe_one() -> (r: Fp)
    ensures
        r.canon(),
        r.val() == 1,
{
    let mut v: Vec<u8> = Vec::new();
    let mut i: usize = 0;
    while i < FIELD_BYTES - 1
        invariant
            i <= FIELD_BYTES - 1,
            v@.len() == i,
            forall|j: int| 0 <= j < i ==> v@[j] == 0,
        decreases FIELD_BYTES - i,
    {
        v.push(0u8);
        i += 1;
    }
    v.push(1u8);
    proof {
        assert(v@.drop_last() =~= v@.subrange(0, FIELD_BYTES - 1));
        lemma_be_val_zeros(v@.drop_last());
        lemma_p_pos();
    }
    Fp { b: v }
}

pub proof fn lemma_p_pos()
    ensures
        p() > 2,
{
}

/// True exactly on the zero element.
pub fn fe_is_zero(a: &Fp) -> (r: bool)
    requires
        a.wf(),
    ensures
        r == (a.val() == 0),
{
    let mut i: usize = 0;
    let mut all0: bool = true;
    while i < FIELD_BYTES
        invariant
            a.wf(),
            i <= FIELD_BYTES,
            all0 == (forall|j: int| 0 <= j < i ==> a.b@[j] == 0),
        decreases FIELD_BYTES - i,
    {
        if a.b[i] != 0 {
            all0 = false;
        }
        i += 1;
    }
    proof {
        lemma_be_val_zero_iff(a.b@);
    }
    all0
}

/// True exactly on the one element.
pub fn fe_is_one(a: &Fp) -> (r: bool)
    requires
        a.wf(),
    ensures
        r == (a.val() == 1),
{
    let mut i: usize = 0;
    let mut lead0: bool = true;
    while i < FIELD_BYTES - 1
        invariant
            a.wf(),
            i <= FIELD_BYTES - 1,
            lead0 == (forall|j: int| 0 <= j < i ==> a.b@[j] == 0),
        decreases FIELD_BYTES - i,
    {
        if a.b[i] != 0 {
            lead0 = false;
        }
        i += 1;
    }
    let r = lead0 && a.b[FIELD_BYTES - 1] == 1;
    proof {
        assert(forall|j: int| 0 <= j < FIELD_BYTES - 1 ==> a.b@.drop_last()[j] == a.b@[j]);
        lemma_be_val_zero_iff(a.b@.drop_last());
        lemma_be_val_nonneg(a.b@.drop_last());
        assert(a.val() == be_val(a.b@.drop_last()) * 256 + a.b@.last());
        if be_val(a.b@.drop_last()) > 0 {
            assert(a.val() >= 256) by (nonlinear_arith)
                requires
                    a.val() == be_val(a.b@.drop_last()) * 256 + a.b@.last(),
                    be_val(a.b@.drop_last()) >= 1,
                    a.b@.last() >= 0,
            ;
        }
    }
    r
}

/// The element standing for one byte's value.
pub fn fe_from_byte(x: u8) -> (r: Fp)
    ensures
        r.canon(),
        r.val() == x,
{
    let mut v: Vec<u8> = Vec::new();
    let mut i: usize = 0;
    while i < FIELD_BYTES - 1
        invariant
            i <= FIELD_BYTES - 1,
            v@.len() == i,
            forall|j: int| 0 <= j < i ==> v@[j] == 0,
        decreases FIELD_BYTES - i,
    {
        v.push(0u8);
        i += 1;
    }
    v.push(x);
    proof {
        assert(v@.drop_last() =~= v@.subrange(0, FIELD_BYTES - 1));
        lemma_be_val_zeros(v@.drop_last());
        lemma_p_pos();
    }
    Fp { b: v }
}

/// Equality of two reduced elements, decided by two comparisons.
pub fn fe_eq(a: &Fp, b: &Fp) -> (r: bool)
    requires
        a.canon(),
        b.canon(),
    ensures
        r == (a.val() == b.val()),
{
    !fe_gt(a, b) && !fe_gt(b, a)
}

/// pow_mod of base 0 is 0 for every positive exponent.
pub proof fn lemma_pow_mod_zero(e: nat)
    requires
        e > 0,
    ensures
        pow_mod(0, e) == 0,
    decreases e,
{
    if e > 1 {
        lemma_pow_mod_zero((e - 1) as nat);
    }
}

/// inv0: the inverse extended by inv0(0) = 0, computed through `fe_inv`
/// behind a zero test, since the draft's recipe is total on the field.
pub fn fe_inv0(a: &Fp) -> (r: Fp)
    requires
        a.canon(),
    ensures
        r.canon(),
        r.val() == inv0_spec(a.val()),
{
    if fe_is_zero(a) {
        proof {
            lemma_pow_mod_zero((p() - 2) as nat);
        }
        fe_zero()
    } else {
        fe_inv(a)
    }
}

/// Negation modulo p, total, with neg(0) = 0.
pub fn fe_neg0(a: &Fp) -> (r: Fp)
    requires
        a.canon(),
    ensures
        r.canon(),
        r.val() == neg_spec(a.val()),
{
    if fe_is_zero(a) {
        fe_zero()
    } else {
        fe_neg(a)
    }
}

/// Addition modulo p of two reduced elements.
pub fn fe_add_mod(a: &Fp, b: &Fp) -> (r: Fp)
    requires
        a.canon(),
        b.canon(),
    ensures
        r.canon(),
        r.val() == (a.val() + b.val()) % p(),
{
    let s = fe_add_raw(a, b);
    fe_rmod(&s)
}

} // verus!
