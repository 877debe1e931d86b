//! Reduction of expansion output to field elements: the 64-byte blocks are
//! read big-endian and reduced modulo p through a wide two-limb split.
use vstd::prelude::*;
use crate::{be_val, FIELD_BYTES};
use crate::constants::{r384_fe, r384_val};
use crate::dst::DomainSeparationTag;
use crate::error::HashingError;
use crate::expand::{expand_message_xmd, expand_message_xof, expand_xmd_spec, expand_xof_spec};
use crate::field::{
    fe_add_raw, fe_mul, fe_rmod, lemma_be_val_split, lemma_be_val_zeros, p, pow256, Fp,
};
use vstd::arithmetic::div_mod::{lemma_add_mod_noop, lemma_mul_mod_noop_right};

verus! {

/// OS2IP of a byte string, reduced: the element a block stands for.
pub open spec fn elem_of_bytes(s: Seq<u8>) -> int {
    be_val(s) % p()
}

/// The element drawn from the single 64-byte block of a non-uniform XMD
/// expansion.
pub open spec fn h2f_xmd_nu_spec(msg: Seq<u8>, dst: Seq<u8>) -> int {
    elem_of_bytes(expand_xmd_spec(msg, dst, 64))
}

/// The two elements drawn, in order, from the two halves of a 128-byte XMD
/// expansion.
pub open spec fn h2f_xmd_ro_spec(msg: Seq<u8>, dst: Seq<u8>) -> (int, int) {
    let bytes = expand_xmd_spec(msg, dst, 128);
    (elem_of_bytes(bytes.take(64)), elem_of_bytes(bytes.skip(64)))
}

/// As h2f_xmd_nu_spec, with the XOF expansion.
pub open spec fn h2f_xof_nu_spec(msg: Seq<u8>, dst: Seq<u8>) -> int {
    elem_of_bytes(expand_xof_spec(msg, dst, 64))
}

/// As h2f_xmd_ro_spec, with the XOF expansion.
pub open spec fn h2f_xof_ro_spec(msg: Seq<u8>, dst: Seq<u8>) -> (int, int) {
    let bytes = expand_xof_spec(msg, dst, 128);
    (elem_of_bytes(bytes.take(64)), elem_of_bytes(bytes.skip(64)))
}

/// OS2IP mod p of a block of between 48 and 96 bytes: the low 48 bytes and
/// the remainder are combined as two limbs of a wide integer, so the whole
/// block's big-endian value is reduced exactly.
pub fn field_elem_from_larger_bytearray(random_bytes: &[u8]) -> (r: Fp)
    requires
        FIELD_BYTES <= random_bytes@.len() <= 2 * FIELD_BYTES,
    ensures
        r.canon(),
        r.val() == elem_of_bytes(random_bytes@),
{
    let n = random_bytes.len();
    let cut = n - FIELD_BYTES;
    let mut hi: Vec<u8> = Vec::new();
    let mut i: usize = 0;
    while i < FIELD_BYTES - cut
        invariant
            i <= FIELD_BYTES - cut,
            cut <= FIELD_BYTES,
            hi@.len() == i,
            forall|j: int| 0 <= j < i ==> hi@[j] == 0,
        decreases FIELD_BYTES - cut - i,
    {
        hi.push(0u8);
        i += 1;
    }
    let ghost pad = hi@;
    let mut k: usize = 0;
    while k < cut
        invariant
            cut == random_bytes@.len() - FIELD_BYTES,
            cut <= FIELD_BYTES,
            k <= cut,
            hi@ == pad + random_bytes@.take(k as int),
            pad.len() == FIELD_BYTES - cut,
            forall|j: int| 0 <= j < pad.len() ==> pad[j] == 0,
        decreases cut - k,
    {
        hi.push(random_bytes[k]);
        proof {
            assert(pad + random_bytes@.take(k + 1) =~= (pad + random_bytes@.take(
                k as int,
            )).push(random_bytes@[k as int]));
        }
        k += 1;
    }
    let mut lo: Vec<u8> = Vec::new();
    let mut j: usize = cut;
    while j < n
        invariant
            cut <= n == random_bytes@.len() <= 2 * FIELD_BYTES,
            cut == n - FIELD_BYTES,
            cut <= j <= n,
            lo@ == random_bytes@.subrange(cut as int, j as int),
        decreases n - j,
    {
        lo.push(random_bytes[j]);
        proof {
            assert(random_bytes@.subrange(cut as int, j + 1) =~= random_bytes@.subrange(
                cut as int,
                j as int,
            ).push(random_bytes@[j as int]));
        }
        j += 1;
    }
    let hi_fe = Fp { b: hi };
    let lo_fe = Fp { b: lo };
    proof {
        // hi's value is the block's high limb, the padding adding nothing.
        lemma_be_val_split(hi_fe.b@, pad.len() as int);
        assert(hi_fe.b@.take(pad.len() as int) =~= pad);
        assert(hi_fe.b@.skip(pad.len() as int) =~= random_bytes@.take(cut as int));
        lemma_be_val_zeros(pad);
        assert(hi_fe.val() == be_val(random_bytes@.take(cut as int)));
        assert(lo_fe.b@ =~= random_bytes@.skip(cut as int));
        lemma_be_val_split(random_bytes@, cut as int);
    }
    let r384 = r384_fe();
    let t_hi = fe_mul(&hi_fe, &r384);
    let t_lo = fe_rmod(&lo_fe);
    let s = fe_add_raw(&t_hi, &t_lo);
    let r = fe_rmod(&s);
    proof {
        let hv = be_val(random_bytes@.take(cut as int));
        let lv = be_val(random_bytes@.skip(cut as int));
        let pp = p();
        crate::constants::lemma_r384();
        assert(pow256(FIELD_BYTES as nat)
            == 0x1000000000000000000000000000000000000000000000000000000000000000000000000000000000000000000000000int)
            by {
            reveal_with_fuel(pow256, 50);
        }
        // (hv * (2^384 mod p)) mod p == (hv * 2^384) mod p
        lemma_mul_mod_noop_right(hv, pow256(FIELD_BYTES as nat), pp);
        // ((hv * 2^384) mod p + lv mod p) mod p == (hv * 2^384 + lv) mod p
        lemma_add_mod_noop(hv * pow256(FIELD_BYTES as nat), lv, pp);
        assert(t_hi.val() == (hv * pow256(FIELD_BYTES as nat)) % pp);
        assert(r.val() == (hv * pow256(FIELD_BYTES as nat) + lv) % pp);
    }
    r
}

/// The random-oracle and non-uniform draws are independent interfaces: the
/// first element of the 128-byte draw equals the 64-byte draw's element
/// exactly when the two expansions agree on their first 64 bytes — the
/// expansion binds its output length, so that is not so in general.
pub proof fn lemma_ro_shares_nu_element_iff_expansion_agrees(msg: Seq<u8>, dst: Seq<u8>)
    requires
        expand_xmd_spec(msg, dst, 128).take(64) == expand_xmd_spec(msg, dst, 64),
    ensures
        h2f_xmd_ro_spec(msg, dst).0 == h2f_xmd_nu_spec(msg, dst),
{
}

/// One element from a 64-byte XMD expansion: the non-uniform entry point.
pub fn hash_to_field_xmd_nu(msg: &[u8], dst: &DomainSeparationTag) -> (r: Result<
    Fp,
    HashingError,
>)
    requires
        dst.wf(),
    ensures
        r is Ok,
        r->Ok_0.canon(),
        r->Ok_0.val() == h2f_xmd_nu_spec(msg@, dst.bytes@),
{
    let random_bytes = match expand_message_xmd(msg, dst.bytes.as_slice(), 64) {
        Ok(b) => b,
        Err(e) => {
            return Err(e);
        },
    };
    Ok(field_elem_from_larger_bytearray(random_bytes.as_slice()))
}

/// Two elements from a 128-byte XMD expansion, reduced half by half in
/// order: the random-oracle entry point.
pub fn hash_to_field_xmd_ro(msg: &[u8], dst: &DomainSeparationTag) -> (r: Result<
    (Fp, Fp),
    HashingError,
>)
    requires
        dst.wf(),
    ensures
        r is Ok,
        r->Ok_0.0.canon(),
        r->Ok_0.1.canon(),
        (r->Ok_0.0.val(), r->Ok_0.1.val()) == h2f_xmd_ro_spec(msg@, dst.bytes@),
{
    let random_bytes = match expand_message_xmd(msg, dst.bytes.as_slice(), 128) {
        Ok(b) => b,
        Err(e) => {
            return Err(e);
        },
    };
    let first = vstd::slice::slice_subrange(random_bytes.as_slice(), 0, 64);
    let second = vstd::slice::slice_subrange(random_bytes.as_slice(), 64, 128);
    let u0 = field_elem_from_larger_bytearray(first);
    let u1 = field_elem_from_larger_bytearray(second);
    proof {
        assert(random_bytes@.subrange(0, 64) =~= random_bytes@.take(64));
        assert(random_bytes@.subrange(64, 128) =~= random_bytes@.skip(64));
    }
    Ok((u0, u1))
}

/// One element from a 64-byte XOF expansion.
pub fn hash_to_field_xof_nu(msg: &[u8], dst: &DomainSeparationTag) -> (r: Result<
    Fp,
    HashingError,
>)
    requires
        dst.wf(),
    ensures
        r is Ok,
        r->Ok_0.canon(),
        r->Ok_0.val() == h2f_xof_nu_spec(msg@, dst.bytes@),
{
    let random_bytes = match expand_message_xof(msg, dst.bytes.as_slice(), 64) {
        Ok(b) => b,
        Err(e) => {
            return Err(e);
        },
    };
    Ok(field_elem_from_larger_bytearray(random_bytes.as_slice()))
}

/// Two elements from a 128-byte XOF expansion, reduced half by half in order.
pub fn hash_to_field_xof_ro(msg: &[u8], dst: &DomainSeparationTag) -> (r: Result<
    (Fp, Fp),
    HashingError,
>)
    requires
        dst.wf(),
    ensures
        r is Ok,
        r->Ok_0.0.canon(),
        r->Ok_0.1.canon(),
        (r->Ok_0.0.val(), r->Ok_0.1.val()) == h2f_xof_ro_spec(msg@, dst.bytes@),
{
    let random_bytes = match expand_message_xof(msg, dst.bytes.as_slice(), 128) {
        Ok(b) => b,
        Err(e) => {
            return Err(e);
        },
    };
    let first = vstd::slice::slice_subrange(random_bytes.as_slice(), 0, 64);
    let second = vstd::slice::slice_subrange(random_bytes.as_slice(), 64, 128);
    let u0 = field_elem_from_larger_bytearray(first);
    let u1 = field_elem_from_larger_bytearray(second);
    proof {
        assert(random_bytes@.subrange(0, 64) =~= random_bytes@.take(64));
        assert(random_bytes@.subrange(64, 128) =~= random_bytes@.skip(64));
    }
    Ok((u0, u1))
}

} // verus!
