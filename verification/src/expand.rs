//! expand_message: L-byte pseudorandom output bound to a message and a
//! domain separation tag, through SHA-256 block iteration (XMD) or a
//! SHAKE-128 read (XOF).
use vstd::prelude::*;
use digest::{Digest, ExtendableOutput, Update, XofReader};
use crate::dst::append_bytes;
use crate::error::HashingError;

verus! {

/// What SHA-256 answers on a byte string; fixed by the input alone.
pub uninterp spec fn sha256_of(data: Seq<u8>) -> Seq<u8>;

/// What SHAKE-128 answers on a byte string when n bytes are read; fixed by
/// the input and the length alone.
pub uninterp spec fn shake128_of(data: Seq<u8>, n: nat) -> Seq<u8>;

/// Relies on sha2's SHA-256: a pure function of its input with 32 bytes of
/// output.
#[verifier::external_body]
fn sha256(data: &Vec<u8>) -> (r: Vec<u8>)
    ensures
        r@ == sha256_of(data@),
        r@.len() == 32,
{
    let d = sha2::Sha256::digest(data.as_slice());
    d.to_vec()
}

/// Relies on sha3's SHAKE-128: a pure function of its input, read to exactly
/// the requested length.
#[verifier::external_body]
fn shake128(data: &Vec<u8>, n: usize) -> (r: Vec<u8>)
    ensures
        r@ == shake128_of(data@, n as nat),
        r@.len() == n,
{
    let mut h = sha3::Shake128::default();
    h.update(data.as_slice());
    let mut out = vec![0u8; n];
    h.finalize_xof().read(&mut out);
    out
}

/// The two-byte big-endian encoding of a length below 2^16.
pub open spec fn i2osp2(n: nat) -> Seq<u8> {
    seq![((n / 256) % 256) as u8, (n % 256) as u8]
}

/// DST_prime: the tag preceded by its one-byte length.
pub open spec fn dst_prime(dst: Seq<u8>) -> Seq<u8> {
    seq![dst.len() as u8] + dst
}

/// A hash-block of zero bytes, one SHA-256 input block wide.
pub open spec fn z_pad() -> Seq<u8> {
    Seq::new(64, |i: int| 0u8)
}

/// Byte-wise xor of two strings of one length.
pub open spec fn xor_bytes(a: Seq<u8>, b: Seq<u8>) -> Seq<u8> {
    Seq::new(a.len(), |i: int| a[i] ^ b[i])
}

/// b_0 of the XMD iteration.
pub open spec fn xmd_b0(msg: Seq<u8>, dst: Seq<u8>, len: nat) -> Seq<u8> {
    sha256_of(z_pad() + msg + i2osp2(len) + seq![0u8] + dst_prime(dst))
}

/// b_i of the XMD iteration, for i from 1 up.
pub open spec fn xmd_block(msg: Seq<u8>, dst: Seq<u8>, len: nat, i: nat) -> Seq<u8>
    decreases i,
{
    if i <= 1 {
        sha256_of(xmd_b0(msg, dst, len) + seq![1u8] + dst_prime(dst))
    } else {
        sha256_of(
            xor_bytes(xmd_block(msg, dst, len, (i - 1) as nat), xmd_b0(msg, dst, len)) + seq![
                i as u8,
            ] + dst_prime(dst),
        )
    }
}

/// b_1 || ... || b_n.
pub open spec fn xmd_blocks(msg: Seq<u8>, dst: Seq<u8>, len: nat, n: nat) -> Seq<u8>
    decreases n,
{
    if n == 0 {
        Seq::<u8>::empty()
    } else {
        xmd_blocks(msg, dst, len, (n - 1) as nat) + xmd_block(msg, dst, len, n)
    }
}

/// How many blocks an XMD expansion needs.
pub open spec fn xmd_ell(len: nat) -> nat {
    (len + 31) / 32
}

/// The XMD expansion: the block concatenation cut to the requested length.
pub open spec fn expand_xmd_spec(msg: Seq<u8>, dst: Seq<u8>, len: nat) -> Seq<u8> {
    xmd_blocks(msg, dst, len, xmd_ell(len)).take(len as int)
}

/// The XOF expansion: one SHAKE-128 read over the framed message.
pub open spec fn expand_xof_spec(msg: Seq<u8>, dst: Seq<u8>, len: nat) -> Seq<u8> {
    shake128_of(msg + i2osp2(len) + dst_prime(dst), len)
}

/// Byte-wise xor of two equally long vectors.
fn xor_vec(a: &Vec<u8>, b: &Vec<u8>) -> (r: Vec<u8>)
    requires
        a@.len() == b@.len(),
    ensures
        r@ == xor_bytes(a@, b@),
{
    let mut v: Vec<u8> = Vec::new();
    let mut i: usize = 0;
    while i < a.len()
        invariant
            a@.len() == b@.len(),
            i <= a@.len(),
            v@.len() == i,
            forall|j: int| 0 <= j < i ==> v@[j] == (a@[j] ^ b@[j]),
        decreases a@.len() - i,
    {
        v.push(a[i] ^ b[i]);
        i += 1;
    }
    proof {
        assert(v@ =~= xor_bytes(a@, b@));
    }
    v
}

/// expand_message_xmd with SHA-256: produces exactly len_in_bytes bytes bound
/// to the message and the tag, or rejects an oversized tag or length.
pub fn expand_message_xmd(msg: &[u8], dst: &[u8], len_in_bytes: usize) -> (r: Result<
    Vec<u8>,
    HashingError,
>)
    ensures
        (dst@.len() <= 255 && len_in_bytes <= 65535 && xmd_ell(len_in_bytes as nat) <= 255) <==> r
            is Ok,
        r is Ok ==> r->Ok_0@ == expand_xmd_spec(msg@, dst@, len_in_bytes as nat)
            && r->Ok_0@.len() == len_in_bytes,
        r is Err ==> r->Err_0 == (if dst@.len() > 255 {
            HashingError::InvalidDst
        } else {
            HashingError::InvalidExpansionLength
        }),
{
    if dst.len() > 255 {
        return Err(HashingError::InvalidDst);
    }
    if len_in_bytes > 65535 {
        return Err(HashingError::InvalidExpansionLength);
    }
    let ell: usize = (len_in_bytes + 31) / 32;
    if ell > 255 {
        return Err(HashingError::InvalidExpansionLength);
    }

    let mut dstp: Vec<u8> = Vec::new();
    dstp.push(dst.len() as u8);
    append_bytes(&mut dstp, dst);
    proof {
        assert(dstp@ =~= dst_prime(dst@));
    }

    let mut m0: Vec<u8> = Vec::new();
    let mut i: usize = 0;
    while i < 64
        invariant
            i <= 64,
            m0@.len() == i,
            forall|j: int| 0 <= j < i ==> m0@[j] == 0,
        decreases 64 - i,
    {
        m0.push(0u8);
        i += 1;
    }
    proof {
        assert(m0@ =~= z_pad());
    }
    append_bytes(&mut m0, msg);
    m0.push((len_in_bytes / 256) as u8);
    m0.push((len_in_bytes % 256) as u8);
    m0.push(0u8);
    append_bytes(&mut m0, dstp.as_slice());
    proof {
        assert(m0@ =~= z_pad() + msg@ + i2osp2(len_in_bytes as nat) + seq![0u8] + dst_prime(
            dst@,
        ));
    }
    let b0 = sha256(&m0);

    let mut m1: Vec<u8> = Vec::new();
    append_bytes(&mut m1, b0.as_slice());
    m1.push(1u8);
    append_bytes(&mut m1, dstp.as_slice());
    proof {
        assert(m1@ =~= xmd_b0(msg@, dst@, len_in_bytes as nat) + seq![1u8] + dst_prime(dst@));
    }
    let mut bi = sha256(&m1);

    let mut out: Vec<u8> = Vec::new();
    append_bytes(&mut out, bi.as_slice());
    proof {
        reveal_with_fuel(xmd_blocks, 3);
        assert(out@ =~= xmd_blocks(msg@, dst@, len_in_bytes as nat, 1));
    }

    let mut blk: usize = 2;
    while blk <= ell
        invariant
            2 <= blk <= 256,
            blk == 2 || blk <= ell + 1,
            ell <= 255,
            b0@ == xmd_b0(msg@, dst@, len_in_bytes as nat),
            b0@.len() == 32,
            bi@ == xmd_block(msg@, dst@, len_in_bytes as nat, (blk - 1) as nat),
            bi@.len() == 32,
            out@ == xmd_blocks(msg@, dst@, len_in_bytes as nat, (blk - 1) as nat),
            out@.len() == 32 * (blk - 1),
            dstp@ == dst_prime(dst@),
        decreases ell + 1 - blk,
    {
        let mut mi = xor_vec(&bi, &b0);
        mi.push(blk as u8);
        append_bytes(&mut mi, dstp.as_slice());
        proof {
            assert(mi@ =~= xor_bytes(
                xmd_block(msg@, dst@, len_in_bytes as nat, (blk - 1) as nat),
                xmd_b0(msg@, dst@, len_in_bytes as nat),
            ) + seq![blk as u8] + dst_prime(dst@));
        }
        bi = sha256(&mi);
        append_bytes(&mut out, bi.as_slice());
        blk += 1;
    }

    proof {
        vstd::arithmetic::div_mod::lemma_fundamental_div_mod(len_in_bytes + 31, 32);
        assert(out@.len() >= len_in_bytes);
    }
    out.truncate(len_in_bytes);
    proof {
        assert(out@ =~= expand_xmd_spec(msg@, dst@, len_in_bytes as nat));
    }
    Ok(out)
}

/// expand_message_xof with SHAKE-128: the framed message fed to the XOF and
/// read to the requested length, with the same boundary checks as XMD.
pub fn expand_message_xof(msg: &[u8], dst: &[u8], len_in_bytes: usize) -> (r: Result<
    Vec<u8>,
    HashingError,
>)
    ensures
        (dst@.len() <= 255 && len_in_bytes <= 65535) <==> r is Ok,
        r is Ok ==> r->Ok_0@ == expand_xof_spec(msg@, dst@, len_in_bytes as nat)
            && r->Ok_0@.len() == len_in_bytes,
        r is Err ==> r->Err_0 == (if dst@.len() > 255 {
            HashingError::InvalidDst
        } else {
            HashingError::InvalidExpansionLength
        }),
{
    if dst.len() > 255 {
        return Err(HashingError::InvalidDst);
    }
    if len_in_bytes > 65535 {
        return Err(HashingError::InvalidExpansionLength);
    }
    let mut m: Vec<u8> = Vec::new();
    append_bytes(&mut m, msg);
    m.push((len_in_bytes / 256) as u8);
    m.push((len_in_bytes % 256) as u8);
    m.push(dst.len() as u8);
    append_bytes(&mut m, dst);
    proof {
        assert(m@ =~= msg@ + i2osp2(len_in_bytes as nat) + dst_prime(dst@));
    }
    Ok(shake128(&m, len_in_bytes))
}

} // verus!
