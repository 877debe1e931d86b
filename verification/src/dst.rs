//! The domain separation tag: an opaque byte string of at most 255 bytes,
//! assembled once from up to four labels.
use vstd::prelude::*;
use crate::error::HashingError;

verus! {

/// The bytes an optional label contributes.
pub open spec fn opt_seq(o: Option<&[u8]>) -> Seq<u8> {
    match o {
        Some(s) => s@,
        None => Seq::<u8>::empty(),
    }
}

/// A domain separation tag, making this suite's output disjoint from other
/// protocols'.
pub struct DomainSeparationTag {
    pub bytes: Vec<u8>,
}

impl DomainSeparationTag {
    /// Short enough for the draft's one-byte length encoding.
    pub open spec fn wf(&self) -> bool {
        1 <= self.bytes@.len() <= 255
    }

    /// Concatenates the labels; rejects an empty protocol id and a combined
    /// length beyond 255 bytes.
    pub fn new(
        protocol_id: &[u8],
        protocol_variant: Option<&[u8]>,
        ciphersuite_id: Option<&[u8]>,
        encoding_id: Option<&[u8]>,
    ) -> (r: Result<DomainSeparationTag, HashingError>)
        ensures
            ({
                let full = protocol_id@ + opt_seq(protocol_variant) + opt_seq(ciphersuite_id)
                    + opt_seq(encoding_id);
                &&& (protocol_id@.len() > 0 && full.len() <= 255) <==> r is Ok
                &&& r is Ok ==> r->Ok_0.bytes@ == full && r->Ok_0.wf()
                &&& r is Err ==> r->Err_0 == HashingError::InvalidDst
            }),
    {
        let mut v: Vec<u8> = Vec::new();
        append_bytes(&mut v, protocol_id);
        match protocol_variant {
            Some(s) => append_bytes(&mut v, s),
            None => (),
        }
        match ciphersuite_id {
            Some(s) => append_bytes(&mut v, s),
            None => (),
        }
        match encoding_id {
            Some(s) => append_bytes(&mut v, s),
            None => (),
        }
        if protocol_id.len() == 0 || v.len() > 255 {
            Err(HashingError::InvalidDst)
        } else {
            Ok(DomainSeparationTag { bytes: v })
        }
    }

    /// A copy of the tag's bytes.
    pub fn to_bytes(&self) -> (r: Vec<u8>)
        ensures
            r@ == self.bytes@,
    {
        vstd::slice::slice_to_vec(self.bytes.as_slice())
    }
}

/// Appends a byte slice to a vector.
pub(crate) fn append_bytes(v: &mut Vec<u8>, s: &[u8])
    ensures
        final(v)@ == old(v)@ + s@,
{
    let mut i: usize = 0;
    while i < s.len()
        invariant
            i <= s@.len(),
            v@ == old(v)@ + s@.take(i as int),
        decreases s@.len() - i,
    {
        v.push(s[i]);
        proof {
            assert(old(v)@ + s@.take(i + 1) =~= (old(v)@ + s@.take(i as int)).push(s@[i as int]));
        }
        i += 1;
    }
    proof {
        assert(s@.take(s@.len() as int) =~= s@);
    }
}

} // verus!
