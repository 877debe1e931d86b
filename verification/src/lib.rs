//! Hash-to-curve for BLS12-381 G1 by the simplified SWU map and the
//! 11-degree isogeny, following draft-irtf-cfrg-hash-to-curve: message
//! expansion over SHA-256 (XMD) or SHAKE-128 (XOF), reduction to base field
//! elements, the SSWU map onto the auxiliary curve, the isogeny to E and
//! cofactor clearing, in random-oracle and non-uniform operation.
pub mod field;

pub use curve::G1Point;
pub use dst::DomainSeparationTag;
pub use error::HashingError;
pub use field::Fp;
pub use suite::Bls12381G1Sswu;
pub mod constants;
pub mod sswu;
pub mod isogeny;
pub mod error;
pub mod dst;
pub mod expand;
pub mod hash_to_field;
pub mod curve;
pub mod suite;

use vstd::prelude::*;

verus! {

/// The number of bytes in the canonical big-endian encoding of a base
/// field element of BLS12-381 (381 bits rounded up to 48 bytes).
pub const FIELD_BYTES: usize = 48;

/// Value of a byte string read as a big-endian unsigned integer.
pub open spec fn be_val(s: Seq<u8>) -> int
    decreases s.len(),
{
    if s.len() == 0 {
        0
    } else {
        be_val(s.drop_last()) * 256 + s.last()
    }
}

} // verus!
