//! The suite facade: SSWU hash-to-curve for BLS12-381 G1, in its four forms
//! (random-oracle or non-uniform, over SHA-256 XMD or SHAKE-128 XOF).
use vstd::prelude::*;
use crate::curve::{
    clear_cofactor, clear_cofactor_spec, ec_add_val, on_curve, point_add, point_from_xy,
    point_of_xy, G1Point,
};
use crate::dst::DomainSeparationTag;
use crate::error::HashingError;
use crate::field::Fp;
use crate::hash_to_field::{
    h2f_xmd_nu_spec, h2f_xmd_ro_spec, h2f_xof_nu_spec, h2f_xof_ro_spec, hash_to_field_xmd_nu,
    hash_to_field_xmd_ro, hash_to_field_xof_nu, hash_to_field_xof_ro,
};
use crate::isogeny::{iso_map, iso_map_spec};
use crate::sswu::{map_to_curve_simple_swu, sswu_spec};

verus! {

/// The point a field element reaches: SSWU onto E', the isogeny to E, and
/// the on-curve guard of point construction.
pub open spec fn map_to_curve_model(u: int) -> (int, int, bool) {
    let q = iso_map_spec(sswu_spec(u).0, sswu_spec(u).1);
    if on_curve(q.0, q.1) {
        (q.0, q.1, false)
    } else {
        (0, 0, true)
    }
}

/// The non-uniform composition: map one element, clear the cofactor.
pub open spec fn encode_to_curve_model(u: int) -> (int, int, bool) {
    clear_cofactor_spec(map_to_curve_model(u))
}

/// The random-oracle composition: map two elements, add on E, clear the
/// cofactor.
pub open spec fn hash_to_curve_model(u0: int, u1: int) -> (int, int, bool) {
    clear_cofactor_spec(ec_add_val(map_to_curve_model(u0), map_to_curve_model(u1)))
}

/// The SSWU map composed with the isogeny: a point of E for every canonical
/// element, never anything off the curve.
pub fn map_to_curve(u: &Fp) -> (q: G1Point)
    requires
        u.canon(),
    ensures
        q.valid(),
        q.model() == map_to_curve_model(u.val()),
{
    let xy = map_to_curve_simple_swu(u);
    let e = iso_map(&xy.0, &xy.1);
    point_from_xy(&e.0, &e.1)
}

/// encode_to_curve on an already drawn element.
pub fn encode_to_curve(u: &Fp) -> (q: G1Point)
    requires
        u.canon(),
    ensures
        q.valid(),
        q.model() == encode_to_curve_model(u.val()),
{
    let m = map_to_curve(u);
    clear_cofactor(&m)
}

/// hash_to_curve on an already drawn pair of elements; the two mapped points
/// are added with E's full addition.
pub fn hash_to_curve(u0: &Fp, u1: &Fp) -> (q: G1Point)
    requires
        u0.canon(),
        u1.canon(),
    ensures
        q.valid(),
        q.model() == hash_to_curve_model(u0.val(), u1.val()),
{
    let q0 = map_to_curve(u0);
    let q1 = map_to_curve(u1);
    let s = point_add(&q0, &q1);
    clear_cofactor(&s)
}

/// BLS12381G1 SSWU hashing for one domain separation tag, in random-oracle
/// and non-uniform operation, over XMD and XOF expansion.
pub struct Bls12381G1Sswu {
    pub dst: DomainSeparationTag,
}

impl Bls12381G1Sswu {
    /// A suite bound to the given tag.
    pub fn new(dst: DomainSeparationTag) -> (s: Self)
        ensures
            s.dst == dst,
    {
        Self { dst }
    }

    /// encode_to_curve over SHA-256 XMD expansion: always a point of E (or
    /// the identity), pinned to the drawn element's path.
    pub fn encode_to_curve_xmd(&self, data: &[u8]) -> (r: Result<G1Point, HashingError>)
        requires
            self.dst.wf(),
        ensures
            r is Ok,
            r->Ok_0.valid(),
            r->Ok_0.model() == encode_to_curve_model(h2f_xmd_nu_spec(data@, self.dst.bytes@)),
    {
        let u = match hash_to_field_xmd_nu(data, &self.dst) {
            Ok(u) => u,
            Err(e) => {
                return Err(e);
            },
        };
        Ok(encode_to_curve(&u))
    }

    /// hash_to_curve over SHA-256 XMD expansion.
    pub fn hash_to_curve_xmd(&self, data: &[u8]) -> (r: Result<G1Point, HashingError>)
        requires
            self.dst.wf(),
        ensures
            r is Ok,
            r->Ok_0.valid(),
            r->Ok_0.model() == ({
                let u = h2f_xmd_ro_spec(data@, self.dst.bytes@);
                hash_to_curve_model(u.0, u.1)
            }),
    {
        let u = match hash_to_field_xmd_ro(data, &self.dst) {
            Ok(u) => u,
            Err(e) => {
                return Err(e);
            },
        };
        Ok(hash_to_curve(&u.0, &u.1))
    }

    /// encode_to_curve over SHAKE-128 XOF expansion.
    pub fn encode_to_curve_xof(&self, data: &[u8]) -> (r: Result<G1Point, HashingError>)
        requires
            self.dst.wf(),
        ensures
            r is Ok,
            r->Ok_0.valid(),
            r->Ok_0.model() == encode_to_curve_model(h2f_xof_nu_spec(data@, self.dst.bytes@)),
    {
        let u = match hash_to_field_xof_nu(data, &self.dst) {
            Ok(u) => u,
            Err(e) => {
                return Err(e);
            },
        };
        Ok(encode_to_curve(&u))
    }

    /// hash_to_curve over SHAKE-128 XOF expansion.
    pub fn hash_to_curve_xof(&self, data: &[u8]) -> (r: Result<G1Point, HashingError>)
        requires
            self.dst.wf(),
        ensures
            r is Ok,
            r->Ok_0.valid(),
            r->Ok_0.model() == ({
                let u = h2f_xof_ro_spec(data@, self.dst.bytes@);
                hash_to_curve_model(u.0, u.1)
            }),
    {
        let u = match hash_to_field_xof_ro(data, &self.dst) {
            Ok(u) => u,
            Err(e) => {
                return Err(e);
            },
        };
        Ok(hash_to_curve(&u.0, &u.1))
    }
}

impl From<DomainSeparationTag> for Bls12381G1Sswu {
    /// A suite from a tag, as `new` builds it.
    fn from(dst: DomainSeparationTag) -> (s: Self) {
        Self { dst }
    }
}

impl vstd::std_specs::convert::FromSpecImpl<DomainSeparationTag> for Bls12381G1Sswu {
    open spec fn obeys_from_spec() -> bool {
        true
    }

    open spec fn from_spec(dst: DomainSeparationTag) -> Self {
        Bls12381G1Sswu { dst }
    }
}

} // verus!
