// Behavioural properties: curve membership, subgroup membership, totality
// of the map on edge elements, the sgn0 boundary, and the error cases.
use bls381g1_hash::curve::scalar_mul;
use bls381g1_hash::dst::DomainSeparationTag;
use bls381g1_hash::error::HashingError;
use bls381g1_hash::expand::{expand_message_xmd, expand_message_xof};
use bls381g1_hash::hash_to_field::hash_to_field_xmd_ro;
use bls381g1_hash::sswu::{map_to_curve_simple_swu, on_iso_curve, sgn0};
use bls381g1_hash::suite::{map_to_curve, Bls12381G1Sswu};
use bls381g1_hash::Fp;

fn h2b48(s: &str) -> Vec<u8> {
    let chars = s.as_bytes();
    let val = |c: u8| -> u8 {
        match c {
            b'0'..=b'9' => c - b'0',
            b'a'..=b'f' => c - b'a' + 10,
            b'A'..=b'F' => c - b'A' + 10,
            _ => panic!("not hex"),
        }
    };
    let mut out = Vec::new();
    let mut i = 0;
    while i < chars.len() {
        out.push(val(chars[i]) * 16 + val(chars[i + 1]));
        i += 2;
    }
    while out.len() < 48 {
        out.insert(0, 0);
    }
    out
}

fn fe(s: &str) -> Fp {
    Fp::from_be_bytes(h2b48(s)).unwrap()
}

// The G1 subgroup order.
const ORDER: &str = "73eda753299d7d483339d80809a1d80553bda402fffe5bfeffffffff00000001";

fn ro_suite() -> Bls12381G1Sswu {
    let dst = DomainSeparationTag::new(
        "BLS12381G1_XMD:SHA-256_SSWU_RO_".as_bytes(),
        Some("TESTGEN".as_bytes()),
        None,
        None,
    )
    .unwrap();
    Bls12381G1Sswu::new(dst)
}

#[test]
fn outputs_satisfy_curve_equation() {
    let s = ro_suite();
    for msg in ["", "abc", "some longer message for the curve check"] {
        let p = s.hash_to_curve_xmd(msg.as_bytes()).unwrap();
        assert!(!p.is_infinity());
        assert!(p.is_on_curve());
        let q = s.encode_to_curve_xmd(msg.as_bytes()).unwrap();
        assert!(!q.is_infinity());
        assert!(q.is_on_curve());
    }
}

#[test]
fn outputs_lie_in_prime_order_subgroup() {
    let s = ro_suite();
    let r = fe(ORDER);
    for msg in ["", "abc", "abcdef0123456789"] {
        let p = s.hash_to_curve_xmd(msg.as_bytes()).unwrap();
        assert!(scalar_mul(&p, &r).is_infinity());
        let q = s.encode_to_curve_xmd(msg.as_bytes()).unwrap();
        assert!(scalar_mul(&q, &r).is_infinity());
    }
}

#[test]
fn clear_cofactor_output_stays_in_subgroup() {
    let s = ro_suite();
    let r = fe(ORDER);
    let p = s.hash_to_curve_xmd("abc".as_bytes()).unwrap();
    // Clearing again keeps the point inside the subgroup.
    let again = bls381g1_hash::curve::clear_cofactor(&p);
    assert!(again.is_on_curve());
    assert!(scalar_mul(&again, &r).is_infinity());
}

#[test]
fn sswu_output_lies_on_auxiliary_curve() {
    let dst = DomainSeparationTag::new(
        "BLS12381G1_XMD:SHA-256_SSWU_RO_".as_bytes(),
        Some("TESTGEN".as_bytes()),
        None,
        None,
    )
    .unwrap();
    for msg in ["", "abc", "abcdef0123456789"] {
        let (u0, u1) = hash_to_field_xmd_ro(msg.as_bytes(), &dst).unwrap();
        let (x0, y0) = map_to_curve_simple_swu(&u0);
        assert!(on_iso_curve(&x0, &y0));
        let (x1, y1) = map_to_curve_simple_swu(&u1);
        assert!(on_iso_curve(&x1, &y1));
    }
    // The map is total: u = 0 (where tv1 + tv2 = 0) still lands on E'.
    let zero = Fp::from_be_bytes(vec![0u8; 48]).unwrap();
    let (xz, yz) = map_to_curve_simple_swu(&zero);
    assert!(on_iso_curve(&xz, &yz));
    let one = fe("01");
    let (xo, yo) = map_to_curve_simple_swu(&one);
    assert!(on_iso_curve(&xo, &yo));
}

#[test]
fn iso_map_of_sswu_lies_on_e() {
    let dst = DomainSeparationTag::new(
        "BLS12381G1_XMD:SHA-256_SSWU_RO_".as_bytes(),
        Some("TESTGEN".as_bytes()),
        None,
        None,
    )
    .unwrap();
    for msg in ["", "abc", "abcdef0123456789"] {
        let (u0, u1) = hash_to_field_xmd_ro(msg.as_bytes(), &dst).unwrap();
        let q0 = map_to_curve(&u0);
        assert!(!q0.is_infinity());
        assert!(q0.is_on_curve());
        let q1 = map_to_curve(&u1);
        assert!(!q1.is_infinity());
        assert!(q1.is_on_curve());
    }
    let zero = Fp::from_be_bytes(vec![0u8; 48]).unwrap();
    let qz = map_to_curve(&zero);
    assert!(qz.is_on_curve());
}

#[test]
fn sgn0_boundary_values() {
    // sgn0 is negative exactly above (p-1)/2.
    let pm1div2 = "0d0088f51cbff34d258dd3db21a5d66bb23ba5c279c2895fb39869507b587b120f55ffff58a9ffffdcff7fffffffd555";
    let pm1div2p1 = "0d0088f51cbff34d258dd3db21a5d66bb23ba5c279c2895fb39869507b587b120f55ffff58a9ffffdcff7fffffffd556";
    let pm1 = "1a0111ea397fe69a4b1ba7b6434bacd764774b84f38512bf6730d2a0f6b0f6241eabfffeb153ffffb9feffffffffaaaa";
    assert!(!sgn0(&fe("00")));
    assert!(!sgn0(&fe("01")));
    assert!(!sgn0(&fe(pm1div2)));
    assert!(sgn0(&fe(pm1div2p1)));
    assert!(sgn0(&fe(pm1)));
}

#[test]
fn oversized_tag_is_rejected() {
    let long = vec![b'a'; 256];
    let r = DomainSeparationTag::new(long.as_slice(), None, None, None);
    assert_eq!(r.err(), Some(HashingError::InvalidDst));
    let empty: &[u8] = &[];
    let r = DomainSeparationTag::new(empty, None, None, None);
    assert_eq!(r.err(), Some(HashingError::InvalidDst));
    // A tag that only the concatenation pushes over the bound.
    let a = vec![b'a'; 200];
    let b = vec![b'b'; 100];
    let r = DomainSeparationTag::new(a.as_slice(), Some(b.as_slice()), None, None);
    assert_eq!(r.err(), Some(HashingError::InvalidDst));
}

#[test]
fn oversized_expansion_is_rejected() {
    let dst = "BLS12381G1_XMD:SHA-256_SSWU_RO_TESTGEN".as_bytes();
    let msg = "abc".as_bytes();
    assert_eq!(
        expand_message_xmd(msg, dst, 70000).err(),
        Some(HashingError::InvalidExpansionLength)
    );
    // More blocks than one byte can index.
    assert_eq!(
        expand_message_xmd(msg, dst, 9000).err(),
        Some(HashingError::InvalidExpansionLength)
    );
    assert_eq!(
        expand_message_xof(msg, dst, 70000).err(),
        Some(HashingError::InvalidExpansionLength)
    );
    let long = vec![b'a'; 256];
    assert_eq!(
        expand_message_xmd(msg, long.as_slice(), 64).err(),
        Some(HashingError::InvalidDst)
    );
    assert_eq!(
        expand_message_xof(msg, long.as_slice(), 64).err(),
        Some(HashingError::InvalidDst)
    );
    // Within bounds, the expansion hands back exactly the asked length.
    assert_eq!(expand_message_xmd(msg, dst, 8160).unwrap().len(), 8160);
    assert_eq!(expand_message_xof(msg, dst, 100).unwrap().len(), 100);
}
