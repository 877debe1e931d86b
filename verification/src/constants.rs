//! The numerical constants of the suite: the SSWU helpers, the isogeny
//! coefficient tables and the cofactor, each both as its integer value (for
//! the contracts) and as a canonical byte table (for the code).
use vstd::prelude::*;
use crate::be_val;
use crate::field::{p, Fp};

verus! {

/// Wraps a 48-byte table as a field element.
pub(crate) fn fe48(a: &[u8; 48]) -> (r: Fp)
    ensures
        r.wf(),
        r.b@ == a@,
{
    Fp { b: vstd::slice::slice_to_vec(a.as_slice()) }
}

/// Z, the non-square SSWU parameter for this suite:
/// 0x00000000000000000000000000000000000000000000000000000000000000000000000000000000000000000000000b.
pub open spec fn z_val() -> int {
    0x00000000000000000000000000000000000000000000000000000000000000000000000000000000000000000000000bint
}

#[verifier::rlimit(50)]
pub(crate) fn z_fe() -> (r: Fp)
    ensures
        r.canon(),
        r.val() == z_val(),
{
    let f = fe48(&[0x00, 0x00, 0x00, 0x00, 0x00, 0x00, 0x00, 0x00, 0x00, 0x00, 0x00, 0x00, 0x00, 0x00, 0x00, 0x00, 0x00, 0x00, 0x00, 0x00, 0x00, 0x00, 0x00, 0x00, 0x00, 0x00, 0x00, 0x00, 0x00, 0x00, 0x00, 0x00, 0x00, 0x00, 0x00, 0x00, 0x00, 0x00, 0x00, 0x00, 0x00, 0x00, 0x00, 0x00, 0x00, 0x00, 0x00, 0x0b]);
    proof {
        reveal_with_fuel(be_val, 50);
    }
    f
}

/// C1 = -B' / A' mod p, the first SSWU helper constant:
/// 0x0793154fd85631d966ef2470460c78f6a928ad9f5bdbfac21df39753aa278ba751bdfcf95a84188e29d670675e4c9c7c.
pub open spec fn c1_val() -> int {
    0x0793154fd85631d966ef2470460c78f6a928ad9f5bdbfac21df39753aa278ba751bdfcf95a84188e29d670675e4c9c7cint
}

#[verifier::rlimit(50)]
pub(crate) fn c1_fe() -> (r: Fp)
    ensures
        r.canon(),
        r.val() == c1_val(),
{
    let f = fe48(&[0x07, 0x93, 0x15, 0x4f, 0xd8, 0x56, 0x31, 0xd9, 0x66, 0xef, 0x24, 0x70, 0x46, 0x0c, 0x78, 0xf6, 0xa9, 0x28, 0xad, 0x9f, 0x5b, 0xdb, 0xfa, 0xc2, 0x1d, 0xf3, 0x97, 0x53, 0xaa, 0x27, 0x8b, 0xa7, 0x51, 0xbd, 0xfc, 0xf9, 0x5a, 0x84, 0x18, 0x8e, 0x29, 0xd6, 0x70, 0x67, 0x5e, 0x4c, 0x9c, 0x7c]);
    proof {
        reveal_with_fuel(be_val, 50);
    }
    f
}

/// C2 = -1 / Z mod p, the second SSWU helper constant:
/// 0x025d302c90dd14f6c102839c34a9c9e509221e235bf4d328ac4a41b18aca44ec02c9d1743eaa8ba2e25cfffffffff83e.
pub open spec fn c2_val() -> int {
    0x025d302c90dd14f6c102839c34a9c9e509221e235bf4d328ac4a41b18aca44ec02c9d1743eaa8ba2e25cfffffffff83eint
}

#[verifier::rlimit(50)]
pub(crate) fn c2_fe() -> (r: Fp)
    ensures
        r.canon(),
        r.val() == c2_val(),
{
    let f = fe48(&[0x02, 0x5d, 0x30, 0x2c, 0x90, 0xdd, 0x14, 0xf6, 0xc1, 0x02, 0x83, 0x9c, 0x34, 0xa9, 0xc9, 0xe5, 0x09, 0x22, 0x1e, 0x23, 0x5b, 0xf4, 0xd3, 0x28, 0xac, 0x4a, 0x41, 0xb1, 0x8a, 0xca, 0x44, 0xec, 0x02, 0xc9, 0xd1, 0x74, 0x3e, 0xaa, 0x8b, 0xa2, 0xe2, 0x5c, 0xff, 0xff, 0xff, 0xff, 0xf8, 0x3e]);
    proof {
        reveal_with_fuel(be_val, 50);
    }
    f
}

/// A', the x-coefficient of the auxiliary curve E':
/// 0x00144698a3b8e9433d693a02c96d4982b0ea985383ee66a8d8e8981aefd881ac98936f8da0e0f97f5cf428082d584c1d.
pub open spec fn iso_a_val() -> int {
    0x00144698a3b8e9433d693a02c96d4982b0ea985383ee66a8d8e8981aefd881ac98936f8da0e0f97f5cf428082d584c1dint
}

#[verifier::rlimit(50)]
pub(crate) fn iso_a_fe() -> (r: Fp)
    ensures
        r.canon(),
        r.val() == iso_a_val(),
{
    let f = fe48(&[0x00, 0x14, 0x46, 0x98, 0xa3, 0xb8, 0xe9, 0x43, 0x3d, 0x69, 0x3a, 0x02, 0xc9, 0x6d, 0x49, 0x82, 0xb0, 0xea, 0x98, 0x53, 0x83, 0xee, 0x66, 0xa8, 0xd8, 0xe8, 0x98, 0x1a, 0xef, 0xd8, 0x81, 0xac, 0x98, 0x93, 0x6f, 0x8d, 0xa0, 0xe0, 0xf9, 0x7f, 0x5c, 0xf4, 0x28, 0x08, 0x2d, 0x58, 0x4c, 0x1d]);
    proof {
        reveal_with_fuel(be_val, 50);
    }
    f
}

/// B', the constant term of the auxiliary curve E':
/// 0x12e2908d11688030018b12e8753eee3b2016c1f0f24f4070a0b9c14fcef35ef55a23215a316ceaa5d1cc48e98e172be0.
pub open spec fn iso_b_val() -> int {
    0x12e2908d11688030018b12e8753eee3b2016c1f0f24f4070a0b9c14fcef35ef55a23215a316ceaa5d1cc48e98e172be0int
}

#[verifier::rlimit(50)]
pub(crate) fn iso_b_fe() -> (r: Fp)
    ensures
        r.canon(),
        r.val() == iso_b_val(),
{
    let f = fe48(&[0x12, 0xe2, 0x90, 0x8d, 0x11, 0x68, 0x80, 0x30, 0x01, 0x8b, 0x12, 0xe8, 0x75, 0x3e, 0xee, 0x3b, 0x20, 0x16, 0xc1, 0xf0, 0xf2, 0x4f, 0x40, 0x70, 0xa0, 0xb9, 0xc1, 0x4f, 0xce, 0xf3, 0x5e, 0xf5, 0x5a, 0x23, 0x21, 0x5a, 0x31, 0x6c, 0xea, 0xa5, 0xd1, 0xcc, 0x48, 0xe9, 0x8e, 0x17, 0x2b, 0xe0]);
    proof {
        reveal_with_fuel(be_val, 50);
    }
    f
}

/// (p - 1) / 2, the exponent of Euler's criterion, also the sgn0 threshold:
/// 0x0d0088f51cbff34d258dd3db21a5d66bb23ba5c279c2895fb39869507b587b120f55ffff58a9ffffdcff7fffffffd555.
pub open spec fn pm1div2_val() -> int {
    0x0d0088f51cbff34d258dd3db21a5d66bb23ba5c279c2895fb39869507b587b120f55ffff58a9ffffdcff7fffffffd555int
}

#[verifier::rlimit(50)]
pub(crate) fn pm1div2_fe() -> (r: Fp)
    ensures
        r.canon(),
        r.val() == pm1div2_val(),
{
    let f = fe48(&[0x0d, 0x00, 0x88, 0xf5, 0x1c, 0xbf, 0xf3, 0x4d, 0x25, 0x8d, 0xd3, 0xdb, 0x21, 0xa5, 0xd6, 0x6b, 0xb2, 0x3b, 0xa5, 0xc2, 0x79, 0xc2, 0x89, 0x5f, 0xb3, 0x98, 0x69, 0x50, 0x7b, 0x58, 0x7b, 0x12, 0x0f, 0x55, 0xff, 0xff, 0x58, 0xa9, 0xff, 0xff, 0xdc, 0xff, 0x7f, 0xff, 0xff, 0xff, 0xd5, 0x55]);
    proof {
        reveal_with_fuel(be_val, 50);
    }
    f
}

/// (p + 1) / 4, the square-root exponent for p = 3 mod 4:
/// 0x0680447a8e5ff9a692c6e9ed90d2eb35d91dd2e13ce144afd9cc34a83dac3d8907aaffffac54ffffee7fbfffffffeaab.
pub open spec fn sqrt_exp_val() -> int {
    0x0680447a8e5ff9a692c6e9ed90d2eb35d91dd2e13ce144afd9cc34a83dac3d8907aaffffac54ffffee7fbfffffffeaabint
}

#[verifier::rlimit(50)]
pub(crate) fn sqrt_exp_fe() -> (r: Fp)
    ensures
        r.canon(),
        r.val() == sqrt_exp_val(),
{
    let f = fe48(&[0x06, 0x80, 0x44, 0x7a, 0x8e, 0x5f, 0xf9, 0xa6, 0x92, 0xc6, 0xe9, 0xed, 0x90, 0xd2, 0xeb, 0x35, 0xd9, 0x1d, 0xd2, 0xe1, 0x3c, 0xe1, 0x44, 0xaf, 0xd9, 0xcc, 0x34, 0xa8, 0x3d, 0xac, 0x3d, 0x89, 0x07, 0xaa, 0xff, 0xff, 0xac, 0x54, 0xff, 0xff, 0xee, 0x7f, 0xbf, 0xff, 0xff, 0xff, 0xea, 0xab]);
    proof {
        reveal_with_fuel(be_val, 50);
    }
    f
}

/// h_eff, the effective cofactor of the G1 subgroup:
/// 0x00000000000000000000000000000000000000000000000000000000000000000000000000000000d201000000010001.
pub open spec fn h_eff_val() -> int {
    0x00000000000000000000000000000000000000000000000000000000000000000000000000000000d201000000010001int
}

#[verifier::rlimit(50)]
pub(crate) fn h_eff_fe() -> (r: Fp)
    ensures
        r.canon(),
        r.val() == h_eff_val(),
{
    let f = fe48(&[0x00, 0x00, 0x00, 0x00, 0x00, 0x00, 0x00, 0x00, 0x00, 0x00, 0x00, 0x00, 0x00, 0x00, 0x00, 0x00, 0x00, 0x00, 0x00, 0x00, 0x00, 0x00, 0x00, 0x00, 0x00, 0x00, 0x00, 0x00, 0x00, 0x00, 0x00, 0x00, 0x00, 0x00, 0x00, 0x00, 0x00, 0x00, 0x00, 0x00, 0xd2, 0x01, 0x00, 0x00, 0x00, 0x01, 0x00, 0x01]);
    proof {
        reveal_with_fuel(be_val, 50);
    }
    f
}

/// 2^384 mod p, the weight of the high limb in the wide reduction:
/// 0x15f65ec3fa80e4935c071a97a256ec6d77ce5853705257455f48985753c758baebf4000bc40c0002760900000002fffd.
pub open spec fn r384_val() -> int {
    0x15f65ec3fa80e4935c071a97a256ec6d77ce5853705257455f48985753c758baebf4000bc40c0002760900000002fffdint
}

#[verifier::rlimit(50)]
pub(crate) fn r384_fe() -> (r: Fp)
    ensures
        r.canon(),
        r.val() == r384_val(),
{
    let f = fe48(&[0x15, 0xf6, 0x5e, 0xc3, 0xfa, 0x80, 0xe4, 0x93, 0x5c, 0x07, 0x1a, 0x97, 0xa2, 0x56, 0xec, 0x6d, 0x77, 0xce, 0x58, 0x53, 0x70, 0x52, 0x57, 0x45, 0x5f, 0x48, 0x98, 0x57, 0x53, 0xc7, 0x58, 0xba, 0xeb, 0xf4, 0x00, 0x0b, 0xc4, 0x0c, 0x00, 0x02, 0x76, 0x09, 0x00, 0x00, 0x00, 0x02, 0xff, 0xfd]);
    proof {
        reveal_with_fuel(be_val, 50);
    }
    f
}

/// Coefficients, by ascending power, of the numerator of the isogeny's x map.
pub open spec fn x_num_vals() -> Seq<int> {
    seq![
        0x11a05f2b1e833340b809101dd99815856b303e88a2d7005ff2627b56cdb4e2c85610c2d5f2e62d6eaeac1662734649b7int,
        0x17294ed3e943ab2f0588bab22147a81c7c17e75b2f6a8417f565e33c70d1e86b4838f2a6f318c356e834eef1b3cb83bbint,
        0x0d54005db97678ec1d1048c5d10a9a1bce032473295983e56878e501ec68e25c958c3e3d2a09729fe0179f9dac9edcb0int,
        0x1778e7166fcc6db74e0609d307e55412d7f5e4656a8dbf25f1b33289f1b330835336e25ce3107193c5b388641d9b6861int,
        0x0e99726a3199f4436642b4b3e4118e5499db995a1257fb3f086eeb65982fac18985a286f301e77c451154ce9ac8895d9int,
        0x1630c3250d7313ff01d1201bf7a74ab5db3cb17dd952799b9ed3ab9097e68f90a0870d2dcae73d19cd13c1c66f652983int,
        0x0d6ed6553fe44d296a3726c38ae652bfb11586264f0f8ce19008e218f9c86b2a8da25128c1052ecaddd7f225a139ed84int,
        0x17b81e7701abdbe2e8743884d1117e53356de5ab275b4db1a682c62ef0f2753339b7c8f8c8f475af9ccb5618e3f0c88eint,
        0x080d3cf1f9a78fc47b90b33563be990dc43b756ce79f5574a2c596c928c5d1de4fa295f296b74e956d71986a8497e317int,
        0x169b1f8e1bcfa7c42e0c37515d138f22dd2ecb803a0c5c99676314baf4bb1b7fa3190b2edc0327797f241067be390c9eint,
        0x10321da079ce07e272d8ec09d2565b0dfa7dccdde6787f96d50af36003b14866f69b771f8c285decca67df3f1605fb7bint,
        0x06e08c248e260e70bd1e962381edee3d31d79d7e22c837bc23c0bf1bc24c6b68c24b1b80b64d391fa9c8ba2e8ba2d229int,
    ]
}

#[verifier::rlimit(50)]
fn x_num_0() -> (r: Fp)
    ensures
        r.canon(),
        r.val() == 0x11a05f2b1e833340b809101dd99815856b303e88a2d7005ff2627b56cdb4e2c85610c2d5f2e62d6eaeac1662734649b7int,
{
    let f = fe48(&[0x11, 0xa0, 0x5f, 0x2b, 0x1e, 0x83, 0x33, 0x40, 0xb8, 0x09, 0x10, 0x1d, 0xd9, 0x98, 0x15, 0x85, 0x6b, 0x30, 0x3e, 0x88, 0xa2, 0xd7, 0x00, 0x5f, 0xf2, 0x62, 0x7b, 0x56, 0xcd, 0xb4, 0xe2, 0xc8, 0x56, 0x10, 0xc2, 0xd5, 0xf2, 0xe6, 0x2d, 0x6e, 0xae, 0xac, 0x16, 0x62, 0x73, 0x46, 0x49, 0xb7]);
    proof {
        reveal_with_fuel(be_val, 50);
    }
    f
}

#[verifier::rlimit(50)]
fn x_num_1() -> (r: Fp)
    ensures
        r.canon(),
        r.val() == 0x17294ed3e943ab2f0588bab22147a81c7c17e75b2f6a8417f565e33c70d1e86b4838f2a6f318c356e834eef1b3cb83bbint,
{
    let f = fe48(&[0x17, 0x29, 0x4e, 0xd3, 0xe9, 0x43, 0xab, 0x2f, 0x05, 0x88, 0xba, 0xb2, 0x21, 0x47, 0xa8, 0x1c, 0x7c, 0x17, 0xe7, 0x5b, 0x2f, 0x6a, 0x84, 0x17, 0xf5, 0x65, 0xe3, 0x3c, 0x70, 0xd1, 0xe8, 0x6b, 0x48, 0x38, 0xf2, 0xa6, 0xf3, 0x18, 0xc3, 0x56, 0xe8, 0x34, 0xee, 0xf1, 0xb3, 0xcb, 0x83, 0xbb]);
    proof {
        reveal_with_fuel(be_val, 50);
    }
    f
}

#[verifier::rlimit(50)]
fn x_num_2() -> (r: Fp)
    ensures
        r.canon(),
        r.val() == 0x0d54005db97678ec1d1048c5d10a9a1bce032473295983e56878e501ec68e25c958c3e3d2a09729fe0179f9dac9edcb0int,
{
    let f = fe48(&[0x0d, 0x54, 0x00, 0x5d, 0xb9, 0x76, 0x78, 0xec, 0x1d, 0x10, 0x48, 0xc5, 0xd1, 0x0a, 0x9a, 0x1b, 0xce, 0x03, 0x24, 0x73, 0x29, 0x59, 0x83, 0xe5, 0x68, 0x78, 0xe5, 0x01, 0xec, 0x68, 0xe2, 0x5c, 0x95, 0x8c, 0x3e, 0x3d, 0x2a, 0x09, 0x72, 0x9f, 0xe0, 0x17, 0x9f, 0x9d, 0xac, 0x9e, 0xdc, 0xb0]);
    proof {
        reveal_with_fuel(be_val, 50);
    }
    f
}

#[verifier::rlimit(50)]
fn x_num_3() -> (r: Fp)
    ensures
        r.canon(),
        r.val() == 0x1778e7166fcc6db74e0609d307e55412d7f5e4656a8dbf25f1b33289f1b330835336e25ce3107193c5b388641d9b6861int,
{
    let f = fe48(&[0x17, 0x78, 0xe7, 0x16, 0x6f, 0xcc, 0x6d, 0xb7, 0x4e, 0x06, 0x09, 0xd3, 0x07, 0xe5, 0x54, 0x12, 0xd7, 0xf5, 0xe4, 0x65, 0x6a, 0x8d, 0xbf, 0x25, 0xf1, 0xb3, 0x32, 0x89, 0xf1, 0xb3, 0x30, 0x83, 0x53, 0x36, 0xe2, 0x5c, 0xe3, 0x10, 0x71, 0x93, 0xc5, 0xb3, 0x88, 0x64, 0x1d, 0x9b, 0x68, 0x61]);
    proof {
        reveal_with_fuel(be_val, 50);
    }
    f
}

#[verifier::rlimit(50)]
fn x_num_4() -> (r: Fp)
    ensures
        r.canon(),
        r.val() == 0x0e99726a3199f4436642b4b3e4118e5499db995a1257fb3f086eeb65982fac18985a286f301e77c451154ce9ac8895d9int,
{
    let f = fe48(&[0x0e, 0x99, 0x72, 0x6a, 0x31, 0x99, 0xf4, 0x43, 0x66, 0x42, 0xb4, 0xb3, 0xe4, 0x11, 0x8e, 0x54, 0x99, 0xdb, 0x99, 0x5a, 0x12, 0x57, 0xfb, 0x3f, 0x08, 0x6e, 0xeb, 0x65, 0x98, 0x2f, 0xac, 0x18, 0x98, 0x5a, 0x28, 0x6f, 0x30, 0x1e, 0x77, 0xc4, 0x51, 0x15, 0x4c, 0xe9, 0xac, 0x88, 0x95, 0xd9]);
    proof {
        reveal_with_fuel(be_val, 50);
    }
    f
}

#[verifier::rlimit(50)]
fn x_num_5() -> (r: Fp)
    ensures
        r.canon(),
        r.val() == 0x1630c3250d7313ff01d1201bf7a74ab5db3cb17dd952799b9ed3ab9097e68f90a0870d2dcae73d19cd13c1c66f652983int,
{
    let f = fe48(&[0x16, 0x30, 0xc3, 0x25, 0x0d, 0x73, 0x13, 0xff, 0x01, 0xd1, 0x20, 0x1b, 0xf7, 0xa7, 0x4a, 0xb5, 0xdb, 0x3c, 0xb1, 0x7d, 0xd9, 0x52, 0x79, 0x9b, 0x9e, 0xd3, 0xab, 0x90, 0x97, 0xe6, 0x8f, 0x90, 0xa0, 0x87, 0x0d, 0x2d, 0xca, 0xe7, 0x3d, 0x19, 0xcd, 0x13, 0xc1, 0xc6, 0x6f, 0x65, 0x29, 0x83]);
    proof {
        reveal_with_fuel(be_val, 50);
    }
    f
}

#[verifier::rlimit(50)]
fn x_num_6() -> (r: Fp)
    ensures
        r.canon(),
        r.val() == 0x0d6ed6553fe44d296a3726c38ae652bfb11586264f0f8ce19008e218f9c86b2a8da25128c1052ecaddd7f225a139ed84int,
{
    let f = fe48(&[0x0d, 0x6e, 0xd6, 0x55, 0x3f, 0xe4, 0x4d, 0x29, 0x6a, 0x37, 0x26, 0xc3, 0x8a, 0xe6, 0x52, 0xbf, 0xb1, 0x15, 0x86, 0x26, 0x4f, 0x0f, 0x8c, 0xe1, 0x90, 0x08, 0xe2, 0x18, 0xf9, 0xc8, 0x6b, 0x2a, 0x8d, 0xa2, 0x51, 0x28, 0xc1, 0x05, 0x2e, 0xca, 0xdd, 0xd7, 0xf2, 0x25, 0xa1, 0x39, 0xed, 0x84]);
    proof {
        reveal_with_fuel(be_val, 50);
    }
    f
}

#[verifier::rlimit(50)]
fn x_num_7() -> (r: Fp)
    ensures
        r.canon(),
        r.val() == 0x17b81e7701abdbe2e8743884d1117e53356de5ab275b4db1a682c62ef0f2753339b7c8f8c8f475af9ccb5618e3f0c88eint,
{
    let f = fe48(&[0x17, 0xb8, 0x1e, 0x77, 0x01, 0xab, 0xdb, 0xe2, 0xe8, 0x74, 0x38, 0x84, 0xd1, 0x11, 0x7e, 0x53, 0x35, 0x6d, 0xe5, 0xab, 0x27, 0x5b, 0x4d, 0xb1, 0xa6, 0x82, 0xc6, 0x2e, 0xf0, 0xf2, 0x75, 0x33, 0x39, 0xb7, 0xc8, 0xf8, 0xc8, 0xf4, 0x75, 0xaf, 0x9c, 0xcb, 0x56, 0x18, 0xe3, 0xf0, 0xc8, 0x8e]);
    proof {
        reveal_with_fuel(be_val, 50);
    }
    f
}

#[verifier::rlimit(50)]
fn x_num_8() -> (r: Fp)
    ensures
        r.canon(),
        r.val() == 0x080d3cf1f9a78fc47b90b33563be990dc43b756ce79f5574a2c596c928c5d1de4fa295f296b74e956d71986a8497e317int,
{
    let f = fe48(&[0x08, 0x0d, 0x3c, 0xf1, 0xf9, 0xa7, 0x8f, 0xc4, 0x7b, 0x90, 0xb3, 0x35, 0x63, 0xbe, 0x99, 0x0d, 0xc4, 0x3b, 0x75, 0x6c, 0xe7, 0x9f, 0x55, 0x74, 0xa2, 0xc5, 0x96, 0xc9, 0x28, 0xc5, 0xd1, 0xde, 0x4f, 0xa2, 0x95, 0xf2, 0x96, 0xb7, 0x4e, 0x95, 0x6d, 0x71, 0x98, 0x6a, 0x84, 0x97, 0xe3, 0x17]);
    proof {
        reveal_with_fuel(be_val, 50);
    }
    f
}

#[verifier::rlimit(50)]
fn x_num_9() -> (r: Fp)
    ensures
        r.canon(),
        r.val() == 0x169b1f8e1bcfa7c42e0c37515d138f22dd2ecb803a0c5c99676314baf4bb1b7fa3190b2edc0327797f241067be390c9eint,
{
    let f = fe48(&[0x16, 0x9b, 0x1f, 0x8e, 0x1b, 0xcf, 0xa7, 0xc4, 0x2e, 0x0c, 0x37, 0x51, 0x5d, 0x13, 0x8f, 0x22, 0xdd, 0x2e, 0xcb, 0x80, 0x3a, 0x0c, 0x5c, 0x99, 0x67, 0x63, 0x14, 0xba, 0xf4, 0xbb, 0x1b, 0x7f, 0xa3, 0x19, 0x0b, 0x2e, 0xdc, 0x03, 0x27, 0x79, 0x7f, 0x24, 0x10, 0x67, 0xbe, 0x39, 0x0c, 0x9e]);
    proof {
        reveal_with_fuel(be_val, 50);
    }
    f
}

#[verifier::rlimit(50)]
fn x_num_10() -> (r: Fp)
    ensures
        r.canon(),
        r.val() == 0x10321da079ce07e272d8ec09d2565b0dfa7dccdde6787f96d50af36003b14866f69b771f8c285decca67df3f1605fb7bint,
{
    let f = fe48(&[0x10, 0x32, 0x1d, 0xa0, 0x79, 0xce, 0x07, 0xe2, 0x72, 0xd8, 0xec, 0x09, 0xd2, 0x56, 0x5b, 0x0d, 0xfa, 0x7d, 0xcc, 0xdd, 0xe6, 0x78, 0x7f, 0x96, 0xd5, 0x0a, 0xf3, 0x60, 0x03, 0xb1, 0x48, 0x66, 0xf6, 0x9b, 0x77, 0x1f, 0x8c, 0x28, 0x5d, 0xec, 0xca, 0x67, 0xdf, 0x3f, 0x16, 0x05, 0xfb, 0x7b]);
    proof {
        reveal_with_fuel(be_val, 50);
    }
    f
}

#[verifier::rlimit(50)]
fn x_num_11() -> (r: Fp)
    ensures
        r.canon(),
        r.val() == 0x06e08c248e260e70bd1e962381edee3d31d79d7e22c837bc23c0bf1bc24c6b68c24b1b80b64d391fa9c8ba2e8ba2d229int,
{
    let f = fe48(&[0x06, 0xe0, 0x8c, 0x24, 0x8e, 0x26, 0x0e, 0x70, 0xbd, 0x1e, 0x96, 0x23, 0x81, 0xed, 0xee, 0x3d, 0x31, 0xd7, 0x9d, 0x7e, 0x22, 0xc8, 0x37, 0xbc, 0x23, 0xc0, 0xbf, 0x1b, 0xc2, 0x4c, 0x6b, 0x68, 0xc2, 0x4b, 0x1b, 0x80, 0xb6, 0x4d, 0x39, 0x1f, 0xa9, 0xc8, 0xba, 0x2e, 0x8b, 0xa2, 0xd2, 0x29]);
    proof {
        reveal_with_fuel(be_val, 50);
    }
    f
}

pub(crate) fn x_num() -> (r: Vec<Fp>)
    ensures
        r@.len() == 12,
        forall|i: int|
            0 <= i < 12 ==> (#[trigger] r@[i]).canon() && r@[i].val() == x_num_vals()[i],
{
    let mut v: Vec<Fp> = Vec::new();
    v.push(x_num_0());
    v.push(x_num_1());
    v.push(x_num_2());
    v.push(x_num_3());
    v.push(x_num_4());
    v.push(x_num_5());
    v.push(x_num_6());
    v.push(x_num_7());
    v.push(x_num_8());
    v.push(x_num_9());
    v.push(x_num_10());
    v.push(x_num_11());
    v
}

/// Coefficients, by ascending power, of the denominator of the isogeny's x map (monic: the last entry is 1).
pub open spec fn x_den_vals() -> Seq<int> {
    seq![
        0x08ca8d548cff19ae18b2e62f4bd3fa6f01d5ef4ba35b48ba9c9588617fc8ac62b558d681be343df8993cf9fa40d21b1cint,
        0x12561a5deb559c4348b4711298e536367041e8ca0cf0800c0126c2588c48bf5713daa8846cb026e9e5c8276ec82b3bffint,
        0x0b2962fe57a3225e8137e629bff2991f6f89416f5a718cd1fca64e00b11aceacd6a3d0967c94fedcfcc239ba5cb83e19int,
        0x03425581a58ae2fec83aafef7c40eb545b08243f16b1655154cca8abc28d6fd04976d5243eecf5c4130de8938dc62cd8int,
        0x13a8e162022914a80a6f1d5f43e7a07dffdfc759a12062bb8d6b44e833b306da9bd29ba81f35781d539d395b3532a21eint,
        0x0e7355f8e4e667b955390f7f0506c6e9395735e9ce9cad4d0a43bcef24b8982f7400d24bc4228f11c02df9a29f6304a5int,
        0x0772caacf16936190f3e0c63e0596721570f5799af53a1894e2e073062aede9cea73b3538f0de06cec2574496ee84a3aint,
        0x14a7ac2a9d64a8b230b3f5b074cf01996e7f63c21bca68a81996e1cdf9822c580fa5b9489d11e2d311f7d99bbdcc5a5eint,
        0x0a10ecf6ada54f825e920b3dafc7a3cce07f8d1d7161366b74100da67f39883503826692abba43704776ec3a79a1d641int,
        0x095fc13ab9e92ad4476d6e3eb3a56680f682b4ee96f7d03776df533978f31c1593174e4b4b7865002d6384d168ecdd0aint,
        0x000000000000000000000000000000000000000000000000000000000000000000000000000000000000000000000001int,
    ]
}

#[verifier::rlimit(50)]
fn x_den_0() -> (r: Fp)
    ensures
        r.canon(),
        r.val() == 0x08ca8d548cff19ae18b2e62f4bd3fa6f01d5ef4ba35b48ba9c9588617fc8ac62b558d681be343df8993cf9fa40d21b1cint,
{
    let f = fe48(&[0x08, 0xca, 0x8d, 0x54, 0x8c, 0xff, 0x19, 0xae, 0x18, 0xb2, 0xe6, 0x2f, 0x4b, 0xd3, 0xfa, 0x6f, 0x01, 0xd5, 0xef, 0x4b, 0xa3, 0x5b, 0x48, 0xba, 0x9c, 0x95, 0x88, 0x61, 0x7f, 0xc8, 0xac, 0x62, 0xb5, 0x58, 0xd6, 0x81, 0xbe, 0x34, 0x3d, 0xf8, 0x99, 0x3c, 0xf9, 0xfa, 0x40, 0xd2, 0x1b, 0x1c]);
    proof {
        reveal_with_fuel(be_val, 50);
    }
    f
}

#[verifier::rlimit(50)]
fn x_den_1() -> (r: Fp)
    ensures
        r.canon(),
        r.val() == 0x12561a5deb559c4348b4711298e536367041e8ca0cf0800c0126c2588c48bf5713daa8846cb026e9e5c8276ec82b3bffint,
{
    let f = fe48(&[0x12, 0x56, 0x1a, 0x5d, 0xeb, 0x55, 0x9c, 0x43, 0x48, 0xb4, 0x71, 0x12, 0x98, 0xe5, 0x36, 0x36, 0x70, 0x41, 0xe8, 0xca, 0x0c, 0xf0, 0x80, 0x0c, 0x01, 0x26, 0xc2, 0x58, 0x8c, 0x48, 0xbf, 0x57, 0x13, 0xda, 0xa8, 0x84, 0x6c, 0xb0, 0x26, 0xe9, 0xe5, 0xc8, 0x27, 0x6e, 0xc8, 0x2b, 0x3b, 0xff]);
    proof {
        reveal_with_fuel(be_val, 50);
    }
    f
}

#[verifier::rlimit(50)]
fn x_den_2() -> (r: Fp)
    ensures
        r.canon(),
        r.val() == 0x0b2962fe57a3225e8137e629bff2991f6f89416f5a718cd1fca64e00b11aceacd6a3d0967c94fedcfcc239ba5cb83e19int,
{
    let f = fe48(&[0x0b, 0x29, 0x62, 0xfe, 0x57, 0xa3, 0x22, 0x5e, 0x81, 0x37, 0xe6, 0x29, 0xbf, 0xf2, 0x99, 0x1f, 0x6f, 0x89, 0x41, 0x6f, 0x5a, 0x71, 0x8c, 0xd1, 0xfc, 0xa6, 0x4e, 0x00, 0xb1, 0x1a, 0xce, 0xac, 0xd6, 0xa3, 0xd0, 0x96, 0x7c, 0x94, 0xfe, 0xdc, 0xfc, 0xc2, 0x39, 0xba, 0x5c, 0xb8, 0x3e, 0x19]);
    proof {
        reveal_with_fuel(be_val, 50);
    }
    f
}

#[verifier::rlimit(50)]
fn x_den_3() -> (r: Fp)
    ensures
        r.canon(),
        r.val() == 0x03425581a58ae2fec83aafef7c40eb545b08243f16b1655154cca8abc28d6fd04976d5243eecf5c4130de8938dc62cd8int,
{
    let f = fe48(&[0x03, 0x42, 0x55, 0x81, 0xa5, 0x8a, 0xe2, 0xfe, 0xc8, 0x3a, 0xaf, 0xef, 0x7c, 0x40, 0xeb, 0x54, 0x5b, 0x08, 0x24, 0x3f, 0x16, 0xb1, 0x65, 0x51, 0x54, 0xcc, 0xa8, 0xab, 0xc2, 0x8d, 0x6f, 0xd0, 0x49, 0x76, 0xd5, 0x24, 0x3e, 0xec, 0xf5, 0xc4, 0x13, 0x0d, 0xe8, 0x93, 0x8d, 0xc6, 0x2c, 0xd8]);
    proof {
        reveal_with_fuel(be_val, 50);
    }
    f
}

#[verifier::rlimit(50)]
fn x_den_4() -> (r: Fp)
    ensures
        r.canon(),
        r.val() == 0x13a8e162022914a80a6f1d5f43e7a07dffdfc759a12062bb8d6b44e833b306da9bd29ba81f35781d539d395b3532a21eint,
{
    let f = fe48(&[0x13, 0xa8, 0xe1, 0x62, 0x02, 0x29, 0x14, 0xa8, 0x0a, 0x6f, 0x1d, 0x5f, 0x43, 0xe7, 0xa0, 0x7d, 0xff, 0xdf, 0xc7, 0x59, 0xa1, 0x20, 0x62, 0xbb, 0x8d, 0x6b, 0x44, 0xe8, 0x33, 0xb3, 0x06, 0xda, 0x9b, 0xd2, 0x9b, 0xa8, 0x1f, 0x35, 0x78, 0x1d, 0x53, 0x9d, 0x39, 0x5b, 0x35, 0x32, 0xa2, 0x1e]);
    proof {
        reveal_with_fuel(be_val, 50);
    }
    f
}

#[verifier::rlimit(50)]
fn x_den_5() -> (r: Fp)
    ensures
        r.canon(),
        r.val() == 0x0e7355f8e4e667b955390f7f0506c6e9395735e9ce9cad4d0a43bcef24b8982f7400d24bc4228f11c02df9a29f6304a5int,
{
    let f = fe48(&[0x0e, 0x73, 0x55, 0xf8, 0xe4, 0xe6, 0x67, 0xb9, 0x55, 0x39, 0x0f, 0x7f, 0x05, 0x06, 0xc6, 0xe9, 0x39, 0x57, 0x35, 0xe9, 0xce, 0x9c, 0xad, 0x4d, 0x0a, 0x43, 0xbc, 0xef, 0x24, 0xb8, 0x98, 0x2f, 0x74, 0x00, 0xd2, 0x4b, 0xc4, 0x22, 0x8f, 0x11, 0xc0, 0x2d, 0xf9, 0xa2, 0x9f, 0x63, 0x04, 0xa5]);
    proof {
        reveal_with_fuel(be_val, 50);
    }
    f
}

#[verifier::rlimit(50)]
fn x_den_6() -> (r: Fp)
    ensures
        r.canon(),
        r.val() == 0x0772caacf16936190f3e0c63e0596721570f5799af53a1894e2e073062aede9cea73b3538f0de06cec2574496ee84a3aint,
{
    let f = fe48(&[0x07, 0x72, 0xca, 0xac, 0xf1, 0x69, 0x36, 0x19, 0x0f, 0x3e, 0x0c, 0x63, 0xe0, 0x59, 0x67, 0x21, 0x57, 0x0f, 0x57, 0x99, 0xaf, 0x53, 0xa1, 0x89, 0x4e, 0x2e, 0x07, 0x30, 0x62, 0xae, 0xde, 0x9c, 0xea, 0x73, 0xb3, 0x53, 0x8f, 0x0d, 0xe0, 0x6c, 0xec, 0x25, 0x74, 0x49, 0x6e, 0xe8, 0x4a, 0x3a]);
    proof {
        reveal_with_fuel(be_val, 50);
    }
    f
}

#[verifier::rlimit(50)]
fn x_den_7() -> (r: Fp)
    ensures
        r.canon(),
        r.val() == 0x14a7ac2a9d64a8b230b3f5b074cf01996e7f63c21bca68a81996e1cdf9822c580fa5b9489d11e2d311f7d99bbdcc5a5eint,
{
    let f = fe48(&[0x14, 0xa7, 0xac, 0x2a, 0x9d, 0x64, 0xa8, 0xb2, 0x30, 0xb3, 0xf5, 0xb0, 0x74, 0xcf, 0x01, 0x99, 0x6e, 0x7f, 0x63, 0xc2, 0x1b, 0xca, 0x68, 0xa8, 0x19, 0x96, 0xe1, 0xcd, 0xf9, 0x82, 0x2c, 0x58, 0x0f, 0xa5, 0xb9, 0x48, 0x9d, 0x11, 0xe2, 0xd3, 0x11, 0xf7, 0xd9, 0x9b, 0xbd, 0xcc, 0x5a, 0x5e]);
    proof {
        reveal_with_fuel(be_val, 50);
    }
    f
}

#[verifier::rlimit(50)]
fn x_den_8() -> (r: Fp)
    ensures
        r.canon(),
        r.val() == 0x0a10ecf6ada54f825e920b3dafc7a3cce07f8d1d7161366b74100da67f39883503826692abba43704776ec3a79a1d641int,
{
    let f = fe48(&[0x0a, 0x10, 0xec, 0xf6, 0xad, 0xa5, 0x4f, 0x82, 0x5e, 0x92, 0x0b, 0x3d, 0xaf, 0xc7, 0xa3, 0xcc, 0xe0, 0x7f, 0x8d, 0x1d, 0x71, 0x61, 0x36, 0x6b, 0x74, 0x10, 0x0d, 0xa6, 0x7f, 0x39, 0x88, 0x35, 0x03, 0x82, 0x66, 0x92, 0xab, 0xba, 0x43, 0x70, 0x47, 0x76, 0xec, 0x3a, 0x79, 0xa1, 0xd6, 0x41]);
    proof {
        reveal_with_fuel(be_val, 50);
    }
    f
}

#[verifier::rlimit(50)]
fn x_den_9() -> (r: Fp)
    ensures
        r.canon(),
        r.val() == 0x095fc13ab9e92ad4476d6e3eb3a56680f682b4ee96f7d03776df533978f31c1593174e4b4b7865002d6384d168ecdd0aint,
{
    let f = fe48(&[0x09, 0x5f, 0xc1, 0x3a, 0xb9, 0xe9, 0x2a, 0xd4, 0x47, 0x6d, 0x6e, 0x3e, 0xb3, 0xa5, 0x66, 0x80, 0xf6, 0x82, 0xb4, 0xee, 0x96, 0xf7, 0xd0, 0x37, 0x76, 0xdf, 0x53, 0x39, 0x78, 0xf3, 0x1c, 0x15, 0x93, 0x17, 0x4e, 0x4b, 0x4b, 0x78, 0x65, 0x00, 0x2d, 0x63, 0x84, 0xd1, 0x68, 0xec, 0xdd, 0x0a]);
    proof {
        reveal_with_fuel(be_val, 50);
    }
    f
}

#[verifier::rlimit(50)]
fn x_den_10() -> (r: Fp)
    ensures
        r.canon(),
        r.val() == 0x000000000000000000000000000000000000000000000000000000000000000000000000000000000000000000000001int,
{
    let f = fe48(&[0x00, 0x00, 0x00, 0x00, 0x00, 0x00, 0x00, 0x00, 0x00, 0x00, 0x00, 0x00, 0x00, 0x00, 0x00, 0x00, 0x00, 0x00, 0x00, 0x00, 0x00, 0x00, 0x00, 0x00, 0x00, 0x00, 0x00, 0x00, 0x00, 0x00, 0x00, 0x00, 0x00, 0x00, 0x00, 0x00, 0x00, 0x00, 0x00, 0x00, 0x00, 0x00, 0x00, 0x00, 0x00, 0x00, 0x00, 0x01]);
    proof {
        reveal_with_fuel(be_val, 50);
    }
    f
}

pub(crate) fn x_den() -> (r: Vec<Fp>)
    ensures
        r@.len() == 11,
        forall|i: int|
            0 <= i < 11 ==> (#[trigger] r@[i]).canon() && r@[i].val() == x_den_vals()[i],
{
    let mut v: Vec<Fp> = Vec::new();
    v.push(x_den_0());
    v.push(x_den_1());
    v.push(x_den_2());
    v.push(x_den_3());
    v.push(x_den_4());
    v.push(x_den_5());
    v.push(x_den_6());
    v.push(x_den_7());
    v.push(x_den_8());
    v.push(x_den_9());
    v.push(x_den_10());
    v
}

/// Coefficients, by ascending power, of the numerator of the isogeny's y map.
pub open spec fn y_num_vals() -> Seq<int> {
    seq![
        0x090d97c81ba24ee0259d1f094980dcfa11ad138e48a869522b52af6c956543d3cd0c7aee9b3ba3c2be9845719707bb33int,
        0x134996a104ee5811d51036d776fb46831223e96c254f383d0f906343eb67ad34d6c56711962fa8bfe097e75a2e41c696int,
        0x00cc786baa966e66f4a384c86a3b49942552e2d658a31ce2c344be4b91400da7d26d521628b00523b8dfe240c72de1f6int,
        0x01f86376e8981c217898751ad8746757d42aa7b90eeb791c09e4a3ec03251cf9de405aba9ec61deca6355c77b0e5f4cbint,
        0x08cc03fdefe0ff135caf4fe2a21529c4195536fbe3ce50b879833fd221351adc2ee7f8dc099040a841b6daecf2e8fedbint,
        0x16603fca40634b6a2211e11db8f0a6a074a7d0d4afadb7bd76505c3d3ad5544e203f6326c95a807299b23ab13633a5f0int,
        0x04ab0b9bcfac1bbcb2c977d027796b3ce75bb8ca2be184cb5231413c4d634f3747a87ac2460f415ec961f8855fe9d6f2int,
        0x0987c8d5333ab86fde9926bd2ca6c674170a05bfe3bdd81ffd038da6c26c842642f64550fedfe935a15e4ca31870fb29int,
        0x09fc4018bd96684be88c9e221e4da1bb8f3abd16679dc26c1e8b6e6a1f20cabe69d65201c78607a360370e577bdba587int,
        0x0e1bba7a1186bdb5223abde7ada14a23c42a0ca7915af6fe06985e7ed1e4d43b9b3f7055dd4eba6f2bafaaebca731c30int,
        0x19713e47937cd1be0dfd0b8f1d43fb93cd2fcbcb6caf493fd1183e416389e61031bf3a5cce3fbafce813711ad011c132int,
        0x18b46a908f36f6deb918c143fed2edcc523559b8aaf0c2462e6bfe7f911f643249d9cdf41b44d606ce07c8a4d0074d8eint,
        0x0b182cac101b9399d155096004f53f447aa7b12a3426b08ec02710e807b4633f06c851c1919211f20d4c04f00b971ef8int,
        0x0245a394ad1eca9b72fc00ae7be315dc757b3b080d4c158013e6632d3c40659cc6cf90ad1c232a6442d9d3f5db980133int,
        0x05c129645e44cf1102a159f748c4a3fc5e673d81d7e86568d9ab0f5d396a7ce46ba1049b6579afb7866b1e715475224bint,
        0x15e6be4e990f03ce4ea50b3b42df2eb5cb181d8f84965a3957add4fa95af01b2b665027efec01c7704b456be69c8b604int,
    ]
}

#[verifier::rlimit(50)]
fn y_num_0() -> (r: Fp)
    ensures
        r.canon(),
        r.val() == 0x090d97c81ba24ee0259d1f094980dcfa11ad138e48a869522b52af6c956543d3cd0c7aee9b3ba3c2be9845719707bb33int,
{
    let f = fe48(&[0x09, 0x0d, 0x97, 0xc8, 0x1b, 0xa2, 0x4e, 0xe0, 0x25, 0x9d, 0x1f, 0x09, 0x49, 0x80, 0xdc, 0xfa, 0x11, 0xad, 0x13, 0x8e, 0x48, 0xa8, 0x69, 0x52, 0x2b, 0x52, 0xaf, 0x6c, 0x95, 0x65, 0x43, 0xd3, 0xcd, 0x0c, 0x7a, 0xee, 0x9b, 0x3b, 0xa3, 0xc2, 0xbe, 0x98, 0x45, 0x71, 0x97, 0x07, 0xbb, 0x33]);
    proof {
        reveal_with_fuel(be_val, 50);
    }
    f
}

#[verifier::rlimit(50)]
fn y_num_1() -> (r: Fp)
    ensures
        r.canon(),
        r.val() == 0x134996a104ee5811d51036d776fb46831223e96c254f383d0f906343eb67ad34d6c56711962fa8bfe097e75a2e41c696int,
{
    let f = fe48(&[0x13, 0x49, 0x96, 0xa1, 0x04, 0xee, 0x58, 0x11, 0xd5, 0x10, 0x36, 0xd7, 0x76, 0xfb, 0x46, 0x83, 0x12, 0x23, 0xe9, 0x6c, 0x25, 0x4f, 0x38, 0x3d, 0x0f, 0x90, 0x63, 0x43, 0xeb, 0x67, 0xad, 0x34, 0xd6, 0xc5, 0x67, 0x11, 0x96, 0x2f, 0xa8, 0xbf, 0xe0, 0x97, 0xe7, 0x5a, 0x2e, 0x41, 0xc6, 0x96]);
    proof {
        reveal_with_fuel(be_val, 50);
    }
    f
}

#[verifier::rlimit(50)]
fn y_num_2() -> (r: Fp)
    ensures
        r.canon(),
        r.val() == 0x00cc786baa966e66f4a384c86a3b49942552e2d658a31ce2c344be4b91400da7d26d521628b00523b8dfe240c72de1f6int,
{
    let f = fe48(&[0x00, 0xcc, 0x78, 0x6b, 0xaa, 0x96, 0x6e, 0x66, 0xf4, 0xa3, 0x84, 0xc8, 0x6a, 0x3b, 0x49, 0x94, 0x25, 0x52, 0xe2, 0xd6, 0x58, 0xa3, 0x1c, 0xe2, 0xc3, 0x44, 0xbe, 0x4b, 0x91, 0x40, 0x0d, 0xa7, 0xd2, 0x6d, 0x52, 0x16, 0x28, 0xb0, 0x05, 0x23, 0xb8, 0xdf, 0xe2, 0x40, 0xc7, 0x2d, 0xe1, 0xf6]);
    proof {
        reveal_with_fuel(be_val, 50);
    }
    f
}

#[verifier::rlimit(50)]
fn y_num_3() -> (r: Fp)
    ensures
        r.canon(),
        r.val() == 0x01f86376e8981c217898751ad8746757d42aa7b90eeb791c09e4a3ec03251cf9de405aba9ec61deca6355c77b0e5f4cbint,
{
    let f = fe48(&[0x01, 0xf8, 0x63, 0x76, 0xe8, 0x98, 0x1c, 0x21, 0x78, 0x98, 0x75, 0x1a, 0xd8, 0x74, 0x67, 0x57, 0xd4, 0x2a, 0xa7, 0xb9, 0x0e, 0xeb, 0x79, 0x1c, 0x09, 0xe4, 0xa3, 0xec, 0x03, 0x25, 0x1c, 0xf9, 0xde, 0x40, 0x5a, 0xba, 0x9e, 0xc6, 0x1d, 0xec, 0xa6, 0x35, 0x5c, 0x77, 0xb0, 0xe5, 0xf4, 0xcb]);
    proof {
        reveal_with_fuel(be_val, 50);
    }
    f
}

#[verifier::rlimit(50)]
fn y_num_4() -> (r: Fp)
    ensures
        r.canon(),
        r.val() == 0x08cc03fdefe0ff135caf4fe2a21529c4195536fbe3ce50b879833fd221351adc2ee7f8dc099040a841b6daecf2e8fedbint,
{
    let f = fe48(&[0x08, 0xcc, 0x03, 0xfd, 0xef, 0xe0, 0xff, 0x13, 0x5c, 0xaf, 0x4f, 0xe2, 0xa2, 0x15, 0x29, 0xc4, 0x19, 0x55, 0x36, 0xfb, 0xe3, 0xce, 0x50, 0xb8, 0x79, 0x83, 0x3f, 0xd2, 0x21, 0x35, 0x1a, 0xdc, 0x2e, 0xe7, 0xf8, 0xdc, 0x09, 0x90, 0x40, 0xa8, 0x41, 0xb6, 0xda, 0xec, 0xf2, 0xe8, 0xfe, 0xdb]);
    proof {
        reveal_with_fuel(be_val, 50);
    }
    f
}

#[verifier::rlimit(50)]
fn y_num_5() -> (r: Fp)
    ensures
        r.canon(),
        r.val() == 0x16603fca40634b6a2211e11db8f0a6a074a7d0d4afadb7bd76505c3d3ad5544e203f6326c95a807299b23ab13633a5f0int,
{
    let f = fe48(&[0x16, 0x60, 0x3f, 0xca, 0x40, 0x63, 0x4b, 0x6a, 0x22, 0x11, 0xe1, 0x1d, 0xb8, 0xf0, 0xa6, 0xa0, 0x74, 0xa7, 0xd0, 0xd4, 0xaf, 0xad, 0xb7, 0xbd, 0x76, 0x50, 0x5c, 0x3d, 0x3a, 0xd5, 0x54, 0x4e, 0x20, 0x3f, 0x63, 0x26, 0xc9, 0x5a, 0x80, 0x72, 0x99, 0xb2, 0x3a, 0xb1, 0x36, 0x33, 0xa5, 0xf0]);
    proof {
        reveal_with_fuel(be_val, 50);
    }
    f
}

#[verifier::rlimit(50)]
fn y_num_6() -> (r: Fp)
    ensures
        r.canon(),
        r.val() == 0x04ab0b9bcfac1bbcb2c977d027796b3ce75bb8ca2be184cb5231413c4d634f3747a87ac2460f415ec961f8855fe9d6f2int,
{
    let f = fe48(&[0x04, 0xab, 0x0b, 0x9b, 0xcf, 0xac, 0x1b, 0xbc, 0xb2, 0xc9, 0x77, 0xd0, 0x27, 0x79, 0x6b, 0x3c, 0xe7, 0x5b, 0xb8, 0xca, 0x2b, 0xe1, 0x84, 0xcb, 0x52, 0x31, 0x41, 0x3c, 0x4d, 0x63, 0x4f, 0x37, 0x47, 0xa8, 0x7a, 0xc2, 0x46, 0x0f, 0x41, 0x5e, 0xc9, 0x61, 0xf8, 0x85, 0x5f, 0xe9, 0xd6, 0xf2]);
    proof {
        reveal_with_fuel(be_val, 50);
    }
    f
}

#[verifier::rlimit(50)]
fn y_num_7() -> (r: Fp)
    ensures
        r.canon(),
        r.val() == 0x0987c8d5333ab86fde9926bd2ca6c674170a05bfe3bdd81ffd038da6c26c842642f64550fedfe935a15e4ca31870fb29int,
{
    let f = fe48(&[0x09, 0x87, 0xc8, 0xd5, 0x33, 0x3a, 0xb8, 0x6f, 0xde, 0x99, 0x26, 0xbd, 0x2c, 0xa6, 0xc6, 0x74, 0x17, 0x0a, 0x05, 0xbf, 0xe3, 0xbd, 0xd8, 0x1f, 0xfd, 0x03, 0x8d, 0xa6, 0xc2, 0x6c, 0x84, 0x26, 0x42, 0xf6, 0x45, 0x50, 0xfe, 0xdf, 0xe9, 0x35, 0xa1, 0x5e, 0x4c, 0xa3, 0x18, 0x70, 0xfb, 0x29]);
    proof {
        reveal_with_fuel(be_val, 50);
    }
    f
}

#[verifier::rlimit(50)]
fn y_num_8() -> (r: Fp)
    ensures
        r.canon(),
        r.val() == 0x09fc4018bd96684be88c9e221e4da1bb8f3abd16679dc26c1e8b6e6a1f20cabe69d65201c78607a360370e577bdba587int,
{
    let f = fe48(&[0x09, 0xfc, 0x40, 0x18, 0xbd, 0x96, 0x68, 0x4b, 0xe8, 0x8c, 0x9e, 0x22, 0x1e, 0x4d, 0xa1, 0xbb, 0x8f, 0x3a, 0xbd, 0x16, 0x67, 0x9d, 0xc2, 0x6c, 0x1e, 0x8b, 0x6e, 0x6a, 0x1f, 0x20, 0xca, 0xbe, 0x69, 0xd6, 0x52, 0x01, 0xc7, 0x86, 0x07, 0xa3, 0x60, 0x37, 0x0e, 0x57, 0x7b, 0xdb, 0xa5, 0x87]);
    proof {
        reveal_with_fuel(be_val, 50);
    }
    f
}

#[verifier::rlimit(50)]
fn y_num_9() -> (r: Fp)
    ensures
        r.canon(),
        r.val() == 0x0e1bba7a1186bdb5223abde7ada14a23c42a0ca7915af6fe06985e7ed1e4d43b9b3f7055dd4eba6f2bafaaebca731c30int,
{
    let f = fe48(&[0x0e, 0x1b, 0xba, 0x7a, 0x11, 0x86, 0xbd, 0xb5, 0x22, 0x3a, 0xbd, 0xe7, 0xad, 0xa1, 0x4a, 0x23, 0xc4, 0x2a, 0x0c, 0xa7, 0x91, 0x5a, 0xf6, 0xfe, 0x06, 0x98, 0x5e, 0x7e, 0xd1, 0xe4, 0xd4, 0x3b, 0x9b, 0x3f, 0x70, 0x55, 0xdd, 0x4e, 0xba, 0x6f, 0x2b, 0xaf, 0xaa, 0xeb, 0xca, 0x73, 0x1c, 0x30]);
    proof {
        reveal_with_fuel(be_val, 50);
    }
    f
}

#[verifier::rlimit(50)]
fn y_num_10() -> (r: Fp)
    ensures
        r.canon(),
        r.val() == 0x19713e47937cd1be0dfd0b8f1d43fb93cd2fcbcb6caf493fd1183e416389e61031bf3a5cce3fbafce813711ad011c132int,
{
    let f = fe48(&[0x19, 0x71, 0x3e, 0x47, 0x93, 0x7c, 0xd1, 0xbe, 0x0d, 0xfd, 0x0b, 0x8f, 0x1d, 0x43, 0xfb, 0x93, 0xcd, 0x2f, 0xcb, 0xcb, 0x6c, 0xaf, 0x49, 0x3f, 0xd1, 0x18, 0x3e, 0x41, 0x63, 0x89, 0xe6, 0x10, 0x31, 0xbf, 0x3a, 0x5c, 0xce, 0x3f, 0xba, 0xfc, 0xe8, 0x13, 0x71, 0x1a, 0xd0, 0x11, 0xc1, 0x32]);
    proof {
        reveal_with_fuel(be_val, 50);
    }
    f
}

#[verifier::rlimit(100)]
#[verifier::spinoff_prover]
fn y_num_11() -> (r: Fp)
    ensures
        r.canon(),
        r.val() == 0x18b46a908f36f6deb918c143fed2edcc523559b8aaf0c2462e6bfe7f911f643249d9cdf41b44d606ce07c8a4d0074d8eint,
{
    let f = fe48(&[0x18, 0xb4, 0x6a, 0x90, 0x8f, 0x36, 0xf6, 0xde, 0xb9, 0x18, 0xc1, 0x43, 0xfe, 0xd2, 0xed, 0xcc, 0x52, 0x35, 0x59, 0xb8, 0xaa, 0xf0, 0xc2, 0x46, 0x2e, 0x6b, 0xfe, 0x7f, 0x91, 0x1f, 0x64, 0x32, 0x49, 0xd9, 0xcd, 0xf4, 0x1b, 0x44, 0xd6, 0x06, 0xce, 0x07, 0xc8, 0xa4, 0xd0, 0x07, 0x4d, 0x8e]);
    proof {
        reveal_with_fuel(be_val, 50);
    }
    f
}

#[verifier::rlimit(50)]
fn y_num_12() -> (r: Fp)
    ensures
        r.canon(),
        r.val() == 0x0b182cac101b9399d155096004f53f447aa7b12a3426b08ec02710e807b4633f06c851c1919211f20d4c04f00b971ef8int,
{
    let f = fe48(&[0x0b, 0x18, 0x2c, 0xac, 0x10, 0x1b, 0x93, 0x99, 0xd1, 0x55, 0x09, 0x60, 0x04, 0xf5, 0x3f, 0x44, 0x7a, 0xa7, 0xb1, 0x2a, 0x34, 0x26, 0xb0, 0x8e, 0xc0, 0x27, 0x10, 0xe8, 0x07, 0xb4, 0x63, 0x3f, 0x06, 0xc8, 0x51, 0xc1, 0x91, 0x92, 0x11, 0xf2, 0x0d, 0x4c, 0x04, 0xf0, 0x0b, 0x97, 0x1e, 0xf8]);
    proof {
        reveal_with_fuel(be_val, 50);
    }
    f
}

#[verifier::rlimit(50)]
fn y_num_13() -> (r: Fp)
    ensures
        r.canon(),
        r.val() == 0x0245a394ad1eca9b72fc00ae7be315dc757b3b080d4c158013e6632d3c40659cc6cf90ad1c232a6442d9d3f5db980133int,
{
    let f = fe48(&[0x02, 0x45, 0xa3, 0x94, 0xad, 0x1e, 0xca, 0x9b, 0x72, 0xfc, 0x00, 0xae, 0x7b, 0xe3, 0x15, 0xdc, 0x75, 0x7b, 0x3b, 0x08, 0x0d, 0x4c, 0x15, 0x80, 0x13, 0xe6, 0x63, 0x2d, 0x3c, 0x40, 0x65, 0x9c, 0xc6, 0xcf, 0x90, 0xad, 0x1c, 0x23, 0x2a, 0x64, 0x42, 0xd9, 0xd3, 0xf5, 0xdb, 0x98, 0x01, 0x33]);
    proof {
        reveal_with_fuel(be_val, 50);
    }
    f
}

#[verifier::rlimit(50)]
fn y_num_14() -> (r: Fp)
    ensures
        r.canon(),
        r.val() == 0x05c129645e44cf1102a159f748c4a3fc5e673d81d7e86568d9ab0f5d396a7ce46ba1049b6579afb7866b1e715475224bint,
{
    let f = fe48(&[0x05, 0xc1, 0x29, 0x64, 0x5e, 0x44, 0xcf, 0x11, 0x02, 0xa1, 0x59, 0xf7, 0x48, 0xc4, 0xa3, 0xfc, 0x5e, 0x67, 0x3d, 0x81, 0xd7, 0xe8, 0x65, 0x68, 0xd9, 0xab, 0x0f, 0x5d, 0x39, 0x6a, 0x7c, 0xe4, 0x6b, 0xa1, 0x04, 0x9b, 0x65, 0x79, 0xaf, 0xb7, 0x86, 0x6b, 0x1e, 0x71, 0x54, 0x75, 0x22, 0x4b]);
    proof {
        reveal_with_fuel(be_val, 50);
    }
    f
}

#[verifier::rlimit(100)]
fn y_num_15() -> (r: Fp)
    ensures
        r.canon(),
        r.val() == 0x15e6be4e990f03ce4ea50b3b42df2eb5cb181d8f84965a3957add4fa95af01b2b665027efec01c7704b456be69c8b604int,
{
    let f = fe48(&[0x15, 0xe6, 0xbe, 0x4e, 0x99, 0x0f, 0x03, 0xce, 0x4e, 0xa5, 0x0b, 0x3b, 0x42, 0xdf, 0x2e, 0xb5, 0xcb, 0x18, 0x1d, 0x8f, 0x84, 0x96, 0x5a, 0x39, 0x57, 0xad, 0xd4, 0xfa, 0x95, 0xaf, 0x01, 0xb2, 0xb6, 0x65, 0x02, 0x7e, 0xfe, 0xc0, 0x1c, 0x77, 0x04, 0xb4, 0x56, 0xbe, 0x69, 0xc8, 0xb6, 0x04]);
    proof {
        reveal_with_fuel(be_val, 50);
    }
    f
}

pub(crate) fn y_num() -> (r: Vec<Fp>)
    ensures
        r@.len() == 16,
        forall|i: int|
            0 <= i < 16 ==> (#[trigger] r@[i]).canon() && r@[i].val() == y_num_vals()[i],
{
    let mut v: Vec<Fp> = Vec::new();
    v.push(y_num_0());
    v.push(y_num_1());
    v.push(y_num_2());
    v.push(y_num_3());
    v.push(y_num_4());
    v.push(y_num_5());
    v.push(y_num_6());
    v.push(y_num_7());
    v.push(y_num_8());
    v.push(y_num_9());
    v.push(y_num_10());
    v.push(y_num_11());
    v.push(y_num_12());
    v.push(y_num_13());
    v.push(y_num_14());
    v.push(y_num_15());
    v
}

/// Coefficients, by ascending power, of the denominator of the isogeny's y map (monic: the last entry is 1).
pub open spec fn y_den_vals() -> Seq<int> {
    seq![
        0x16112c4c3a9c98b252181140fad0eae9601a6de578980be6eec3232b5be72e7a07f3688ef60c206d01479253b03663c1int,
        0x1962d75c2381201e1a0cbd6c43c348b885c84ff731c4d59ca4a10356f453e01f78a4260763529e3532f6102c2e49a03dint,
        0x058df3306640da276faaae7d6e8eb15778c4855551ae7f310c35a5dd279cd2eca6757cd636f96f891e2538b53dbf67f2int,
        0x16b7d288798e5395f20d23bf89edb4d1d115c5dbddbcd30e123da489e726af41727364f2c28297ada8d26d98445f5416int,
        0x0be0e079545f43e4b00cc912f8228ddcc6d19c9f0f69bbb0542eda0fc9dec916a20b15dc0fd2ededda39142311a5001dint,
        0x08d9e5297186db2d9fb266eaac783182b70152c65550d881c5ecd87b6f0f5a6449f38db9dfa9cce202c6477faaf9b7acint,
        0x166007c08a99db2fc3ba8734ace9824b5eecfdfa8d0cf8ef5dd365bc400a0051d5fa9c01a58b1fb93d1a1399126a775cint,
        0x16a3ef08be3ea7ea03bcddfabba6ff6ee5a4375efa1f4fd7feb34fd206357132b920f5b00801dee460ee415a15812ed9int,
        0x1866c8ed336c61231a1be54fd1d74cc4f9fb0ce4c6af5920abc5750c4bf39b4852cfe2f7bb9248836b233d9d55535d4aint,
        0x167a55cda70a6e1cea820597d94a84903216f763e13d87bb5308592e7ea7d4fbc7385ea3d529b35e346ef48bb8913f55int,
        0x04d2f259eea405bd48f010a01ad2911d9c6dd039bb61a6290e591b36e636a5c871a5c29f4f83060400f8b49cba8f6aa8int,
        0x0accbb67481d033ff5852c1e48c50c477f94ff8aefce42d28c0f9a88cea7913516f968986f7ebbea9684b529e2561092int,
        0x0ad6b9514c767fe3c3613144b45f1496543346d98adf02267d5ceef9a00d9b8693000763e3b90ac11e99b138573345ccint,
        0x02660400eb2e4f3b628bdd0d53cd76f2bf565b94e72927c1cb748df27942480e420517bd8714cc80d1fadc1326ed06f7int,
        0x0e0fa1d816ddc03e6b24255e0d7819c171c40f65e273b853324efcd6356caa205ca2f570f13497804415473a1d634b8fint,
        0x000000000000000000000000000000000000000000000000000000000000000000000000000000000000000000000001int,
    ]
}

#[verifier::rlimit(50)]
fn y_den_0() -> (r: Fp)
    ensures
        r.canon(),
        r.val() == 0x16112c4c3a9c98b252181140fad0eae9601a6de578980be6eec3232b5be72e7a07f3688ef60c206d01479253b03663c1int,
{
    let f = fe48(&[0x16, 0x11, 0x2c, 0x4c, 0x3a, 0x9c, 0x98, 0xb2, 0x52, 0x18, 0x11, 0x40, 0xfa, 0xd0, 0xea, 0xe9, 0x60, 0x1a, 0x6d, 0xe5, 0x78, 0x98, 0x0b, 0xe6, 0xee, 0xc3, 0x23, 0x2b, 0x5b, 0xe7, 0x2e, 0x7a, 0x07, 0xf3, 0x68, 0x8e, 0xf6, 0x0c, 0x20, 0x6d, 0x01, 0x47, 0x92, 0x53, 0xb0, 0x36, 0x63, 0xc1]);
    proof {
        reveal_with_fuel(be_val, 50);
    }
    f
}

#[verifier::rlimit(50)]
fn y_den_1() -> (r: Fp)
    ensures
        r.canon(),
        r.val() == 0x1962d75c2381201e1a0cbd6c43c348b885c84ff731c4d59ca4a10356f453e01f78a4260763529e3532f6102c2e49a03dint,
{
    let f = fe48(&[0x19, 0x62, 0xd7, 0x5c, 0x23, 0x81, 0x20, 0x1e, 0x1a, 0x0c, 0xbd, 0x6c, 0x43, 0xc3, 0x48, 0xb8, 0x85, 0xc8, 0x4f, 0xf7, 0x31, 0xc4, 0xd5, 0x9c, 0xa4, 0xa1, 0x03, 0x56, 0xf4, 0x53, 0xe0, 0x1f, 0x78, 0xa4, 0x26, 0x07, 0x63, 0x52, 0x9e, 0x35, 0x32, 0xf6, 0x10, 0x2c, 0x2e, 0x49, 0xa0, 0x3d]);
    proof {
        reveal_with_fuel(be_val, 50);
    }
    f
}

#[verifier::rlimit(50)]
fn y_den_2() -> (r: Fp)
    ensures
        r.canon(),
        r.val() == 0x058df3306640da276faaae7d6e8eb15778c4855551ae7f310c35a5dd279cd2eca6757cd636f96f891e2538b53dbf67f2int,
{
    let f = fe48(&[0x05, 0x8d, 0xf3, 0x30, 0x66, 0x40, 0xda, 0x27, 0x6f, 0xaa, 0xae, 0x7d, 0x6e, 0x8e, 0xb1, 0x57, 0x78, 0xc4, 0x85, 0x55, 0x51, 0xae, 0x7f, 0x31, 0x0c, 0x35, 0xa5, 0xdd, 0x27, 0x9c, 0xd2, 0xec, 0xa6, 0x75, 0x7c, 0xd6, 0x36, 0xf9, 0x6f, 0x89, 0x1e, 0x25, 0x38, 0xb5, 0x3d, 0xbf, 0x67, 0xf2]);
    proof {
        reveal_with_fuel(be_val, 50);
    }
    f
}

#[verifier::rlimit(50)]
fn y_den_3() -> (r: Fp)
    ensures
        r.canon(),
        r.val() == 0x16b7d288798e5395f20d23bf89edb4d1d115c5dbddbcd30e123da489e726af41727364f2c28297ada8d26d98445f5416int,
{
    let f = fe48(&[0x16, 0xb7, 0xd2, 0x88, 0x79, 0x8e, 0x53, 0x95, 0xf2, 0x0d, 0x23, 0xbf, 0x89, 0xed, 0xb4, 0xd1, 0xd1, 0x15, 0xc5, 0xdb, 0xdd, 0xbc, 0xd3, 0x0e, 0x12, 0x3d, 0xa4, 0x89, 0xe7, 0x26, 0xaf, 0x41, 0x72, 0x73, 0x64, 0xf2, 0xc2, 0x82, 0x97, 0xad, 0xa8, 0xd2, 0x6d, 0x98, 0x44, 0x5f, 0x54, 0x16]);
    proof {
        reveal_with_fuel(be_val, 50);
    }
    f
}

#[verifier::rlimit(50)]
fn y_den_4() -> (r: Fp)
    ensures
        r.canon(),
        r.val() == 0x0be0e079545f43e4b00cc912f8228ddcc6d19c9f0f69bbb0542eda0fc9dec916a20b15dc0fd2ededda39142311a5001dint,
{
    let f = fe48(&[0x0b, 0xe0, 0xe0, 0x79, 0x54, 0x5f, 0x43, 0xe4, 0xb0, 0x0c, 0xc9, 0x12, 0xf8, 0x22, 0x8d, 0xdc, 0xc6, 0xd1, 0x9c, 0x9f, 0x0f, 0x69, 0xbb, 0xb0, 0x54, 0x2e, 0xda, 0x0f, 0xc9, 0xde, 0xc9, 0x16, 0xa2, 0x0b, 0x15, 0xdc, 0x0f, 0xd2, 0xed, 0xed, 0xda, 0x39, 0x14, 0x23, 0x11, 0xa5, 0x00, 0x1d]);
    proof {
        reveal_with_fuel(be_val, 50);
    }
    f
}

#[verifier::rlimit(50)]
fn y_den_5() -> (r: Fp)
    ensures
        r.canon(),
        r.val() == 0x08d9e5297186db2d9fb266eaac783182b70152c65550d881c5ecd87b6f0f5a6449f38db9dfa9cce202c6477faaf9b7acint,
{
    let f = fe48(&[0x08, 0xd9, 0xe5, 0x29, 0x71, 0x86, 0xdb, 0x2d, 0x9f, 0xb2, 0x66, 0xea, 0xac, 0x78, 0x31, 0x82, 0xb7, 0x01, 0x52, 0xc6, 0x55, 0x50, 0xd8, 0x81, 0xc5, 0xec, 0xd8, 0x7b, 0x6f, 0x0f, 0x5a, 0x64, 0x49, 0xf3, 0x8d, 0xb9, 0xdf, 0xa9, 0xcc, 0xe2, 0x02, 0xc6, 0x47, 0x7f, 0xaa, 0xf9, 0xb7, 0xac]);
    proof {
        reveal_with_fuel(be_val, 50);
    }
    f
}

#[verifier::rlimit(50)]
fn y_den_6() -> (r: Fp)
    ensures
        r.canon(),
        r.val() == 0x166007c08a99db2fc3ba8734ace9824b5eecfdfa8d0cf8ef5dd365bc400a0051d5fa9c01a58b1fb93d1a1399126a775cint,
{
    let f = fe48(&[0x16, 0x60, 0x07, 0xc0, 0x8a, 0x99, 0xdb, 0x2f, 0xc3, 0xba, 0x87, 0x34, 0xac, 0xe9, 0x82, 0x4b, 0x5e, 0xec, 0xfd, 0xfa, 0x8d, 0x0c, 0xf8, 0xef, 0x5d, 0xd3, 0x65, 0xbc, 0x40, 0x0a, 0x00, 0x51, 0xd5, 0xfa, 0x9c, 0x01, 0xa5, 0x8b, 0x1f, 0xb9, 0x3d, 0x1a, 0x13, 0x99, 0x12, 0x6a, 0x77, 0x5c]);
    proof {
        reveal_with_fuel(be_val, 50);
    }
    f
}

#[verifier::rlimit(50)]
fn y_den_7() -> (r: Fp)
    ensures
        r.canon(),
        r.val() == 0x16a3ef08be3ea7ea03bcddfabba6ff6ee5a4375efa1f4fd7feb34fd206357132b920f5b00801dee460ee415a15812ed9int,
{
    let f = fe48(&[0x16, 0xa3, 0xef, 0x08, 0xbe, 0x3e, 0xa7, 0xea, 0x03, 0xbc, 0xdd, 0xfa, 0xbb, 0xa6, 0xff, 0x6e, 0xe5, 0xa4, 0x37, 0x5e, 0xfa, 0x1f, 0x4f, 0xd7, 0xfe, 0xb3, 0x4f, 0xd2, 0x06, 0x35, 0x71, 0x32, 0xb9, 0x20, 0xf5, 0xb0, 0x08, 0x01, 0xde, 0xe4, 0x60, 0xee, 0x41, 0x5a, 0x15, 0x81, 0x2e, 0xd9]);
    proof {
        reveal_with_fuel(be_val, 50);
    }
    f
}

#[verifier::rlimit(50)]
fn y_den_8() -> (r: Fp)
    ensures
        r.canon(),
        r.val() == 0x1866c8ed336c61231a1be54fd1d74cc4f9fb0ce4c6af5920abc5750c4bf39b4852cfe2f7bb9248836b233d9d55535d4aint,
{
    let f = fe48(&[0x18, 0x66, 0xc8, 0xed, 0x33, 0x6c, 0x61, 0x23, 0x1a, 0x1b, 0xe5, 0x4f, 0xd1, 0xd7, 0x4c, 0xc4, 0xf9, 0xfb, 0x0c, 0xe4, 0xc6, 0xaf, 0x59, 0x20, 0xab, 0xc5, 0x75, 0x0c, 0x4b, 0xf3, 0x9b, 0x48, 0x52, 0xcf, 0xe2, 0xf7, 0xbb, 0x92, 0x48, 0x83, 0x6b, 0x23, 0x3d, 0x9d, 0x55, 0x53, 0x5d, 0x4a]);
    proof {
        reveal_with_fuel(be_val, 50);
    }
    f
}

#[verifier::rlimit(50)]
fn y_den_9() -> (r: Fp)
    ensures
        r.canon(),
        r.val() == 0x167a55cda70a6e1cea820597d94a84903216f763e13d87bb5308592e7ea7d4fbc7385ea3d529b35e346ef48bb8913f55int,
{
    let f = fe48(&[0x16, 0x7a, 0x55, 0xcd, 0xa7, 0x0a, 0x6e, 0x1c, 0xea, 0x82, 0x05, 0x97, 0xd9, 0x4a, 0x84, 0x90, 0x32, 0x16, 0xf7, 0x63, 0xe1, 0x3d, 0x87, 0xbb, 0x53, 0x08, 0x59, 0x2e, 0x7e, 0xa7, 0xd4, 0xfb, 0xc7, 0x38, 0x5e, 0xa3, 0xd5, 0x29, 0xb3, 0x5e, 0x34, 0x6e, 0xf4, 0x8b, 0xb8, 0x91, 0x3f, 0x55]);
    proof {
        reveal_with_fuel(be_val, 50);
    }
    f
}

#[verifier::rlimit(50)]
fn y_den_10() -> (r: Fp)
    ensures
        r.canon(),
        r.val() == 0x04d2f259eea405bd48f010a01ad2911d9c6dd039bb61a6290e591b36e636a5c871a5c29f4f83060400f8b49cba8f6aa8int,
{
    let f = fe48(&[0x04, 0xd2, 0xf2, 0x59, 0xee, 0xa4, 0x05, 0xbd, 0x48, 0xf0, 0x10, 0xa0, 0x1a, 0xd2, 0x91, 0x1d, 0x9c, 0x6d, 0xd0, 0x39, 0xbb, 0x61, 0xa6, 0x29, 0x0e, 0x59, 0x1b, 0x36, 0xe6, 0x36, 0xa5, 0xc8, 0x71, 0xa5, 0xc2, 0x9f, 0x4f, 0x83, 0x06, 0x04, 0x00, 0xf8, 0xb4, 0x9c, 0xba, 0x8f, 0x6a, 0xa8]);
    proof {
        reveal_with_fuel(be_val, 50);
    }
    f
}

#[verifier::rlimit(50)]
fn y_den_11() -> (r: Fp)
    ensures
        r.canon(),
        r.val() == 0x0accbb67481d033ff5852c1e48c50c477f94ff8aefce42d28c0f9a88cea7913516f968986f7ebbea9684b529e2561092int,
{
    let f = fe48(&[0x0a, 0xcc, 0xbb, 0x67, 0x48, 0x1d, 0x03, 0x3f, 0xf5, 0x85, 0x2c, 0x1e, 0x48, 0xc5, 0x0c, 0x47, 0x7f, 0x94, 0xff, 0x8a, 0xef, 0xce, 0x42, 0xd2, 0x8c, 0x0f, 0x9a, 0x88, 0xce, 0xa7, 0x91, 0x35, 0x16, 0xf9, 0x68, 0x98, 0x6f, 0x7e, 0xbb, 0xea, 0x96, 0x84, 0xb5, 0x29, 0xe2, 0x56, 0x10, 0x92]);
    proof {
        reveal_with_fuel(be_val, 50);
    }
    f
}

#[verifier::rlimit(50)]
fn y_den_12() -> (r: Fp)
    ensures
        r.canon(),
        r.val() == 0x0ad6b9514c767fe3c3613144b45f1496543346d98adf02267d5ceef9a00d9b8693000763e3b90ac11e99b138573345ccint,
{
    let f = fe48(&[0x0a, 0xd6, 0xb9, 0x51, 0x4c, 0x76, 0x7f, 0xe3, 0xc3, 0x61, 0x31, 0x44, 0xb4, 0x5f, 0x14, 0x96, 0x54, 0x33, 0x46, 0xd9, 0x8a, 0xdf, 0x02, 0x26, 0x7d, 0x5c, 0xee, 0xf9, 0xa0, 0x0d, 0x9b, 0x86, 0x93, 0x00, 0x07, 0x63, 0xe3, 0xb9, 0x0a, 0xc1, 0x1e, 0x99, 0xb1, 0x38, 0x57, 0x33, 0x45, 0xcc]);
    proof {
        reveal_with_fuel(be_val, 50);
    }
    f
}

#[verifier::rlimit(50)]
fn y_den_13() -> (r: Fp)
    ensures
        r.canon(),
        r.val() == 0x02660400eb2e4f3b628bdd0d53cd76f2bf565b94e72927c1cb748df27942480e420517bd8714cc80d1fadc1326ed06f7int,
{
    let f = fe48(&[0x02, 0x66, 0x04, 0x00, 0xeb, 0x2e, 0x4f, 0x3b, 0x62, 0x8b, 0xdd, 0x0d, 0x53, 0xcd, 0x76, 0xf2, 0xbf, 0x56, 0x5b, 0x94, 0xe7, 0x29, 0x27, 0xc1, 0xcb, 0x74, 0x8d, 0xf2, 0x79, 0x42, 0x48, 0x0e, 0x42, 0x05, 0x17, 0xbd, 0x87, 0x14, 0xcc, 0x80, 0xd1, 0xfa, 0xdc, 0x13, 0x26, 0xed, 0x06, 0xf7]);
    proof {
        reveal_with_fuel(be_val, 50);
    }
    f
}

#[verifier::rlimit(50)]
fn y_den_14() -> (r: Fp)
    ensures
        r.canon(),
        r.val() == 0x0e0fa1d816ddc03e6b24255e0d7819c171c40f65e273b853324efcd6356caa205ca2f570f13497804415473a1d634b8fint,
{
    let f = fe48(&[0x0e, 0x0f, 0xa1, 0xd8, 0x16, 0xdd, 0xc0, 0x3e, 0x6b, 0x24, 0x25, 0x5e, 0x0d, 0x78, 0x19, 0xc1, 0x71, 0xc4, 0x0f, 0x65, 0xe2, 0x73, 0xb8, 0x53, 0x32, 0x4e, 0xfc, 0xd6, 0x35, 0x6c, 0xaa, 0x20, 0x5c, 0xa2, 0xf5, 0x70, 0xf1, 0x34, 0x97, 0x80, 0x44, 0x15, 0x47, 0x3a, 0x1d, 0x63, 0x4b, 0x8f]);
    proof {
        reveal_with_fuel(be_val, 50);
    }
    f
}

#[verifier::rlimit(50)]
fn y_den_15() -> (r: Fp)
    ensures
        r.canon(),
        r.val() == 0x000000000000000000000000000000000000000000000000000000000000000000000000000000000000000000000001int,
{
    let f = fe48(&[0x00, 0x00, 0x00, 0x00, 0x00, 0x00, 0x00, 0x00, 0x00, 0x00, 0x00, 0x00, 0x00, 0x00, 0x00, 0x00, 0x00, 0x00, 0x00, 0x00, 0x00, 0x00, 0x00, 0x00, 0x00, 0x00, 0x00, 0x00, 0x00, 0x00, 0x00, 0x00, 0x00, 0x00, 0x00, 0x00, 0x00, 0x00, 0x00, 0x00, 0x00, 0x00, 0x00, 0x00, 0x00, 0x00, 0x00, 0x01]);
    proof {
        reveal_with_fuel(be_val, 50);
    }
    f
}

pub(crate) fn y_den() -> (r: Vec<Fp>)
    ensures
        r@.len() == 16,
        forall|i: int|
            0 <= i < 16 ==> (#[trigger] r@[i]).canon() && r@[i].val() == y_den_vals()[i],
{
    let mut v: Vec<Fp> = Vec::new();
    v.push(y_den_0());
    v.push(y_den_1());
    v.push(y_den_2());
    v.push(y_den_3());
    v.push(y_den_4());
    v.push(y_den_5());
    v.push(y_den_6());
    v.push(y_den_7());
    v.push(y_den_8());
    v.push(y_den_9());
    v.push(y_den_10());
    v.push(y_den_11());
    v.push(y_den_12());
    v.push(y_den_13());
    v.push(y_den_14());
    v.push(y_den_15());
    v
}

/// The high limb of a 64-byte string weighs 2^384; r384 is that weight
/// already reduced, so wide values can be folded limb by limb.
pub proof fn lemma_r384()
    ensures
        r384_val() == 0x1000000000000000000000000000000000000000000000000000000000000000000000000000000000000000000000000int % p(),
{
}

} // verus!
