// The TESTGEN vectors of the four suites: end-to-end points, intermediate
// mapped points, and the drawn field elements.
use bls381g1_hash::dst::DomainSeparationTag;
use bls381g1_hash::hash_to_field::{hash_to_field_xmd_nu, hash_to_field_xmd_ro};
use bls381g1_hash::suite::{map_to_curve, Bls12381G1Sswu};
use bls381g1_hash::G1Point;

fn h2b(s: &str) -> Vec<u8> {
    let chars: Vec<u8> = s.as_bytes().to_vec();
    assert!(chars.len() % 2 == 0);
    let mut out = Vec::new();
    let val = |c: u8| -> u8 {
        match c {
            b'0'..=b'9' => c - b'0',
            b'a'..=b'f' => c - b'a' + 10,
            b'A'..=b'F' => c - b'A' + 10,
            _ => panic!("not hex"),
        }
    };
    let mut i = 0;
    while i < chars.len() {
        out.push(val(chars[i]) * 16 + val(chars[i + 1]));
        i += 2;
    }
    while out.len() < 48 {
        out.insert(0, 0);
    }
    out
}

fn assert_point(p: &G1Point, x_hex: &str, y_hex: &str) {
    let (xb, yb) = p.coordinates().expect("expected an affine point");
    assert_eq!(xb, h2b(x_hex));
    assert_eq!(yb, h2b(y_hex));
}

const MSGS: [&str; 4] = [
    "",
    "abc",
    "abcdef0123456789",
    "a512_aaaaaaaaaaaaaaaaaaaaaaaaaaaaaaaaaaaaaaaaaaaaaaaaaaaaaaaaaaaaaaaaaaaaaaaaaaaaaaaaaaaaaaaaaaaaaaaaaaaaaaaaaaaaaaaaaaaaaaaaaaaaaaaaaaaaaaaaaaaaaaaaaaaaaaaaaaaaaaaaaaaaaaaaaaaaaaaaaaaaaaaaaaaaaaaaaaaaaaaaaaaaaaaaaaaaaaaaaaaaaaaaaaaaaaaaaaaaaaaaaaaaaaaaaaaaaaaaaaaaaaaaaaaaaaaaaaaaaaaaaaaaaaaaaaaaaaaaaaaaaaaaaaaaaaaaaaaaaaaaaaaaaaaaaaaaaaaaaaaaaaaaaaaaaaaaaaaaaaaaaaaaaaaaaaaaaaaaaaaaaaaaaaaaaaaaaaaaaaaaaaaaaaaaaaaaaaaaaaaaaaaaaaaaaaaaaaaaaaaaaaaaaaaaaaaaaaaaaaaaaaaaaaaaaaaaaaaaaaaaaaaaaaaaaaaaaaaaaaaaaaaaaaaaaaaa",
];

#[test]
fn hash_to_curve_xmd_tests() {
    let dst = DomainSeparationTag::new(
        "BLS12381G1_XMD:SHA-256_SSWU_RO_".as_bytes(),
        Some("TESTGEN".as_bytes()),
        None,
        None,
    )
    .unwrap();
    let p = [
        ("14738daf70f5142df038c9e3be76f5d71b0db6613e5ef55cfe8e43e27f840dc75de97092da617376a9f598e7a0920c47", "12645b7cb071943631d062b22ca61a8a3df2a8bdac4e6fcd2c18643ef37a98beacf770ce28cb01c8abf5ed63d1a19b53"),
        ("01fea27a940188120178dfceec87dca78b745b6e73757be21c54d6cee6f07e3d5a465cf425c9d34dccfa95acffa86bf2", "18def9271f5fd253380c764a6818e8b6524c3d35864fcf963d85031225d62bf8cd0abeb326c3c62fec56f6100fa04367"),
        ("0bdbca067fc4458a1206ecf3e235b400449c5693dd99e99a9793da076cb65e1b796bc279c892ae1c320c3783e25062d2", "12ca3f12b93b0028390a4ef4fa7083cb23f66ca42423e6e53987620e1d57c23a0ad6a14db1f709d0494c7d5122e0632f"),
        ("0a81ca09b6a8c05712396801e6432a87b14ab1f764fa519e9f515816607283fe2a653a191fc1c8fee89cd30195e7a8e1", "11c7f1b59bb552692288da6557d1b5c72a448101faf56dd4125d8422af1425c4ddeecfbd5200525064657a79bdd0c3ed"),
    ];

    let blshasher = Bls12381G1Sswu::from(dst);

    for i in 0..MSGS.len() {
        let actual_p = blshasher.hash_to_curve_xmd(MSGS[i].as_bytes());
        assert!(actual_p.is_ok());
        assert_point(&actual_p.unwrap(), p[i].0, p[i].1);
    }
}

#[test]
fn hash_to_curve_xof_tests() {
    let dst = DomainSeparationTag::new(
        "BLS12381G1_XOF:SHAKE-128_SSWU_RO_".as_bytes(),
        Some("TESTGEN".as_bytes()),
        None,
        None,
    )
    .unwrap();
    let p = [
        ("13BE5D0DA8916DC22A4683102E25158FCCF9695664B98E3CD41F723FEF99F92476FE5BFE495B787FDA5561AC6F0AB3B9", "10D5EFB4C0540BE37B23AB3A67324EA63D94AA5D7129210C7A4CA8AE5C48A3104CE74CEDC0117B56320CDD4242FEC1BC"),
        ("185782F1391BE17A64BC8ECB88CD7957118C0B968B7DBFAAEA4D0288BE243E4CF8CC10306AC58DED6994AC48837701BB", "12D37C727D8F5AF320B9DAB4E563D6E6578BBAAA1300EBEC58C1003C1A121669A53B39795F387AD510DA12E389B7CD6B"),
        ("19C3D7FF10EEF43623889C6221632C373A198AE108509A969D6B47A0D4ECA2483A884D2EAEA26A9214E6A54EBAD0E9C3", "025A8BD2768EC20CEA2E3D405FF72D4796BE83F8634317D1D70793591C6693954C91DEF9E6F553CE7ED4DC364CF05513"),
        ("0398FD7E656CEC001E1B3E1F88CA0CF6791A8F1C2C970E78E7E4E672EAD45340D53F958E20BF384FBB333F6F45328A1F", "0478D9837665E168D9AC3505C08AE122C504A78D8BE487012F078864D6C7043463E665F0DEA92EB6B374CADC65780A35"),
    ];

    let blshasher = Bls12381G1Sswu::from(dst);

    for i in 0..MSGS.len() {
        let actual_p = blshasher.hash_to_curve_xof(MSGS[i].as_bytes());
        assert!(actual_p.is_ok());
        assert_point(&actual_p.unwrap(), p[i].0, p[i].1);
    }
}

#[test]
fn encode_to_curve_xmd_tests() {
    let dst = DomainSeparationTag::new(
        "BLS12381G1_XMD:SHA-256_SSWU_NU_".as_bytes(),
        Some("TESTGEN".as_bytes()),
        None,
        None,
    )
    .unwrap();
    let p = [
        ("115281bd55a4103f31c8b12000d98149598b72e5da14e953277def263a24bc2e9fd8fa151df73ea3800f9c8cbb9b245c", "0796506faf9edbf1957ba8d667a079cab0d3a37e302e5132bd25665b66b26ea8556a0cfb92d6ae2c4890df0029b455ce"),
        ("04a7a63d24439ade3cd16eaab22583c95b061136bd5013cf109d92983f902c31f49c95cbeb97222577e571e97a68a32e", "09a8aa8d6e4b409bbe9a6976c016688269024d6e9d378ed25e8b4986194511f479228fa011ec88b8f4c57a621fc12187"),
        ("05c59faaf88187f51cd9cc6c20ca47ac66cc38d99af88aef2e82d7f35104168916f200a79562e64bc843f83cdc8a4675", "0b10472100a4aaa665f35f044b14a234b8f74990fa029e3dd06aa60b232fd9c232564ceead8cdb72a8a0320fc1071845"),
        ("10147709f8d4f6f2fa6f957f6c6533e3bf9069c01be721f9421d88e0f02d8c617d048c6f8b13b81309d1ef6b56eeddc7", "1048977c38688f1a3acf48ae319216cb1509b6a29bd1e7f3b2e476088a280e8c97d4a4c147f0203c7b3acb3caa566ae8"),
    ];

    let blshasher = Bls12381G1Sswu::from(dst);

    for i in 0..MSGS.len() {
        let actual_p = blshasher.encode_to_curve_xmd(MSGS[i].as_bytes());
        assert!(actual_p.is_ok());
        assert_point(&actual_p.unwrap(), p[i].0, p[i].1);
    }
}

#[test]
fn map_to_curve_ro_tests() {
    let dst = DomainSeparationTag::new(
        "BLS12381G1_XMD:SHA-256_SSWU_RO_".as_bytes(),
        Some("TESTGEN".as_bytes()),
        None,
        None,
    )
    .unwrap();

    let expected_q = [
        ("02f2686965a4dd27ccb11119f2e131aefee818744a414d23ecef4db1407991fdf058f0affaee18fd586a9ab81060ae20",
         "0341a16c88a39b3d111b36b7cf885b7147b1d54b9201faaba5b47d7839bcf433cc35bb1f7b8e55aa9382a52fe4d84370",
         "1357bddd2bc6c8e752f3cf498ffe29ae87d8ff933701ae76f82d2839b0d9aee5229d4fff54dfb8223be0d88fa4485863",
         "09ba0ec3c78cf1e65330721f777b529aef27539642c39be11f459106b890ec5eb4a21c5d94885603e822cfa765170857"),

        ("119cc1d21e3e494d388a8718fe9f8ec6d8ff134486ce5c1f97129797616c4b8125f0dc568c59836cbf064496136438bc",
         "19e6c998825ee57b82c4808e4df477680f0f254c9edce228104422494a4e5d40d11ee676f6b861b6c49cf7de9d777aef",
         "0d1783f40bd83461b921c3fcd0e9ba326ef75272b122cf44338f0060d7179995a38ea9c66f3ce800e2f693d2634a4524",
         "017b2566d55fa7ee43844f1fa068cb0a11d5889c11607d939da046697c8ba25cf71054c2a8eb2189d3680485a39f5bdd"),

        ("1614d05720a39379fb89469883f90ae3e50995def9e17f8f8566a3f6cfb4fe88267eac1dc7834406fc597965065ef100",
         "1060e5aab331ac4940693a936ea80029bb2c4a3945add7ae35bce805e767af827c4a9ffcb5842fbc50ab234716d895f6",
         "0f612cda21cee750b1ccff361a4ce047e70d9a9e152e96a60aa29b5d8a5dcd25f7c5bd71bb56bd34e6a8af7532afaa4f",
         "1878f926302468949ef290b4fee621d1172e072eda1b42e366df68fc87f53c35583dbc043009e0b38a04a9b1ff617efe"),

        ("0a817078e7f30f08e94a25c2a1947160db1fe52042626660b8252cd339e678a1fecc0e6da60390a203532bd089a426b6",
         "097bd5d6ae3f5b5d0ba5e4099485caa2c505a1d900e4525af10254b3927ae0c82611be944ff8fdc6b278aab9e17ee27c",
         "1098f203da72c58dca61ffd52a3de82603d3154c527df51c2efe6298ea0eeaa065d57ba3a809b5e32d9d56dade119006",
         "0bcbd9df3505f049476f060c1d1c958fe8b34e426fd7e75424c9e227d9c4d3edbd5eddb8b1e89cc91b4a7bd3275d4d70"),
    ];

    for i in 0..MSGS.len() {
        let u = hash_to_field_xmd_ro(MSGS[i].as_bytes(), &dst).unwrap();
        let actual_q = map_to_curve(&u.0);
        assert_point(&actual_q, expected_q[i].0, expected_q[i].1);
        let actual_q = map_to_curve(&u.1);
        assert_point(&actual_q, expected_q[i].2, expected_q[i].3);
    }
}

#[test]
fn map_to_curve_nu_tests() {
    let dst = DomainSeparationTag::new(
        "BLS12381G1_XMD:SHA-256_SSWU_NU_".as_bytes(),
        Some("TESTGEN".as_bytes()),
        None,
        None,
    )
    .unwrap();
    let q_s = [
        ("0dddf77f320e7848a457358ab8d3b84cbaf19307be26b91a10c211651691cd736b1f59d77aed3954f857f108d6966f5b", "0450ab32020649f22a2fca166a1d8a59d4c93f1eb078a4bedd6c48027b9933507a2a8ae4d915305f58ede781283325a9"),
        ("12897a9a513b12303a7f0f3a3cc7c838d16847a31507980945312bede915848159bd390b16b8e378b398e31a385d9180", "1372530cc0811d70071e50640281aa8aaf96ee09c01281ccfead92296cb9dacf5054aa51dbea730e46239e709042a15d"),
        ("08459bd42a955d6e247fce6c81eda0ad9645f9e666d141a71f0afa3fbc509b2c58550fe077d073cc752493400399fddd", "169d35a8c6bb915ae910f4c6cde359622746b0c8b2b241b411d0e92ef991d3e6a7b0fafabb93c1de2e3997d6e362ce8a"),
        ("08c937d529c01ab2398b85b0bff6da465ed6265d4944dbbef7d383eea40157927082739c7b5417027d2225c6cb9d5ef0", "059047d83b5ea1ff7f0665b406acede27f233d3414055cbff25b37614b679f08fd6d807b5956edec6abad36c5321d99e"),
    ];

    for i in 0..MSGS.len() {
        let u = hash_to_field_xmd_nu(MSGS[i].as_bytes(), &dst).unwrap();
        let actual_q1 = map_to_curve(&u);
        assert_point(&actual_q1, q_s[i].0, q_s[i].1);
    }
}

#[test]
fn hash_to_field_xmd_nu_tests() {
    let dst = DomainSeparationTag::new(
        "BLS12381G1_XMD:SHA-256_SSWU_NU_".as_bytes(),
        Some("TESTGEN".as_bytes()),
        None,
        None,
    )
    .unwrap();
    let executed_u_s = [
        "0ccb6bda9b602ab82aae21c0291623e2f639648a6ada1c76d8ffb664130fd18d98a2cc6160624148827a9726678e7cd4",
        "08accd9a1bd4b75bb2e9f014ac354a198cbf607f0061d00a6286f5544cf4f9ecc1439e3194f570cbbc7b96d1a754f231",
        "0a359cf072db3a39acf22f086d825fcf49d0daf241d98902342380fc5130b44e55de8f684f300bc11c44dee526413363",
        "181d09392c52f7740d5eaae52123c1dfa4808343261d8bdbaf19e7773e5cdfd989165cd9ecc795500e5da2437dde2093",
    ];

    for i in 0..MSGS.len() {
        let actual_u = hash_to_field_xmd_nu(MSGS[i].as_bytes(), &dst);
        assert!(actual_u.is_ok());
        assert_eq!(actual_u.unwrap().to_be_bytes(), h2b(executed_u_s[i]));
    }
}

#[test]
fn hash_to_field_xmd_ro_tests() {
    let dst = DomainSeparationTag::new(
        "BLS12381G1_XMD:SHA-256_SSWU_RO_".as_bytes(),
        Some("TESTGEN".as_bytes()),
        None,
        None,
    )
    .unwrap();
    let expected_u_s = [
        ("14700e34d15178550475044b044b4e41ca8d52a655c34f8afea856d21d499f48c9370d2bae4ae8351305493e48d36ab5", "17e2da57f6fd3f11dba6119db4cd26b03e63e67b4e42db678d9c41fdfcaff00ba336d8563abcd9da6c17d2e1784ee858"),
        ("10c84aa245c74ee20579a27e63199be5d19cdfb5e44c6b587765931605d7790a1df6e1433f78bcddb4edb8553374f75e", "0f73433dcc2b5f9905c49d905bd62e1a1529b057c77194e56d196860d9d645167e0430aec9d3c70de31dd046fcab4a20"),
        ("11503eb4a558d0d2c5fc7cdddb51ba715c33577cf1a7f2f21a7eee6d2a570332bbbe53ae3392c9f8d8f6c172ae484692", "0efd59b8d98be7c491dfdb9d2a669e32e9bb348f8a64dbf7e47708dd5d40f484b1439109a3f96230bf63af72b908c43d"),
        ("134dc7f817cc08c5a3128892385ff6e9dd55f5e39d9a2d74ac74058d5dfc025d507806ab5d9254bd2334defbb477400d", "0eeaf2c6f4c1ca5cc039d99cb94234f67e65968f36d9dd77e95da55dadd085b50fbb11489167ded9157e5aac0d99d5be"),
    ];

    for i in 0..MSGS.len() {
        let res = hash_to_field_xmd_ro(MSGS[i].as_bytes(), &dst);
        assert!(res.is_ok());
        let (actual_u0, actual_u1) = res.unwrap();
        assert_eq!(actual_u0.to_be_bytes(), h2b(expected_u_s[i].0));
        assert_eq!(actual_u1.to_be_bytes(), h2b(expected_u_s[i].1));
    }
}
