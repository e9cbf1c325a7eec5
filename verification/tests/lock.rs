use curv::arithmetic::traits::Converter;
use kzen_paillier::{Encrypt, Paillier, RawCiphertext, RawPlaintext};
use multi_hop_lock::{
    get_paillier_keys, BigInt, DecommitLockParty1Message1, DecryptionKey, ECDDHProof,
    EncryptionKey, LockError, LockParty0Message1, LockParty0Message2, LockParty1Message1,
    LockParty1Message2, PartialSig, FE, GE,
};
use sha2::{Digest, Sha256};

const P_HEX: &str = "ec2e9d076e0277795e1454fd8dce0e0ff18167044a4a67b0c11fe213c3677da25201d22112d046b7139c30a86fc2301de76d2609bc83bd957d860725b08acbdc0e3a02291130b7371f06d06ea5f37a45913dab1c0dc4c8d5c9a15ba7ba3c8984c030631a4ec882986fc01646e920693ded7a71889eb8dbd48008ab76010f5737";
const Q_HEX: &str = "fec81a7dc6c808fe588045ed6bb297369b7e19ed33d2409fd24f4aa4a03a32304572645df26c17318b51ed295d9b5b8758332c7ba0987f9c585e74c29b6c3d8ea0490fb600a178a5baca8ae091f569b7c7be1bf836ab68aff33b00f47ead4678d4f7f9129d8e9114c1146609ca8513c39bc5a08e7f68d71a1f43e95c0d9fb795";

fn hex(s: &str) -> Vec<u8> {
    let digits: Vec<u8> = s
        .bytes()
        .map(|c| match c {
            b'0'..=b'9' => c - b'0',
            b'a'..=b'f' => c - b'a' + 10,
            _ => panic!("not a hex digit"),
        })
        .collect();
    assert_eq!(digits.len() % 2, 0);
    digits.chunks(2).map(|p| p[0] * 16 + p[1]).collect()
}

fn fe(n: u64) -> FE {
    FE::from_bigint(&BigInt::from_bytes(n.to_be_bytes().to_vec()))
}

fn big(n: u64) -> BigInt {
    BigInt::from_bytes(n.to_be_bytes().to_vec())
}

fn test_keys() -> (EncryptionKey, DecryptionKey) {
    let p = curv::BigInt::from_bytes(&hex(P_HEX));
    let q = curv::BigInt::from_bytes(&hex(Q_HEX));
    let n = &p * &q;
    (
        EncryptionKey { n: BigInt::from_bytes(n.to_bytes()) },
        DecryptionKey { p: BigInt::from_bytes(p.to_bytes()), q: BigInt::from_bytes(q.to_bytes()) },
    )
}

fn encrypt_share(ek: &EncryptionKey, x_0: &FE) -> BigInt {
    let key = kzen_paillier::EncryptionKey::from(&curv::BigInt::from_bytes(&ek.n.to_bytes()));
    let plain = RawPlaintext::from(curv::BigInt::from_bytes(&x_0.to_bigint().to_bytes()));
    let c: RawCiphertext = Paillier::encrypt(&key, plain);
    BigInt::from_bytes(c.0.to_bytes())
}

fn plus_one(n: &BigInt) -> BigInt {
    let v = curv::BigInt::from_bytes(&n.to_bytes()) + curv::BigInt::from(1u32);
    BigInt::from_bytes(v.to_bytes())
}

fn message() -> BigInt {
    BigInt::from_bytes(Sha256::digest(b"hop-test").to_vec())
}

struct Parties {
    ek: EncryptionKey,
    dk: DecryptionKey,
    x_1: FE,
    share: BigInt,
    pk: GE,
}

fn parties() -> Parties {
    let (ek, dk) = test_keys();
    let x_0 = FE::new_random();
    let x_1 = FE::new_random();
    let share = encrypt_share(&ek, &x_0);
    let pk = GE::generator().scalar_mul(&x_0.mul(&x_1));
    Parties { ek, dk, x_1, share, pk }
}

#[test]
fn message_digest_is_the_expected_one() {
    assert_eq!(
        message().to_bytes(),
        hex("3d647a9493e646b6a0c1da977b5c8b488d91d521114bd07468a6297e9865aabd")
    );
}

#[test]
fn first_message_of_party_0_holds_the_nonce_on_both_points() {
    let y = GE::generator().scalar_mul(&fe(5));
    let (r_0, msg) = LockParty0Message1::first_message(&y);
    assert!(!r_0.equals(&FE::zero()));
    assert!(msg.R_0.equals(&GE::generator().scalar_mul(&r_0)));
    assert!(msg.R_0_tag.equals(&y.scalar_mul(&r_0)));
    let again = LockParty0Message1::first_message_with(&y, &fe(3));
    assert!(again.R_0.equals(&GE::generator().scalar_mul(&fe(3))));
    assert!(again.R_0_tag.equals(&GE::generator().scalar_mul(&fe(15))));
}

#[test]
fn first_message_of_party_1_commits_to_its_nonce_points() {
    let y = GE::generator().scalar_mul(&fe(5));
    let (r_1, decommit, msg) = LockParty1Message1::first_message(&y);
    assert!(decommit.R_1.equals(&GE::generator().scalar_mul(&r_1)));
    assert!(decommit.R_1_tag.equals(&y.scalar_mul(&r_1)));
    assert!(decommit.blind_factor.to_bytes().len() <= 32);
    assert!(!msg.comm.same_value(&decommit.blind_factor));
    let (_, other_decommit, other_msg) = LockParty1Message1::first_message(&y);
    assert!(!other_decommit.blind_factor.same_value(&decommit.blind_factor));
    assert!(!other_msg.comm.same_value(&msg.comm));
}

#[test]
fn commitment_is_the_sha3_of_the_sha256_of_the_points() {
    // R_1 = 4G, R_1_tag = 20G, a1 = 2G, a2 = 3G, blinding factor 0x1234.
    let g = GE::generator();
    let decomm = DecommitLockParty1Message1 {
        blind_factor: BigInt::from_bytes(vec![0x12, 0x34]),
        R_1: g.scalar_mul(&fe(4)),
        R_1_tag: g.scalar_mul(&fe(20)),
        ddh_proof: ECDDHProof { a1: g.scalar_mul(&fe(2)), a2: g.scalar_mul(&fe(3)), z: fe(1) },
    };
    let expected =
        BigInt::from_bytes(hex("5190d63775a580d2c82dbdf750c8793a43427c4f35572f117d218edf1bf98870"));
    let (_, dk) = test_keys();
    let y = g.scalar_mul(&fe(5));
    let with = |comm: BigInt| {
        let msg2 = LockParty1Message2 {
            decomm: decomm.clone(),
            partial_sig: PartialSig { c_tag: big(1) },
        };
        let msg1 = LockParty1Message1 { comm };
        LockParty0Message2::second_message(&dk, msg2, msg1, &message(), fe(3), &y, &g)
            .map(|r| r.0.to_bigint().to_bytes())
    };
    // The right commitment gets as far as the proof, which is made up.
    assert_eq!(with(expected.clone()), Err(LockError::BadNIZK));
    assert_eq!(with(plus_one(&expected)), Err(LockError::BadCommitment));
    assert_eq!(with(BigInt::from_bytes(vec![0x12, 0x34])), Err(LockError::BadCommitment));
}

#[test]
fn first_message_with_the_same_input_gives_the_nonce_points_again() {
    let y = GE::generator().scalar_mul(&fe(5));
    let (d1, _) = LockParty1Message1::first_message_with(&y, &fe(4), big(7));
    let (d2, _) = LockParty1Message1::first_message_with(&y, &fe(4), big(7));
    assert!(d1.R_1.equals(&d2.R_1));
    assert!(d1.R_1_tag.equals(&d2.R_1_tag));
    assert!(d1.R_1.equals(&GE::generator().scalar_mul(&fe(4))));
    assert!(d1.R_1_tag.equals(&GE::generator().scalar_mul(&fe(20))));
    assert!(d1.blind_factor.same_value(&big(7)));
}

#[test]
fn partial_signature_is_the_stated_ciphertext() {
    // Y = 5G, r_0 = 3, r_1 = 4, x_1 = 9, modulus 143, share 1234, rho 77,
    // randomness 23.
    let g = GE::generator();
    let y = g.scalar_mul(&fe(5));
    let msg0 = LockParty0Message1::first_message_with(&y, &fe(3));
    let (decommit, _) = LockParty1Message1::first_message_with(&y, &fe(4), big(7));
    let ek = EncryptionKey { n: big(143) };
    let msg = LockParty1Message2::second_message_with(
        &msg0,
        decommit,
        &ek,
        &fe(9),
        &big(1234),
        &message(),
        &fe(4),
        &y,
        &big(77),
        &big(23),
    )
    .expect("the proof of party 0 holds");
    assert!(msg.partial_sig.c_tag.same_value(&big(3610)));
}

#[test]
fn second_message_of_party_1_refuses_a_proof_for_another_point() {
    let g = GE::generator();
    let y = g.scalar_mul(&fe(5));
    let other = g.scalar_mul(&fe(6));
    let parties = parties();
    let (_, msg0) = LockParty0Message1::first_message(&y);
    let (r_1, decommit, _) = LockParty1Message1::first_message(&other);
    let r = LockParty1Message2::second_message(
        &msg0,
        decommit,
        &parties.ek,
        &parties.x_1,
        &parties.share,
        &message(),
        &r_1,
        &other,
    );
    assert_eq!(r.err(), Some(LockError::BadNIZK));
}

#[test]
fn second_message_of_party_1_refuses_a_tampered_message() {
    let g = GE::generator();
    let y = g.scalar_mul(&fe(5));
    let parties = parties();
    let (_, msg0) = LockParty0Message1::first_message(&y);
    let (r_1, decommit, _) = LockParty1Message1::first_message(&y);
    let mut moved = msg0;
    moved.R_0_tag = moved.R_0_tag.add(&g);
    let r = LockParty1Message2::second_message(
        &moved,
        decommit.clone(),
        &parties.ek,
        &parties.x_1,
        &parties.share,
        &message(),
        &r_1,
        &y,
    );
    assert_eq!(r.err(), Some(LockError::BadNIZK));
    let mut broken = msg0;
    broken.ddh_proof.z = broken.ddh_proof.z.add(&fe(1));
    let r = LockParty1Message2::second_message(
        &broken,
        decommit,
        &parties.ek,
        &parties.x_1,
        &parties.share,
        &message(),
        &r_1,
        &y,
    );
    assert_eq!(r.err(), Some(LockError::BadNIZK));
}

#[test]
fn second_message_of_party_1_refuses_the_point_at_infinity() {
    let y = GE::zero();
    let parties = parties();
    let (_, msg0) = LockParty0Message1::first_message(&y);
    let (r_1, decommit, _) = LockParty1Message1::first_message(&y);
    let r = LockParty1Message2::second_message(
        &msg0,
        decommit,
        &parties.ek,
        &parties.x_1,
        &parties.share,
        &message(),
        &r_1,
        &y,
    );
    assert_eq!(r.err(), Some(LockError::BadNIZK));
}

#[test]
fn honest_session_yields_a_bound_presignature() {
    let parties = parties();
    let y_secret = FE::new_random();
    let y = GE::generator().scalar_mul(&y_secret);
    let m = message();
    let (r_1, decommit, msg1_1) = LockParty1Message1::first_message(&y);
    let (r_0, msg0_1) = LockParty0Message1::first_message(&y);
    let r_1_point = decommit.R_1;
    let msg1_2 = LockParty1Message2::second_message(
        &msg0_1,
        decommit,
        &parties.ek,
        &parties.x_1,
        &parties.share,
        &m,
        &r_1,
        &y,
    )
    .expect("party 1 accepts");
    let (s_tag, msg0_2) =
        LockParty0Message2::second_message(&parties.dk, msg1_2, msg1_1, &m, r_0, &y, &parties.pk)
            .expect("party 0 accepts");
    assert!(msg0_2.s_tag.equals(&s_tag));
    let (s_again, r_x) =
        msg0_2.verify(msg0_1, &r_1, &parties.pk, &m).expect("party 1 accepts the pre-signature");
    assert!(s_again.equals(&s_tag));
    // r_x is the x coordinate of r_0 r_1 Y.
    let joint = y.scalar_mul(&r_0.mul(&r_1));
    assert!(r_x.equals(&FE::from_bigint(&joint.x_coor().expect("not the point at infinity"))));
    // s' R_1 = m G + r_x pk, with s' = s_tag r_0.
    let g = GE::generator();
    let rhs = g.scalar_mul(&FE::from_bigint(&m)).add(&parties.pk.scalar_mul(&r_x));
    assert!(r_1_point.scalar_mul(&s_tag.mul(&r_0)).equals(&rhs));
    // Opened with the secret of the adaptor point, it is an ECDSA signature.
    let s = s_tag.mul(&y_secret.invert().expect("not zero")).low();
    let l = multi_hop_lock::L { m: FE::from_bigint(&m), pk: parties.pk };
    assert_eq!(multi_hop_lock::vf(&l, &multi_hop_lock::K { r: r_x, s }), Ok(()));
}

#[test]
fn honest_session_with_generated_keys() {
    let (ek, dk) = get_paillier_keys();
    let n = curv::BigInt::from_bytes(&ek.n.to_bytes());
    let p = curv::BigInt::from_bytes(&dk.p.to_bytes());
    let q = curv::BigInt::from_bytes(&dk.q.to_bytes());
    assert_eq!(n, &p * &q);
    assert!(p != q);
    let x_0 = FE::new_random();
    let x_1 = FE::new_random();
    let share = encrypt_share(&ek, &x_0);
    let pk = GE::generator().scalar_mul(&x_0.mul(&x_1));
    let y = GE::generator().scalar_mul(&FE::new_random());
    let m = message();
    let (r_1, decommit, msg1_1) = LockParty1Message1::first_message(&y);
    let (r_0, msg0_1) = LockParty0Message1::first_message(&y);
    let msg1_2 =
        LockParty1Message2::second_message(&msg0_1, decommit, &ek, &x_1, &share, &m, &r_1, &y)
            .expect("party 1 accepts");
    let r = LockParty0Message2::second_message(&dk, msg1_2, msg1_1, &m, r_0, &y, &pk);
    assert!(r.is_ok());
}

#[test]
fn decommitment_with_another_nonce_point_is_refused() {
    let parties = parties();
    let y = GE::generator().scalar_mul(&FE::new_random());
    let m = message();
    let (r_1, decommit, msg1_1) = LockParty1Message1::first_message(&y);
    let (r_0, msg0_1) = LockParty0Message1::first_message(&y);
    let mut msg1_2 = LockParty1Message2::second_message(
        &msg0_1,
        decommit,
        &parties.ek,
        &parties.x_1,
        &parties.share,
        &m,
        &r_1,
        &y,
    )
    .expect("party 1 accepts");
    msg1_2.decomm.R_1 = msg1_2.decomm.R_1.add(&GE::generator());
    let r =
        LockParty0Message2::second_message(&parties.dk, msg1_2, msg1_1, &m, r_0, &y, &parties.pk);
    assert_eq!(r.err(), Some(LockError::BadCommitment));
}

#[test]
fn every_field_of_the_decommitment_is_bound() {
    let parties = parties();
    let y = GE::generator().scalar_mul(&FE::new_random());
    let m = message();
    let (r_1, decommit, msg1_1) = LockParty1Message1::first_message(&y);
    let (r_0, msg0_1) = LockParty0Message1::first_message(&y);
    let msg1_2 = LockParty1Message2::second_message(
        &msg0_1,
        decommit,
        &parties.ek,
        &parties.x_1,
        &parties.share,
        &m,
        &r_1,
        &y,
    )
    .expect("party 1 accepts");
    let g = GE::generator();
    let refused = |msg: LockParty1Message2| {
        LockParty0Message2::second_message(
            &parties.dk,
            msg,
            msg1_1.clone(),
            &m,
            r_0,
            &y,
            &parties.pk,
        )
        .err()
    };
    let mut other_blind = msg1_2.clone();
    other_blind.decomm.blind_factor = plus_one(&other_blind.decomm.blind_factor);
    assert_eq!(refused(other_blind), Some(LockError::BadCommitment));
    let mut other_tag = msg1_2.clone();
    other_tag.decomm.R_1_tag = other_tag.decomm.R_1_tag.add(&g);
    assert_eq!(refused(other_tag), Some(LockError::BadCommitment));
    let mut other_a1 = msg1_2.clone();
    other_a1.decomm.ddh_proof.a1 = other_a1.decomm.ddh_proof.a1.add(&g);
    assert_eq!(refused(other_a1), Some(LockError::BadCommitment));
    let mut other_a2 = msg1_2.clone();
    other_a2.decomm.ddh_proof.a2 = other_a2.decomm.ddh_proof.a2.add(&g);
    assert_eq!(refused(other_a2), Some(LockError::BadCommitment));
    // The response of the proof is not committed to; the proof then fails.
    let mut other_z = msg1_2.clone();
    other_z.decomm.ddh_proof.z = other_z.decomm.ddh_proof.z.add(&fe(1));
    assert_eq!(refused(other_z), Some(LockError::BadNIZK));
    assert_eq!(refused(msg1_2), None);
}

#[test]
fn another_commitment_is_refused() {
    let parties = parties();
    let y = GE::generator().scalar_mul(&FE::new_random());
    let m = message();
    let (r_1, decommit, msg1_1) = LockParty1Message1::first_message(&y);
    let (r_0, msg0_1) = LockParty0Message1::first_message(&y);
    let msg1_2 = LockParty1Message2::second_message(
        &msg0_1,
        decommit,
        &parties.ek,
        &parties.x_1,
        &parties.share,
        &m,
        &r_1,
        &y,
    )
    .expect("party 1 accepts");
    let other = LockParty1Message1 { comm: plus_one(&msg1_1.comm) };
    let r = LockParty0Message2::second_message(&parties.dk, msg1_2, other, &m, r_0, &y, &parties.pk);
    assert_eq!(r.err(), Some(LockError::BadCommitment));
}

#[test]
fn perturbed_ciphertext_is_refused() {
    let parties = parties();
    let y = GE::generator().scalar_mul(&FE::new_random());
    let m = message();
    let (r_1, decommit, msg1_1) = LockParty1Message1::first_message(&y);
    let (r_0, msg0_1) = LockParty0Message1::first_message(&y);
    let mut msg1_2 = LockParty1Message2::second_message(
        &msg0_1,
        decommit,
        &parties.ek,
        &parties.x_1,
        &parties.share,
        &m,
        &r_1,
        &y,
    )
    .expect("party 1 accepts");
    msg1_2.partial_sig.c_tag = plus_one(&msg1_2.partial_sig.c_tag);
    let r =
        LockParty0Message2::second_message(&parties.dk, msg1_2, msg1_1, &m, r_0, &y, &parties.pk);
    assert_eq!(r.err(), Some(LockError::BadPreSig));
}

#[test]
fn another_message_or_key_is_refused_as_a_bad_presignature() {
    let parties = parties();
    let y = GE::generator().scalar_mul(&FE::new_random());
    let m = message();
    let (r_1, decommit, msg1_1) = LockParty1Message1::first_message(&y);
    let (r_0, msg0_1) = LockParty0Message1::first_message(&y);
    let msg1_2 = LockParty1Message2::second_message(
        &msg0_1,
        decommit,
        &parties.ek,
        &parties.x_1,
        &parties.share,
        &m,
        &r_1,
        &y,
    )
    .expect("party 1 accepts");
    let r = LockParty0Message2::second_message(
        &parties.dk,
        msg1_2.clone(),
        msg1_1.clone(),
        &plus_one(&m),
        r_0,
        &y,
        &parties.pk,
    );
    assert_eq!(r.err(), Some(LockError::BadPreSig));
    let other_pk = parties.pk.add(&GE::generator());
    let r = LockParty0Message2::second_message(&parties.dk, msg1_2, msg1_1, &m, r_0, &y, &other_pk);
    assert_eq!(r.err(), Some(LockError::BadPreSig));
}

#[test]
fn party_0_refuses_a_proof_for_another_adaptor_point() {
    let parties = parties();
    let y = GE::generator().scalar_mul(&FE::new_random());
    let other = y.add(&GE::generator());
    let m = message();
    let (r_1, decommit, msg1_1) = LockParty1Message1::first_message(&y);
    let (r_0, msg0_1) = LockParty0Message1::first_message(&y);
    let msg1_2 = LockParty1Message2::second_message(
        &msg0_1,
        decommit,
        &parties.ek,
        &parties.x_1,
        &parties.share,
        &m,
        &r_1,
        &y,
    )
    .expect("party 1 accepts");
    let r = LockParty0Message2::second_message(
        &parties.dk,
        msg1_2,
        msg1_1,
        &m,
        r_0,
        &other,
        &parties.pk,
    );
    assert_eq!(r.err(), Some(LockError::BadNIZK));
}

#[test]
fn party_1_refuses_a_presignature_that_is_not_bound() {
    let parties = parties();
    let y = GE::generator().scalar_mul(&FE::new_random());
    let m = message();
    let (r_1, decommit, msg1_1) = LockParty1Message1::first_message(&y);
    let (r_0, msg0_1) = LockParty0Message1::first_message(&y);
    let msg1_2 = LockParty1Message2::second_message(
        &msg0_1,
        decommit,
        &parties.ek,
        &parties.x_1,
        &parties.share,
        &m,
        &r_1,
        &y,
    )
    .expect("party 1 accepts");
    let (s_tag, _) =
        LockParty0Message2::second_message(&parties.dk, msg1_2, msg1_1, &m, r_0, &y, &parties.pk)
            .expect("party 0 accepts");
    let forged = LockParty0Message2 { s_tag: s_tag.add(&fe(1)) };
    assert_eq!(forged.verify(msg0_1, &r_1, &parties.pk, &m).err(), Some(LockError::BadPreSig));
    let honest = LockParty0Message2 { s_tag };
    assert_eq!(
        honest.verify(msg0_1, &r_1, &parties.pk, &plus_one(&m)).err(),
        Some(LockError::BadPreSig)
    );
    assert_eq!(
        honest.verify(msg0_1, &FE::zero(), &parties.pk, &m).err(),
        Some(LockError::BadPreSig)
    );
    assert!(honest.verify(msg0_1, &r_1, &parties.pk, &m).is_ok());
}

#[test]
fn a_zero_nonce_is_refused_by_its_own_party() {
    let parties = parties();
    let y = GE::generator().scalar_mul(&FE::new_random());
    let m = message();
    let (r_1, decommit, msg1_1) = LockParty1Message1::first_message(&y);
    let (_, msg0_1) = LockParty0Message1::first_message(&y);
    let r = LockParty1Message2::second_message(
        &msg0_1,
        decommit.clone(),
        &parties.ek,
        &parties.x_1,
        &parties.share,
        &m,
        &FE::zero(),
        &y,
    );
    assert_eq!(r.err(), Some(LockError::BadNIZK));
    let msg1_2 = LockParty1Message2::second_message(
        &msg0_1,
        decommit,
        &parties.ek,
        &parties.x_1,
        &parties.share,
        &m,
        &r_1,
        &y,
    )
    .expect("party 1 accepts");
    let r = LockParty0Message2::second_message(
        &parties.dk,
        msg1_2,
        msg1_1,
        &m,
        FE::zero(),
        &y,
        &parties.pk,
    );
    assert_eq!(r.err(), Some(LockError::BadNIZK));
}
