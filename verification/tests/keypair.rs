use nkeys::error::ErrorKind;
use nkeys::{KeyPair, KeyPairType};

#[test]
fn seed_encode_decode_round_trip() {
    let pair = KeyPair::new_user();
    let s = pair.seed().unwrap();
    let p = pair.public_key();

    let pair2 = KeyPair::from_seed(s.as_str()).unwrap();
    let s2 = pair2.seed().unwrap();

    assert_eq!(s, s2);
    assert_eq!(p, pair2.public_key());
}

#[test]
fn roundtrip_encoding_go_compat() {
    // A known seed and the public key that belongs to it
    let seed = "SUAMLDHY5IDE6E2UNGZYHSV5ANAY6VKOA45OAIM3SQJVXOVCBEICETAGXE";
    let pk = "UDWCI7RVPLNUHT2OUO32YSKN3YZ33KKXNNCQ6HNU3IQYVGSPVXFR57A5";

    let pair = KeyPair::from_seed(seed).unwrap();

    assert_eq!(pair.seed().unwrap(), seed);
    assert_eq!(pair.public_key(), pk);
}

#[test]
fn from_seed_rejects_bad_prefix() {
    let seed = "FAAPN4W3EG6KCJGUQTKTJ5GSB5NHK5CHAJL4DBGFUM3HHROI4XUEP4OBK4";
    let pair = KeyPair::from_seed(seed);
    assert!(pair.is_err());
    if let Err(e) = pair {
        assert_eq!(e.kind(), ErrorKind::InvalidPrefix);
    }
}

#[test]
fn from_seed_rejects_bad_length() {
    let seed = "SAAPN4W3EG6KCJGUQTKTJ5GSB5NHK5CHAJL4DBGFUM3SAAPN4W3EG6KCJGUQTKTJ5GSB5NHK5";
    let pair = KeyPair::from_seed(seed);
    assert!(pair.is_err());
    if let Err(e) = pair {
        assert_eq!(e.kind(), ErrorKind::InvalidSeedLength);
    }
}

#[test]
fn from_seed_rejects_invalid_encoding() {
    let badseed = "SAAPN4W3EG6KCJGUQTKTJ5!#B5NHK5CHAJL4DBGFUM3HHROI4XUEP4OBK4";
    let pair = KeyPair::from_seed(badseed);
    assert!(pair.is_err());
    if let Err(e) = pair {
        assert_eq!(e.kind(), ErrorKind::CodecFailure);
    }
}

#[test]
fn sign_and_verify() {
    let user = KeyPair::new_user();
    let msg = b"this is super secret";

    let sig = user.sign(msg).unwrap();

    let res = user.verify(msg, sig.as_slice());
    assert!(res.is_ok());
}

#[test]
fn sign_and_verify_rejects_mismatched_sig() {
    let user = KeyPair::new_user();
    let msg = b"this is super secret";

    let sig = user.sign(msg).unwrap();
    let res = user.verify(b"this doesn't match the message", sig.as_slice());
    assert!(res.is_err());
}

#[test]
fn public_key_round_trip() {
    let account =
        KeyPair::from_public_key("UDWCI7RVPLNUHT2OUO32YSKN3YZ33KKXNNCQ6HNU3IQYVGSPVXFR57A5")
            .unwrap();
    let pk = account.public_key();
    assert_eq!(pk, "UDWCI7RVPLNUHT2OUO32YSKN3YZ33KKXNNCQ6HNU3IQYVGSPVXFR57A5");
}

#[test]
fn user_has_proper_prefix() {
    let module = KeyPair::new_user();
    assert!(module.seed().unwrap().starts_with("SU"));
    assert!(module.public_key().starts_with('U'));
}
