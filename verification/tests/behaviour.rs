use nkeys::cli::{CommandClient, CommandParseErr, CommandServer, Output, OutputParseErr};
use nkeys::crc::{crc16, extract_crc, push_crc, valid_checksum};
use nkeys::error::{Error, ErrorKind};
use nkeys::sealing::{open_with_secret, seal_for, SealingKeys};
use nkeys::{KeyPair, KeyPairType};

const KNOWN_SEED: &str = "SUAMLDHY5IDE6E2UNGZYHSV5ANAY6VKOA45OAIM3SQJVXOVCBEICETAGXE";
const KNOWN_PK: &str = "UDWCI7RVPLNUHT2OUO32YSKN3YZ33KKXNNCQ6HNU3IQYVGSPVXFR57A5";

fn kind_of(res: Result<KeyPair, Error>) -> ErrorKind {
    match res {
        Ok(_) => panic!("expected an error"),
        Err(e) => e.kind(),
    }
}

fn text_of_frame(payload: &[u8]) -> String {
    let mut raw = payload.to_vec();
    push_crc(&mut raw);
    data_encoding::BASE32_NOPAD.encode(&raw)
}

#[test]
fn crc16_check_value() {
    assert_eq!(crc16(b"123456789"), 0x31C3);
    assert_eq!(crc16(b""), 0);
}

#[test]
fn push_crc_appends_low_byte_first() {
    let mut data = b"123456789".to_vec();
    push_crc(&mut data);
    assert_eq!(&data[9..], &[0xC3, 0x31]);
    let crc = extract_crc(&mut data);
    assert_eq!(crc, 0x31C3);
    assert_eq!(data, b"123456789".to_vec());
    assert!(valid_checksum(&data, crc));
    assert!(!valid_checksum(&data, crc ^ 1));
}

#[test]
fn prefix_bytes_name_types() {
    assert_eq!(KeyPairType::from(144u8), KeyPairType::Server);
    assert_eq!(KeyPairType::from(160u8), KeyPairType::User);
    assert_eq!(KeyPairType::from(24u8), KeyPairType::Device);
    assert_eq!(KeyPairType::from(0u8), KeyPairType::Account);
    assert_eq!(KeyPairType::from(16u8), KeyPairType::Cluster);
    assert_eq!(KeyPairType::from(112u8), KeyPairType::Operator);
    assert_eq!(KeyPairType::from(96u8), KeyPairType::Module);
    assert_eq!(KeyPairType::from(1u8), KeyPairType::User);
}

#[test]
fn key_type_names_in_any_case() {
    assert_eq!(KeyPairType::from_name("user").unwrap(), KeyPairType::User);
    assert_eq!(KeyPairType::from_name("Server").unwrap(), KeyPairType::Server);
    assert_eq!(KeyPairType::from_name("DEVICE").unwrap(), KeyPairType::Device);
    assert_eq!("device".parse::<KeyPairType>().unwrap(), KeyPairType::Device);
    assert_eq!(KeyPairType::from_name("account").unwrap(), KeyPairType::Account);
    assert_eq!(KeyPairType::from_name("Cluster").unwrap(), KeyPairType::Cluster);
    assert_eq!(KeyPairType::from_name("OPERATOR").unwrap(), KeyPairType::Operator);
    assert_eq!("module".parse::<KeyPairType>().unwrap(), KeyPairType::Module);
    match KeyPairType::from_name("admin") {
        Ok(_) => panic!("admin is not a key type"),
        Err(e) => assert_eq!(e.kind(), ErrorKind::IncorrectKeyType),
    }
    assert_eq!(
        KeyPairType::from_uppercase_name(&"USER".to_string()).unwrap(),
        KeyPairType::User
    );
    assert!(KeyPairType::from_uppercase_name(&"user".to_string()).is_err());
}

#[test]
fn server_and_device_prefixes() {
    let server = KeyPair::new_server();
    assert!(server.seed().unwrap().starts_with("SS"));
    assert!(server.public_key().starts_with('S'));
    let device = KeyPair::new_device();
    assert!(device.seed().unwrap().starts_with("SD"));
    assert!(device.public_key().starts_with('D'));
}

#[test]
fn encoded_lengths() {
    let pair = KeyPair::new(KeyPairType::Device);
    assert_eq!(pair.seed().unwrap().len(), 58);
    assert_eq!(pair.public_key().len(), 56);
}

#[test]
fn public_only_pair_cannot_sign_or_give_seed() {
    let pair = KeyPair::from_public_key(KNOWN_PK).unwrap();
    match pair.seed() {
        Ok(_) => panic!("a public key has no seed"),
        Err(e) => assert_eq!(e.kind(), ErrorKind::IncorrectKeyType),
    }
    match pair.sign(b"message") {
        Ok(_) => panic!("a public key cannot sign"),
        Err(e) => assert_eq!(e.kind(), ErrorKind::SignatureError),
    }
}

#[test]
fn public_key_verifies_what_the_seed_signs() {
    let full = KeyPair::from_seed(KNOWN_SEED).unwrap();
    let public = KeyPair::from_public_key(KNOWN_PK).unwrap();
    let sig = full.sign(b"hello").unwrap();
    assert_eq!(sig.len(), 64);
    assert!(public.verify(b"hello", &sig).is_ok());
    assert_eq!(full.sign(b"hello").unwrap(), sig);
    let mut bad = sig.clone();
    bad[0] ^= 1;
    match public.verify(b"hello", &bad) {
        Ok(()) => panic!("a changed signature must not verify"),
        Err(e) => assert_eq!(e.kind(), ErrorKind::VerifyError),
    }
}

#[test]
fn public_key_of_seed_is_the_go_public_key() {
    let full = KeyPair::from_seed(KNOWN_SEED).unwrap();
    let public = KeyPair::from_public_key(&full.public_key()).unwrap();
    assert_eq!(public.public_key(), KNOWN_PK);
}

#[test]
fn from_public_key_rejects_seed_text() {
    assert_eq!(kind_of(KeyPair::from_public_key(KNOWN_SEED)), ErrorKind::InvalidPrefix);
}

#[test]
fn from_public_key_rejects_bad_checksum() {
    let mut text = KNOWN_PK.to_string();
    text.replace_range(10..11, if &KNOWN_PK[10..11] == "A" { "B" } else { "A" });
    assert_eq!(kind_of(KeyPair::from_public_key(&text)), ErrorKind::ChecksumFailure);
}

#[test]
fn from_public_key_rejects_bad_encoding() {
    assert_eq!(
        kind_of(KeyPair::from_public_key("UDWCI7RVPLNUHT2OUO32YSKN3!#33KKXNNCQ6HNU3IQYVGSPVXFR57A5")),
        ErrorKind::CodecFailure
    );
}

#[test]
fn from_public_key_rejects_short_key() {
    let mut payload = vec![160u8];
    payload.extend_from_slice(&[7u8; 31]);
    let text = text_of_frame(&payload);
    assert_eq!(kind_of(KeyPair::from_public_key(&text)), ErrorKind::VerifyError);
}

#[test]
fn from_public_key_rejects_points_off_the_curve() {
    let mut refused = 0;
    for y in 0u8..32 {
        let mut payload = vec![160u8, y];
        payload.extend_from_slice(&[0u8; 31]);
        let text = text_of_frame(&payload);
        match KeyPair::from_public_key(&text) {
            Ok(pair) => assert_eq!(pair.public_key(), text),
            Err(e) => {
                assert_eq!(e.kind(), ErrorKind::VerifyError);
                refused += 1;
            }
        }
    }
    assert!(refused > 0);
}

#[test]
fn from_public_key_answers_short_decodings() {
    assert_eq!(kind_of(KeyPair::from_public_key("")), ErrorKind::ChecksumFailure);
    assert_eq!(kind_of(KeyPair::from_public_key("AAAA")), ErrorKind::InvalidPrefix);
    assert_eq!(kind_of(KeyPair::from_public_key("AB")), ErrorKind::CodecFailure);
    assert_eq!(KeyPair::from_public_key(KNOWN_PK).unwrap().public_key(), KNOWN_PK);
}

#[test]
fn from_seed_rejects_bad_checksum() {
    let mut text = KNOWN_SEED.to_string();
    text.replace_range(20..21, if &KNOWN_SEED[20..21] == "A" { "B" } else { "A" });
    assert_eq!(kind_of(KeyPair::from_seed(&text)), ErrorKind::ChecksumFailure);
}

#[test]
fn clone_keeps_the_keys() {
    let pair = KeyPair::from_seed(KNOWN_SEED).unwrap();
    let copy = pair.clone();
    assert_eq!(copy.seed().unwrap(), KNOWN_SEED);
    assert_eq!(copy.public_key(), KNOWN_PK);
}

#[test]
fn describe_hides_the_keys() {
    let pair = KeyPair::from_seed(KNOWN_SEED).unwrap();
    assert_eq!(pair.describe(), "KeyPair { kp_type: User, rawkey_kind: Seed, pk: (hidden) }");
    let public = KeyPair::from_public_key(KNOWN_PK).unwrap();
    assert_eq!(public.describe(), "KeyPair { kp_type: User, rawkey_kind: Public, pk: (hidden) }");
}

#[test]
fn error_keeps_kind_and_description() {
    let e = Error::new(ErrorKind::ReadError, Some("cannot read"));
    assert_eq!(e.kind(), ErrorKind::ReadError);
    assert_eq!(e.description(), Some("cannot read".to_string()));
    assert_eq!(Error::new(ErrorKind::IOError, None).description(), None);
}

#[test]
fn command_words() {
    assert_eq!(CommandClient::from_name("sendpk"), Ok(CommandClient::SendPk));
    assert_eq!(CommandClient::from_name("sendmessage"), Ok(CommandClient::SendMessage));
    assert_eq!(CommandClient::from_name("getpk_crypto"), Ok(CommandClient::GetPk_crypto));
    assert_eq!(CommandClient::from_name("SendPk"), Err(OutputParseErr));
    assert_eq!(CommandServer::from_name("getpk"), Ok(CommandServer::GetPk));
    assert_eq!(CommandServer::from_name("getmessage"), Ok(CommandServer::GetMessage));
    assert_eq!(CommandServer::from_name("sendpk_crypto"), Ok(CommandServer::SendPk_crypto));
    assert_eq!(CommandServer::from_name("sendpk"), Err(OutputParseErr));
    assert_eq!(Output::from_name("json"), Ok(Output::JSON));
    assert_eq!(Output::from_name("text"), Ok(Output::Text));
    assert_eq!(Output::from_name("xml"), Err(CommandParseErr));
}

#[test]
fn new_key_types_have_their_letters() {
    let cases = [
        (KeyPair::new_account(), 'A'),
        (KeyPair::new_operator(), 'O'),
        (KeyPair::new_cluster(), 'C'),
        (KeyPair::new_module(), 'M'),
        (KeyPair::new_user(), 'U'),
    ];
    for (pair, letter) in cases.iter() {
        let seed = pair.seed().unwrap();
        assert_eq!(seed.len(), 58);
        assert!(seed.starts_with('S'));
        assert_eq!(seed.chars().nth(1), Some(*letter));
        let pk = pair.public_key();
        assert_eq!(pk.len(), 56);
        assert!(pk.starts_with(*letter));
        let again = KeyPair::from_seed(&seed).unwrap();
        assert_eq!(again.public_key(), pk);
        let public = KeyPair::from_public_key(&pk).unwrap();
        let sig = pair.sign(b"typed").unwrap();
        assert!(public.verify(b"typed", &sig).is_ok());
    }
}

#[test]
fn encodings_use_only_base32_symbols() {
    let pair = KeyPair::from_seed(KNOWN_SEED).unwrap();
    let is_symbol = |c: char| c.is_ascii_uppercase() || ('2'..='7').contains(&c);
    assert!(pair.public_key().chars().all(is_symbol));
    assert!(pair.seed().unwrap().chars().all(is_symbol));
}

#[test]
fn from_seed_bytes_is_deterministic() {
    let a = KeyPair::from_seed_bytes(KeyPairType::Operator, [7u8; 32]);
    let b = KeyPair::from_seed_bytes(KeyPairType::Operator, [7u8; 32]);
    let c = KeyPair::from_seed_bytes(KeyPairType::Operator, [8u8; 32]);
    assert_eq!(a.seed().unwrap(), b.seed().unwrap());
    assert_eq!(a.public_key(), b.public_key());
    assert_ne!(a.public_key(), c.public_key());
    assert!(a.seed().unwrap().starts_with("SO"));
    let read = KeyPair::from_seed(&a.seed().unwrap()).unwrap();
    assert_eq!(read.public_key(), a.public_key());
}

#[test]
fn verify_answers_wrong_signature_lengths() {
    let pair = KeyPair::from_seed(KNOWN_SEED).unwrap();
    let sig = pair.sign(b"hello").unwrap();
    match pair.verify(b"hello", &sig[..63]) {
        Ok(()) => panic!("a short signature must not verify"),
        Err(e) => assert_eq!(e.kind(), ErrorKind::VerifyError),
    }
    match pair.verify(b"hello", &[]) {
        Ok(()) => panic!("an empty signature must not verify"),
        Err(e) => assert_eq!(e.kind(), ErrorKind::VerifyError),
    }
}

#[test]
fn sealed_message_opens_with_the_secret() {
    let keys = SealingKeys::generate();
    let sealed = seal_for(&keys.public_bytes(), b"hello there").unwrap();
    assert_eq!(sealed.len(), 11 + 60);
    assert_eq!(keys.open(&sealed), Some(b"hello there".to_vec()));
    assert_eq!(
        open_with_secret(&keys.secret_bytes(), &sealed),
        Some(b"hello there".to_vec())
    );
    let other = SealingKeys::generate();
    assert_eq!(other.open(&sealed), None);
}

#[test]
fn sealing_refuses_wrong_key_lengths() {
    assert_eq!(seal_for(&[1u8; 31], b"hello"), None);
    let keys = SealingKeys::generate();
    let sealed = seal_for(&keys.public_bytes(), b"hello").unwrap();
    assert_eq!(open_with_secret(&[1u8; 31], &sealed), None);
    assert_eq!(keys.open(&[0u8; 10]), None);
}

#[test]
fn refusals_name_the_offending_value() {
    let description = |res: Result<KeyPair, Error>| match res {
        Ok(_) => panic!("expected an error"),
        Err(e) => e.description(),
    };
    assert_eq!(
        description(KeyPair::from_seed("SUAM")),
        Some("Bad seed length: 4".to_string())
    );
    let mut other = KNOWN_SEED.to_string();
    other.replace_range(0..1, "F");
    assert_eq!(
        description(KeyPair::from_seed(&other)),
        Some("Incorrect byte prefix: F".to_string())
    );
    assert_eq!(
        description(KeyPair::from_public_key(KNOWN_SEED)),
        Some("Not a valid public key prefix: 149".to_string())
    );
}

#[test]
fn refusals_describe_what_failed() {
    let description = |res: Result<KeyPair, Error>| match res {
        Ok(_) => panic!("expected an error"),
        Err(e) => e.description(),
    };
    let mut bad_sum = KNOWN_PK.to_string();
    bad_sum.replace_range(10..11, if &KNOWN_PK[10..11] == "A" { "B" } else { "A" });
    assert_eq!(description(KeyPair::from_public_key(&bad_sum)), Some("Checksum mismatch".to_string()));
    assert_eq!(description(KeyPair::from_public_key("AB")), Some("Invalid base32 encoding".to_string()));
    assert_eq!(description(KeyPair::from_public_key("AAAA")), Some("No public key prefix".to_string()));
    let mut payload = vec![160u8];
    payload.extend_from_slice(&[7u8; 31]);
    assert_eq!(
        description(KeyPair::from_public_key(&text_of_frame(&payload))),
        Some("Could not read public key".to_string())
    );
    let mut bad_seed = KNOWN_SEED.to_string();
    bad_seed.replace_range(20..21, if &KNOWN_SEED[20..21] == "A" { "B" } else { "A" });
    assert_eq!(description(KeyPair::from_seed(&bad_seed)), Some("Checksum mismatch".to_string()));
    let public = KeyPair::from_public_key(KNOWN_PK).unwrap();
    assert_eq!(public.seed().err().unwrap().description(), Some("This keypair has no seed".to_string()));
    assert_eq!(
        public.sign(b"x").err().unwrap().description(),
        Some("Cannot sign without a seed key".to_string())
    );
    assert_eq!(
        public.verify(b"x", &[0u8; 3]).err().unwrap().description(),
        Some("A signature is 64 bytes long".to_string())
    );
    assert_eq!(
        public.verify(b"x", &[0u8; 64]).err().unwrap().description(),
        Some("Signature verification failed".to_string())
    );
    assert_eq!(
        KeyPairType::from_name("admin").err().unwrap().description(),
        Some("Unknown keypair type".to_string())
    );
}

#[test]
fn sealing_needs_a_curve_point() {
    let mut refused = 0;
    for y in 0u8..32 {
        let mut key = vec![y];
        key.extend_from_slice(&[0u8; 31]);
        match seal_for(&key, b"hello") {
            Some(sealed) => assert_eq!(sealed.len(), 5 + 60),
            None => refused += 1,
        }
    }
    assert!(refused > 0);
    assert!(refused < 32);
}
