//! Key pairs, their types, and their text encodings.
use vstd::prelude::*;
use vstd::slice::slice_to_vec;
use vstd::string::{StrSliceExecFns, StringExecFns};
use vstd::utf8::{encode_utf8, is_ascii_chars, is_ascii_chars_encode_utf8};

use crate::crc::{
    crc_bytes, crc_from_bytes, extract_crc, lemma_checksum_round_trip, push_crc, strip_checksum,
    valid_checksum, with_checksum,
};
use crate::crypto::{
    create_seed, ed25519_accepts, ed25519_public_key_of, ed25519_signature_of,
    ed25519_valid_public_key, pk_from_seed, public_key_from_bytes, sign_with_seed, verify_with_key,
};
use crate::encoding::{
    base32_decode, base32_decoding, base32_encode, base32_encoding, base32_len, base32_symbol,
    is_base32_symbol, lemma_encoding_facts,
};
use crate::error::{decimal_text, Error, ErrorKind, Result};

verus! {

/// The length of an encoded seed.
pub const ENCODED_SEED_LENGTH: usize = 58;

/// The high five bits of the first byte of every encoded seed.
pub const PREFIX_BYTE_SEED: u8 = 144;

/// The prefix byte of a server key.
pub const PREFIX_BYTE_SERVER: u8 = 144;

/// The prefix byte of a user key.
pub const PREFIX_BYTE_USER: u8 = 160;

/// The prefix byte of a cluster key.
pub const PREFIX_BYTE_CLUSTER: u8 = 16;

/// The prefix byte of an operator key.
pub const PREFIX_BYTE_OPERATOR: u8 = 112;

/// The prefix byte of a module key.
pub const PREFIX_BYTE_MODULE: u8 = 96;

/// The prefix byte of an account key.
pub const PREFIX_BYTE_ACCOUNT: u8 = 0;

/// The prefix byte of a device key.
pub const PREFIX_BYTE_DEVICE: u8 = 24;

/// The kind of entity that a key pair stands for.
#[derive(Debug, Clone, Copy, PartialEq, Eq, Structural)]
pub enum KeyPairType {
    Server,
    Cluster,
    Operator,
    Account,
    User,
    Module,
    Device,
}

/// The prefix byte that names a key type.
pub open spec fn prefix_byte_of(kp_type: KeyPairType) -> u8 {
    match kp_type {
        KeyPairType::Server => PREFIX_BYTE_SERVER,
        KeyPairType::Cluster => PREFIX_BYTE_CLUSTER,
        KeyPairType::Operator => PREFIX_BYTE_OPERATOR,
        KeyPairType::Account => PREFIX_BYTE_ACCOUNT,
        KeyPairType::User => PREFIX_BYTE_USER,
        KeyPairType::Module => PREFIX_BYTE_MODULE,
        KeyPairType::Device => PREFIX_BYTE_DEVICE,
    }
}

/// The key type that a prefix byte names; an unknown byte names a user.
pub open spec fn kind_of_prefix(prefix: u8) -> KeyPairType {
    if prefix == PREFIX_BYTE_SERVER {
        KeyPairType::Server
    } else if prefix == PREFIX_BYTE_CLUSTER {
        KeyPairType::Cluster
    } else if prefix == PREFIX_BYTE_OPERATOR {
        KeyPairType::Operator
    } else if prefix == PREFIX_BYTE_ACCOUNT {
        KeyPairType::Account
    } else if prefix == PREFIX_BYTE_USER {
        KeyPairType::User
    } else if prefix == PREFIX_BYTE_MODULE {
        KeyPairType::Module
    } else if prefix == PREFIX_BYTE_DEVICE {
        KeyPairType::Device
    } else {
        KeyPairType::User
    }
}

/// Whether a byte is the prefix of a public key.
pub open spec fn is_public_key_prefix(prefix: u8) -> bool {
    prefix == PREFIX_BYTE_SERVER || prefix == PREFIX_BYTE_CLUSTER || prefix == PREFIX_BYTE_OPERATOR
        || prefix == PREFIX_BYTE_ACCOUNT || prefix == PREFIX_BYTE_USER || prefix == PREFIX_BYTE_MODULE
        || prefix == PREFIX_BYTE_DEVICE
}

/// The letter that starts the encoded public key of a type and follows the
/// `S` of its encoded seed.
pub open spec fn type_letter(kp_type: KeyPairType) -> char {
    match kp_type {
        KeyPairType::Server => 'S',
        KeyPairType::Cluster => 'C',
        KeyPairType::Operator => 'O',
        KeyPairType::Account => 'A',
        KeyPairType::User => 'U',
        KeyPairType::Module => 'M',
        KeyPairType::Device => 'D',
    }
}

/// The name of a key type, as `Debug` writes it.
pub open spec fn kind_label(kp_type: KeyPairType) -> Seq<char> {
    match kp_type {
        KeyPairType::Server => "Server"@,
        KeyPairType::Cluster => "Cluster"@,
        KeyPairType::Operator => "Operator"@,
        KeyPairType::Account => "Account"@,
        KeyPairType::User => "User"@,
        KeyPairType::Module => "Module"@,
        KeyPairType::Device => "Device"@,
    }
}

/// The key type named by an upper-case name.
pub open spec fn kind_of_name(name: Seq<char>) -> Option<KeyPairType> {
    if name == "SERVER"@ {
        Some(KeyPairType::Server)
    } else if name == "CLUSTER"@ {
        Some(KeyPairType::Cluster)
    } else if name == "OPERATOR"@ {
        Some(KeyPairType::Operator)
    } else if name == "ACCOUNT"@ {
        Some(KeyPairType::Account)
    } else if name == "USER"@ {
        Some(KeyPairType::User)
    } else if name == "MODULE"@ {
        Some(KeyPairType::Module)
    } else if name == "DEVICE"@ {
        Some(KeyPairType::Device)
    } else {
        None
    }
}

/// What `str::to_uppercase` returns for a text.
pub uninterp spec fn str_uppercase(text: Seq<char>) -> Seq<char>;

/// The upper-case form of an ASCII character: `a` to `z` become `A` to `Z`,
/// every other character stays.
pub open spec fn ascii_uppercase(c: char) -> char {
    if 'a' <= c && c <= 'z' {
        ((c as u32) - 32) as char
    } else {
        c
    }
}

/// The upper-case form of an ASCII text.
pub open spec fn ascii_uppercase_text(text: Seq<char>) -> Seq<char> {
    text.map_values(|c: char| ascii_uppercase(c))
}

/// Calls `str::to_uppercase`.
///
/// Trusted: the result is the named upper-case form of the text, and on an
/// ASCII text it maps `a` to `z` to `A` to `Z` and keeps every other
/// character (the Unicode upper-case mapping of the ASCII range).
#[verifier::external_body]
fn to_uppercase(text: &str) -> (upper: String)
    ensures
        upper@ == str_uppercase(text@),
        is_ascii_chars(text@) ==> upper@ == ascii_uppercase_text(text@),
{
    text.to_uppercase()
}

impl KeyPairType {
    /// The key type of an upper-case name: `SERVER`, `CLUSTER`, `OPERATOR`,
    /// `ACCOUNT`, `USER`, `MODULE` or `DEVICE`.
    pub fn from_uppercase_name(name: &String) -> (res: std::result::Result<KeyPairType, Error>)
        ensures
            match kind_of_name(name@) {
                Some(t) => res == Ok::<KeyPairType, Error>(t),
                None => res matches Err(e) && e@ == ErrorKind::IncorrectKeyType
                    && e.description_text() == Some("Unknown keypair type"@),
            },
    {
        if *name == "SERVER".to_owned() {
            Ok(KeyPairType::Server)
        } else if *name == "CLUSTER".to_owned() {
            Ok(KeyPairType::Cluster)
        } else if *name == "OPERATOR".to_owned() {
            Ok(KeyPairType::Operator)
        } else if *name == "ACCOUNT".to_owned() {
            Ok(KeyPairType::Account)
        } else if *name == "USER".to_owned() {
            Ok(KeyPairType::User)
        } else if *name == "MODULE".to_owned() {
            Ok(KeyPairType::Module)
        } else if *name == "DEVICE".to_owned() {
            Ok(KeyPairType::Device)
        } else {
            Err(Error::new(ErrorKind::IncorrectKeyType, Some("Unknown keypair type")))
        }
    }

    /// The key type named by a text in any case.
    pub fn from_name(text: &str) -> (res: std::result::Result<KeyPairType, Error>)
        ensures
            match kind_of_name(str_uppercase(text@)) {
                Some(t) => res == Ok::<KeyPairType, Error>(t),
                None => res matches Err(e) && e@ == ErrorKind::IncorrectKeyType
                    && e.description_text() == Some("Unknown keypair type"@),
            },
            is_ascii_chars(text@) ==> str_uppercase(text@) == ascii_uppercase_text(text@),
    {
        let upper = to_uppercase(text);
        Self::from_uppercase_name(&upper)
    }
}

impl std::str::FromStr for KeyPairType {
    type Err = Error;

    fn from_str(text: &str) -> (res: std::result::Result<KeyPairType, Error>)
        ensures
            match kind_of_name(str_uppercase(text@)) {
                Some(t) => res == Ok::<KeyPairType, Error>(t),
                None => res matches Err(e) && e@ == ErrorKind::IncorrectKeyType
                    && e.description_text() == Some("Unknown keypair type"@),
            },
            is_ascii_chars(text@) ==> str_uppercase(text@) == ascii_uppercase_text(text@),
    {
        KeyPairType::from_name(text)
    }
}

impl From<u8> for KeyPairType {
    fn from(prefix_byte: u8) -> (kp_type: KeyPairType) {
        if prefix_byte == PREFIX_BYTE_SERVER {
            KeyPairType::Server
        } else if prefix_byte == PREFIX_BYTE_CLUSTER {
            KeyPairType::Cluster
        } else if prefix_byte == PREFIX_BYTE_OPERATOR {
            KeyPairType::Operator
        } else if prefix_byte == PREFIX_BYTE_ACCOUNT {
            KeyPairType::Account
        } else if prefix_byte == PREFIX_BYTE_USER {
            KeyPairType::User
        } else if prefix_byte == PREFIX_BYTE_MODULE {
            KeyPairType::Module
        } else if prefix_byte == PREFIX_BYTE_DEVICE {
            KeyPairType::Device
        } else {
            KeyPairType::User
        }
    }
}

impl vstd::std_specs::convert::FromSpecImpl<u8> for KeyPairType {
    open spec fn obeys_from_spec() -> bool {
        true
    }

    open spec fn from_spec(prefix_byte: u8) -> KeyPairType {
        kind_of_prefix(prefix_byte)
    }
}


/// The payload of an encoded public key: the prefix byte of the type, then
/// the key.
pub open spec fn public_key_payload(kp_type: KeyPairType, key: Seq<u8>) -> Seq<u8> {
    seq![prefix_byte_of(kp_type)] + key
}

/// The payload of an encoded seed: two bytes that hold the seed marker and
/// the prefix byte of the type, then the seed.
pub open spec fn seed_payload(kp_type: KeyPairType, seed: Seq<u8>) -> Seq<u8> {
    let prefix = prefix_byte_of(kp_type);
    seq![PREFIX_BYTE_SEED | (prefix >> 5u8), (prefix & 31u8) << 3u8] + seed
}

/// The text of a public key of a type.
pub open spec fn encoded_public_key(kp_type: KeyPairType, key: Seq<u8>) -> Seq<char> {
    base32_encoding(with_checksum(public_key_payload(kp_type, key)))
}

/// The text of a seed of a type.
pub open spec fn encoded_seed(kp_type: KeyPairType, seed: Seq<u8>) -> Seq<char> {
    base32_encoding(with_checksum(seed_payload(kp_type, seed)))
}

/// The payload of a text: base32 decoding, then the checksum checked and
/// stripped.
pub open spec fn payload_decoding(text: Seq<char>) -> std::result::Result<Seq<u8>, ErrorKind> {
    match base32_decoding(text) {
        None => Err(ErrorKind::CodecFailure),
        Some(frame) => match strip_checksum(frame) {
            None => Err(ErrorKind::ChecksumFailure),
            Some(payload) => Ok(payload),
        },
    }
}

/// Decoding the text of a payload (the payload and its checksum, in base32)
/// gives the payload back.
pub proof fn lemma_payload_text_round_trip(payload: Seq<u8>)
    ensures
        payload_decoding(base32_encoding(with_checksum(payload))) == Ok::<Seq<u8>, ErrorKind>(
            payload,
        ),
{
    lemma_encoding_facts(with_checksum(payload));
    lemma_checksum_round_trip(payload);
}

/// The type and seed that a seed payload holds: two bytes that carry the
/// seed marker and the prefix byte, then 32 seed bytes.
pub open spec fn seed_of_payload(raw: Seq<u8>) -> std::result::Result<(KeyPairType, Seq<u8>), ErrorKind> {
    if raw.len() != 34 {
        Err(ErrorKind::InvalidSeedLength)
    } else if raw[0] & 248u8 != PREFIX_BYTE_SEED {
        Err(ErrorKind::InvalidPrefix)
    } else {
        Ok(
            (
                kind_of_prefix(((raw[0] & 7u8) << 5u8) | ((raw[1] & 248u8) >> 3u8)),
                raw.subrange(2, raw.len() as int),
            ),
        )
    }
}

/// The type and seed that an encoded seed holds, or the kind of error with
/// which it is refused.  The checks come in this order: the length of the
/// text in bytes, its base32 decoding, the seed marker in the first decoded
/// byte, and the checksum.
pub open spec fn seed_decoding(text: Seq<char>) -> std::result::Result<(KeyPairType, Seq<u8>), ErrorKind> {
    if encode_utf8(text).len() != ENCODED_SEED_LENGTH {
        Err(ErrorKind::InvalidSeedLength)
    } else {
        match base32_decoding(text) {
            None => Err(ErrorKind::CodecFailure),
            Some(frame) => if frame[0] & 248u8 != PREFIX_BYTE_SEED {
                Err(ErrorKind::InvalidPrefix)
            } else {
                match strip_checksum(frame) {
                    None => Err(ErrorKind::ChecksumFailure),
                    Some(raw) => seed_of_payload(raw),
                }
            },
        }
    }
}

/// The type and key that a public key payload holds.
pub open spec fn public_key_of_payload(raw: Seq<u8>) -> std::result::Result<(KeyPairType, Seq<u8>), ErrorKind> {
    if raw.len() == 0 || !is_public_key_prefix(raw[0]) {
        Err(ErrorKind::InvalidPrefix)
    } else if !(raw.len() == 33 && ed25519_valid_public_key(raw.drop_first())) {
        Err(ErrorKind::VerifyError)
    } else {
        Ok((kind_of_prefix(raw[0]), raw.drop_first()))
    }
}

/// The type and key that an encoded public key holds, or the kind of error
/// with which it is refused.
pub open spec fn public_key_decoding(text: Seq<char>) -> std::result::Result<(KeyPairType, Seq<u8>), ErrorKind> {
    match payload_decoding(text) {
        Err(kind) => Err(kind),
        Ok(raw) => public_key_of_payload(raw),
    }
}

/// A key pair seen as its type, its seed where it has one, and its public key.
pub struct KeyPairModel {
    pub kp_type: KeyPairType,
    pub seed: Option<Seq<u8>>,
    pub public_key: Seq<u8>,
}

impl KeyPairModel {
    /// The same key pair without its seed.
    pub open spec fn public_part(self) -> KeyPairModel {
        KeyPairModel { seed: None, ..self }
    }

    /// The public key is a valid 32-byte key, and is the key of the seed
    /// where there is one.
    pub open spec fn wf(self) -> bool {
        &&& self.public_key.len() == 32
        &&& ed25519_valid_public_key(self.public_key)
        &&& self.seed matches Some(seed) ==> {
            &&& seed.len() == 32
            &&& self.public_key == ed25519_public_key_of(seed)
        }
    }
}

/// The key pair that `from_seed` reads from a text, or the kind of error
/// with which it refuses the text.
pub open spec fn seed_reading(text: Seq<char>) -> std::result::Result<KeyPairModel, ErrorKind> {
    match seed_decoding(text) {
        Ok((kp_type, seed)) => Ok(
            KeyPairModel { kp_type, seed: Some(seed), public_key: ed25519_public_key_of(seed) },
        ),
        Err(kind) => Err(kind),
    }
}

/// The key pair that `from_public_key` reads from a text, or the kind of
/// error with which it refuses the text.
pub open spec fn public_key_reading(text: Seq<char>) -> std::result::Result<KeyPairModel, ErrorKind> {
    match public_key_decoding(text) {
        Ok((kp_type, key)) => Ok(KeyPairModel { kp_type, seed: None, public_key: key }),
        Err(kind) => Err(kind),
    }
}

/// The description with which a text whose payload does not decode is
/// refused.
pub open spec fn payload_refusal(text: Seq<char>) -> Seq<char> {
    match base32_decoding(text) {
        None => "Invalid base32 encoding"@,
        Some(_) => "Checksum mismatch"@,
    }
}

/// The description with which `from_public_key` refuses a text.
pub open spec fn public_key_refusal(text: Seq<char>) -> Seq<char> {
    match payload_decoding(text) {
        Err(_) => payload_refusal(text),
        Ok(raw) => if raw.len() == 0 {
            "No public key prefix"@
        } else if !is_public_key_prefix(raw[0]) {
            "Not a valid public key prefix"@ + ": "@ + decimal_text(raw[0] as nat)
        } else {
            "Could not read public key"@
        },
    }
}

/// The description with which `from_seed` refuses a text.
pub open spec fn seed_refusal(text: Seq<char>) -> Seq<char> {
    if encode_utf8(text).len() != ENCODED_SEED_LENGTH {
        "Bad seed length"@ + ": "@ + decimal_text(encode_utf8(text).len())
    } else {
        match base32_decoding(text) {
            None => "Invalid base32 encoding"@,
            Some(frame) => if frame[0] & 248u8 != PREFIX_BYTE_SEED {
                "Incorrect byte prefix"@ + ": "@ + text.take(1)
            } else {
                "Checksum mismatch"@
            },
        }
    }
}

/// A result seen through the model of its key pair or the kind of its error.
pub open spec fn model_of(res: &Result<KeyPair>) -> std::result::Result<KeyPairModel, ErrorKind> {
    match res {
        Ok(kp) => Ok(kp@),
        Err(e) => Err(e@),
    }
}

#[derive(Clone, Copy)]
enum RawKeyKind {
    Seed([u8; 32]),
    Public,
}

/// The main interface used for reading and writing nkey-encoded key pairs,
/// including seeds and public keys.
pub struct KeyPair {
    kp_type: KeyPairType,
    rawkey_kind: RawKeyKind,
    pk: [u8; 32],
}

impl View for KeyPair {
    type V = KeyPairModel;

    closed spec fn view(&self) -> KeyPairModel {
        KeyPairModel {
            kp_type: self.kp_type,
            seed: match self.rawkey_kind {
                RawKeyKind::Seed(seed) => Some(seed@),
                RawKeyKind::Public => None,
            },
            public_key: self.pk@,
        }
    }
}

impl KeyPair {
    /// Every key pair is well formed.
    #[verifier::type_invariant]
    spec fn inv(self) -> bool {
        self@.wf()
    }
}

impl Clone for KeyPair {
    fn clone(&self) -> (copy: KeyPair)
        ensures
            copy@ == self@,
    {
        proof {
            use_type_invariant(self);
        }
        KeyPair { kp_type: self.kp_type, rawkey_kind: self.rawkey_kind, pk: self.pk }
    }
}

/// The prefix byte of a key type.
fn get_prefix_byte(kp_type: &KeyPairType) -> (prefix: u8)
    ensures
        prefix == prefix_byte_of(*kp_type),
{
    match kp_type {
        KeyPairType::Server => PREFIX_BYTE_SERVER,
        KeyPairType::Cluster => PREFIX_BYTE_CLUSTER,
        KeyPairType::Operator => PREFIX_BYTE_OPERATOR,
        KeyPairType::Account => PREFIX_BYTE_ACCOUNT,
        KeyPairType::User => PREFIX_BYTE_USER,
        KeyPairType::Module => PREFIX_BYTE_MODULE,
        KeyPairType::Device => PREFIX_BYTE_DEVICE,
    }
}

/// Whether a byte is the prefix of a public key.
fn valid_public_key_prefix(prefix: u8) -> (valid: bool)
    ensures
        valid == is_public_key_prefix(prefix),
{
    prefix == PREFIX_BYTE_SERVER || prefix == PREFIX_BYTE_CLUSTER || prefix == PREFIX_BYTE_OPERATOR
        || prefix == PREFIX_BYTE_ACCOUNT || prefix == PREFIX_BYTE_USER || prefix == PREFIX_BYTE_MODULE
        || prefix == PREFIX_BYTE_DEVICE
}

/// The text of a payload: the payload and its checksum, in base32.
/// Decoding the text gives the payload back.
fn encode_raw(raw: &mut Vec<u8>) -> (text: String)
    ensures
        text@ == base32_encoding(with_checksum(old(raw)@)),
        payload_decoding(text@) == Ok::<Seq<u8>, ErrorKind>(old(raw)@),
        is_ascii_chars(text@),
        text@.len() == base32_len(old(raw)@.len() + 2),
        forall|i: int| 0 <= i < text@.len() ==> is_base32_symbol(#[trigger] text@[i]),
        old(raw)@.len() >= 1 ==> text@[0] == base32_symbol(old(raw)@[0] >> 3u8),
        old(raw)@.len() >= 2 ==> text@[1] == base32_symbol(
            ((old(raw)@[0] & 7u8) << 2u8) | (old(raw)@[1] >> 6u8),
        ),
{
    push_crc(raw);
    let text = base32_encode(raw.as_slice());
    proof {
        lemma_payload_text_round_trip(old(raw)@);
    }
    text
}

/// Decodes a text and checks and strips its checksum.
fn decode_raw(raw: &str) -> (res: Result<Vec<u8>>)
    ensures
        match payload_decoding(raw@) {
            Ok(payload) => res matches Ok(v) && v@ == payload,
            Err(kind) => res matches Err(e) && e@ == kind,
        },
        res matches Ok(v) ==> base32_encoding(with_checksum(v@)) == raw@,
        res matches Err(e) ==> e.description_text() == Some(payload_refusal(raw@)),
{
    match base32_decode(raw) {
        Err(_) => Err(Error::new(ErrorKind::CodecFailure, Some("Invalid base32 encoding"))),
        Ok(decoded) => {
            if decoded.len() < 2 {
                return Err(Error::new(ErrorKind::ChecksumFailure, Some("Checksum mismatch")));
            }
            let mut b32_decoded = decoded;
            let checksum = extract_crc(&mut b32_decoded);
            let v_checksum = valid_checksum(b32_decoded.as_slice(), checksum);
            if !v_checksum {
                Err(Error::new(ErrorKind::ChecksumFailure, Some("Checksum mismatch")))
            } else {
                proof {
                    lemma_stripped_frame(decoded@);
                }
                Ok(b32_decoded)
            }
        },
    }
}

/// The seed marker and the prefix byte survive the two seed bytes.
proof fn lemma_seed_prefix_bits(prefix: u8)
    ensures
        (PREFIX_BYTE_SEED | (prefix >> 5u8)) & 248u8 == PREFIX_BYTE_SEED,
        ((((PREFIX_BYTE_SEED | (prefix >> 5u8)) & 7u8) << 5u8) | ((((prefix & 31u8) << 3u8) & 248u8)
            >> 3u8)) == prefix,
        (((PREFIX_BYTE_SEED | (prefix >> 5u8)) & 7u8) << 2u8) | (((prefix & 31u8) << 3u8) >> 6u8)
            == prefix >> 3u8,
        (PREFIX_BYTE_SEED | (prefix >> 5u8)) >> 3u8 == 18u8,
{
    assert((144u8 | (prefix >> 5u8)) & 248u8 == 144u8) by (bit_vector);
    assert(((((144u8 | (prefix >> 5u8)) & 7u8) << 5u8) | ((((prefix & 31u8) << 3u8) & 248u8)
        >> 3u8)) == prefix) by (bit_vector);
    assert((((144u8 | (prefix >> 5u8)) & 7u8) << 2u8) | (((prefix & 31u8) << 3u8) >> 6u8) == prefix
        >> 3u8) by (bit_vector);
    assert((144u8 | (prefix >> 5u8)) >> 3u8 == 18u8) by (bit_vector);
}

/// The prefix byte of a key type names that type, is a public key prefix,
/// and its top five bits are the base32 symbol of the type's letter.
pub proof fn lemma_prefix_round_trip(kp_type: KeyPairType)
    ensures
        kind_of_prefix(prefix_byte_of(kp_type)) == kp_type,
        is_public_key_prefix(prefix_byte_of(kp_type)),
        base32_symbol(prefix_byte_of(kp_type) >> 3u8) == type_letter(kp_type),
{
    assert(144u8 >> 3u8 == 18u8) by (bit_vector);
    assert(160u8 >> 3u8 == 20u8) by (bit_vector);
    assert(24u8 >> 3u8 == 3u8) by (bit_vector);
    assert(16u8 >> 3u8 == 2u8) by (bit_vector);
    assert(112u8 >> 3u8 == 14u8) by (bit_vector);
    assert(96u8 >> 3u8 == 12u8) by (bit_vector);
    assert(0u8 >> 3u8 == 0u8) by (bit_vector);
}

/// A frame whose checksum matches is its payload followed by that checksum.
pub proof fn lemma_stripped_frame(frame: Seq<u8>)
    requires
        strip_checksum(frame) is Some,
    ensures
        frame == with_checksum(strip_checksum(frame)->0),
{
    let payload = strip_checksum(frame)->0;
    let low = frame[frame.len() - 2];
    let high = frame[frame.len() - 1];
    assert(((((high as u16) << 8u16) | (low as u16)) & 0xffu16) as u8 == low) by (bit_vector);
    assert(((((high as u16) << 8u16) | (low as u16)) >> 8u16) as u8 == high) by (bit_vector);
    assert(crc_bytes(crc_from_bytes(low, high)) =~= seq![low, high]);
    assert(frame =~= with_checksum(payload));
}

/// The prefix bytes are the constants of the nkeys format: server 18 << 3,
/// cluster 2 << 3, operator 14 << 3, account 0, user 20 << 3, module
/// 12 << 3, device 3 << 3, and the seed marker 18 << 3.  A byte is a public
/// key prefix exactly when it is one of them; it then reads as the type that
/// it is the prefix of, and any other byte reads as a user.
pub proof fn lemma_prefix_constants(p: u8)
    ensures
        prefix_byte_of(KeyPairType::Server) == 144u8,
        prefix_byte_of(KeyPairType::Cluster) == 16u8,
        prefix_byte_of(KeyPairType::Operator) == 112u8,
        prefix_byte_of(KeyPairType::Account) == 0u8,
        prefix_byte_of(KeyPairType::User) == 160u8,
        prefix_byte_of(KeyPairType::Module) == 96u8,
        prefix_byte_of(KeyPairType::Device) == 24u8,
        PREFIX_BYTE_SEED == 144u8,
        is_public_key_prefix(p) <==> (p == 144u8 || p == 16u8 || p == 112u8 || p == 0u8 || p
            == 160u8 || p == 96u8 || p == 24u8),
        is_public_key_prefix(p) ==> prefix_byte_of(kind_of_prefix(p)) == p,
        !is_public_key_prefix(p) ==> kind_of_prefix(p) == KeyPairType::User,
{
}

/// The text of a public key decodes to the type's prefix byte, the key and
/// the CRC-16 of those bytes.
pub proof fn lemma_public_key_text(kp_type: KeyPairType, key: Seq<u8>)
    ensures
        base32_decoding(encoded_public_key(kp_type, key)) == Some(
            with_checksum(seq![prefix_byte_of(kp_type)] + key),
        ),
{
    assert(public_key_payload(kp_type, key) =~= seq![prefix_byte_of(kp_type)] + key);
    lemma_encoding_facts(with_checksum(seq![prefix_byte_of(kp_type)] + key));
}

/// The base32 text of a type's prefix byte, a valid 32-byte key and their
/// CRC-16 reads as the public-only key pair of that type and key.
pub proof fn lemma_public_key_reading(kp_type: KeyPairType, key: Seq<u8>)
    requires
        key.len() == 32,
        ed25519_valid_public_key(key),
    ensures
        public_key_reading(base32_encoding(with_checksum(seq![prefix_byte_of(kp_type)] + key)))
            == Ok::<KeyPairModel, ErrorKind>(
            KeyPairModel { kp_type, seed: None, public_key: key },
        ),
{
    let payload = seq![prefix_byte_of(kp_type)] + key;
    lemma_payload_text_round_trip(payload);
    lemma_prefix_round_trip(kp_type);
    assert(payload.drop_first() =~= key);
}

/// A public key text that reads is the base32 of the prefix byte of the
/// type read, the key read, and the CRC-16 of those bytes.
pub proof fn lemma_public_key_reading_checks(text: Seq<char>)
    requires
        public_key_reading(text) is Ok,
    ensures
        base32_decoding(text) == Some(
            with_checksum(
                seq![prefix_byte_of(public_key_reading(text)->Ok_0.kp_type)] + public_key_reading(
                    text,
                )->Ok_0.public_key,
            ),
        ),
{
    let frame = base32_decoding(text)->0;
    let raw = strip_checksum(frame)->0;
    lemma_stripped_frame(frame);
    lemma_prefix_constants(raw[0]);
    assert(raw =~= seq![raw[0]] + raw.drop_first());
}

/// The text of a seed decodes to two bytes, the seed marker with the top
/// three bits of the type's prefix byte and then its low five bits, the seed,
/// and the CRC-16 of those bytes.
pub proof fn lemma_seed_text(kp_type: KeyPairType, seed: Seq<u8>)
    ensures
        base32_decoding(encoded_seed(kp_type, seed)) == Some(
            with_checksum(
                seq![
                    PREFIX_BYTE_SEED | (prefix_byte_of(kp_type) >> 5u8),
                    (prefix_byte_of(kp_type) & 31u8) << 3u8,
                ] + seed,
            ),
        ),
{
    let payload = seq![
        PREFIX_BYTE_SEED | (prefix_byte_of(kp_type) >> 5u8),
        (prefix_byte_of(kp_type) & 31u8) << 3u8,
    ] + seed;
    assert(seed_payload(kp_type, seed) =~= payload);
    lemma_encoding_facts(with_checksum(payload));
}

/// The base32 text of the two seed bytes of a type, a 32-byte seed and their
/// CRC-16 reads as the key pair of that type and seed.
pub proof fn lemma_seed_reading(kp_type: KeyPairType, seed: Seq<u8>)
    requires
        seed.len() == 32,
    ensures
        seed_reading(
            base32_encoding(
                with_checksum(
                    seq![
                        PREFIX_BYTE_SEED | (prefix_byte_of(kp_type) >> 5u8),
                        (prefix_byte_of(kp_type) & 31u8) << 3u8,
                    ] + seed,
                ),
            ),
        ) == Ok::<KeyPairModel, ErrorKind>(
            KeyPairModel {
                kp_type,
                seed: Some(seed),
                public_key: ed25519_public_key_of(seed),
            },
        ),
{
    let payload = seq![
        PREFIX_BYTE_SEED | (prefix_byte_of(kp_type) >> 5u8),
        (prefix_byte_of(kp_type) & 31u8) << 3u8,
    ] + seed;
    assert(seed_payload(kp_type, seed) =~= payload);
    let frame = with_checksum(payload);
    let text = base32_encoding(frame);
    lemma_encoding_facts(frame);
    lemma_checksum_round_trip(payload);
    lemma_seed_payload_round_trip(kp_type, seed);
    lemma_seed_prefix_bits(prefix_byte_of(kp_type));
    is_ascii_chars_encode_utf8(text);
    assert(frame[0] == payload[0]);
}

/// A seed text that reads is the base32 of 36 bytes: the seed marker, the
/// type, the seed, and the CRC-16 of the first 34 bytes; the key pair read
/// holds the seed bytes and the type whose prefix the two first bytes carry.
pub proof fn lemma_seed_reading_checks(text: Seq<char>)
    requires
        seed_reading(text) is Ok,
    ensures
        base32_decoding(text) matches Some(frame) && {
            &&& frame.len() == 36
            &&& strip_checksum(frame) == Some(frame.subrange(0, 34))
            &&& frame[0] & 248u8 == PREFIX_BYTE_SEED
            &&& seed_reading(text)->Ok_0.seed == Some(frame.subrange(2, 34))
            &&& seed_reading(text)->Ok_0.kp_type == kind_of_prefix(
                ((frame[0] & 7u8) << 5u8) | ((frame[1] & 248u8) >> 3u8),
            )
        },
{
    let frame = base32_decoding(text)->0;
    let raw = strip_checksum(frame)->0;
    assert(raw.subrange(2, raw.len() as int) =~= frame.subrange(2, 34));
}

/// Reading a seed payload gives back the type and the seed that it was made
/// of.
pub proof fn lemma_seed_payload_round_trip(kp_type: KeyPairType, seed: Seq<u8>)
    requires
        seed.len() == 32,
    ensures
        seed_of_payload(seed_payload(kp_type, seed)) == Ok::<(KeyPairType, Seq<u8>), ErrorKind>(
            (kp_type, seed),
        ),
{
    let payload = seed_payload(kp_type, seed);
    lemma_seed_prefix_bits(prefix_byte_of(kp_type));
    lemma_prefix_round_trip(kp_type);
    assert(payload.subrange(2, payload.len() as int) =~= seed);
}

/// Reading a public key payload gives back the type and the key that it was
/// made of, where the key is a valid 32-byte key.
pub proof fn lemma_public_key_payload_round_trip(kp_type: KeyPairType, key: Seq<u8>)
    requires
        key.len() == 32,
        ed25519_valid_public_key(key),
    ensures
        public_key_of_payload(public_key_payload(kp_type, key)) == Ok::<
            (KeyPairType, Seq<u8>),
            ErrorKind,
        >((kp_type, key)),
{
    lemma_prefix_round_trip(kp_type);
    assert(public_key_payload(kp_type, key).drop_first() =~= key);
}

impl KeyPair {
    /// Creates the key pair of the given type that holds the given seed.
    pub fn from_seed_bytes(kp_type: KeyPairType, seed: [u8; 32]) -> (kp: KeyPair)
        ensures
            kp@ == (KeyPairModel {
                kp_type,
                seed: Some(seed@),
                public_key: ed25519_public_key_of(seed@),
            }),
            kp@.wf(),
    {
        let pk = pk_from_seed(&seed);
        KeyPair { kp_type, pk, rawkey_kind: RawKeyKind::Seed(seed) }
    }

    /// Creates a new key pair of the given type from a random seed.
    pub fn new(kp_type: KeyPairType) -> (kp: KeyPair)
        ensures
            kp@.kp_type == kp_type,
            kp@.seed is Some,
            kp@.wf(),
    {
        let seed = create_seed();
        Self::from_seed_bytes(kp_type, seed)
    }

    /// Creates a new account key pair with a seed that has an **A** prefix
    pub fn new_account() -> (kp: KeyPair)
        ensures
            kp@.kp_type == KeyPairType::Account,
            kp@.seed is Some,
            kp@.wf(),
    {
        Self::new(KeyPairType::Account)
    }

    /// Creates a new operator key pair with a seed that has an **O** prefix
    pub fn new_operator() -> (kp: KeyPair)
        ensures
            kp@.kp_type == KeyPairType::Operator,
            kp@.seed is Some,
            kp@.wf(),
    {
        Self::new(KeyPairType::Operator)
    }

    /// Creates a new cluster key pair with a seed that has the **C** prefix
    pub fn new_cluster() -> (kp: KeyPair)
        ensures
            kp@.kp_type == KeyPairType::Cluster,
            kp@.seed is Some,
            kp@.wf(),
    {
        Self::new(KeyPairType::Cluster)
    }

    /// Creates a new module (e.g. WebAssembly) key pair with a seed that has
    /// the **M** prefix
    pub fn new_module() -> (kp: KeyPair)
        ensures
            kp@.kp_type == KeyPairType::Module,
            kp@.seed is Some,
            kp@.wf(),
    {
        Self::new(KeyPairType::Module)
    }

    /// Creates a new user key pair with a seed that has a **U** prefix
    pub fn new_user() -> (kp: KeyPair)
        ensures
            kp@.kp_type == KeyPairType::User,
            kp@.seed is Some,
            kp@.wf(),
    {
        Self::new(KeyPairType::User)
    }

    /// Creates a new server key pair with a seed that has the **S** prefix
    pub fn new_server() -> (kp: KeyPair)
        ensures
            kp@.kp_type == KeyPairType::Server,
            kp@.seed is Some,
            kp@.wf(),
    {
        Self::new(KeyPairType::Server)
    }

    /// Creates a new device key pair with a seed that has the **D** prefix
    pub fn new_device() -> (kp: KeyPair)
        ensures
            kp@.kp_type == KeyPairType::Device,
            kp@.seed is Some,
            kp@.wf(),
    {
        Self::new(KeyPairType::Device)
    }

    /// Describes this key pair for people: its type and whether it holds a
    /// seed, never its keys.
    pub fn describe(&self) -> (text: String)
        ensures
            text@ == "KeyPair { kp_type: "@ + kind_label(self@.kp_type) + ", rawkey_kind: "@ + (
            if self@.seed is Some {
                "Seed"@
            } else {
                "Public"@
            }) + ", pk: (hidden) }"@,
    {
        let mut text = "KeyPair { kp_type: ".to_owned();
        match self.kp_type {
            KeyPairType::Server => text.append("Server"),
            KeyPairType::Cluster => text.append("Cluster"),
            KeyPairType::Operator => text.append("Operator"),
            KeyPairType::Account => text.append("Account"),
            KeyPairType::Module => text.append("Module"),
            KeyPairType::User => text.append("User"),
            KeyPairType::Device => text.append("Device"),
        }
        text.append(", rawkey_kind: ");
        match self.rawkey_kind {
            RawKeyKind::Seed(_) => text.append("Seed"),
            RawKeyKind::Public => text.append("Public"),
        }
        text.append(", pk: (hidden) }");
        text
    }

    /// Returns the encoded public key of this key pair.  It starts with the
    /// letter of the key type, and decodes back to the type and the key.
    pub fn public_key(&self) -> (text: String)
        ensures
            text@ == encoded_public_key(self@.kp_type, self@.public_key),
            base32_decoding(text@) == Some(
                with_checksum(seq![prefix_byte_of(self@.kp_type)] + self@.public_key),
            ),
            public_key_reading(text@) == Ok::<KeyPairModel, ErrorKind>(self@.public_part()),
            text@.len() == 56,
            text@[0] == type_letter(self@.kp_type),
            forall|i: int| 0 <= i < text@.len() ==> is_base32_symbol(#[trigger] text@[i]),
    {
        proof {
            use_type_invariant(self);
        }
        let mut raw: Vec<u8> = Vec::new();
        raw.push(get_prefix_byte(&self.kp_type));
        let mut i: usize = 0;
        while i < 32
            invariant
                i <= 32,
                raw@ == seq![prefix_byte_of(self.kp_type)] + self.pk@.take(i as int),
            decreases 32 - i,
        {
            raw.push(self.pk[i]);
            proof {
                assert(self.pk@.take(i + 1) =~= self.pk@.take(i as int).push(self.pk@[i as int]));
            }
            i = i + 1;
        }
        proof {
            assert(self.pk@.take(32) =~= self.pk@);
        }
        let text = encode_raw(&mut raw);
        proof {
            lemma_public_key_payload_round_trip(self@.kp_type, self@.public_key);
            lemma_prefix_round_trip(self@.kp_type);
            lemma_public_key_text(self@.kp_type, self@.public_key);
        }
        text
    }

    /// Attempts to sign the given input with the key pair's seed.  The
    /// signature is accepted under the key pair's public key.
    pub fn sign(&self, input: &[u8]) -> (res: Result<Vec<u8>>)
        ensures
            match self@.seed {
                Some(seed) => res matches Ok(sig) && {
                    &&& sig@ == ed25519_signature_of(seed, input@)
                    &&& sig@.len() == 64
                    &&& ed25519_accepts(self@.public_key, input@, sig@)
                },
                None => res matches Err(e) && e@ == ErrorKind::SignatureError
                    && e.description_text() == Some("Cannot sign without a seed key"@),
            },
    {
        proof {
            use_type_invariant(self);
        }
        match self.rawkey_kind {
            RawKeyKind::Seed(seed) => {
                let sig = sign_with_seed(&seed, input);
                Ok(slice_to_vec(sig.as_slice()))
            },
            RawKeyKind::Public => {
                Err(Error::new(ErrorKind::SignatureError, Some("Cannot sign without a seed key")))
            },
        }
    }

    /// Attempts to verify that the given signature is valid for the given
    /// input.
    pub fn verify(&self, input: &[u8], sig: &[u8]) -> (res: Result<()>)
        ensures
            res is Ok <==> (sig@.len() == 64 && ed25519_accepts(self@.public_key, input@, sig@)),
            res matches Err(e) ==> e@ == ErrorKind::VerifyError && e.description_text() == Some(
                if sig@.len() != 64 {
                    "A signature is 64 bytes long"@
                } else {
                    "Signature verification failed"@
                },
            ),
    {
        if sig.len() != 64 {
            return Err(Error::new(ErrorKind::VerifyError, Some("A signature is 64 bytes long")));
        }
        let mut fixedsig = [0u8; 64];
        let mut i: usize = 0;
        while i < 64
            invariant
                i <= 64,
                sig@.len() == 64,
                forall|j: int| 0 <= j < i ==> fixedsig@[j] == sig@[j],
            decreases 64 - i,
        {
            fixedsig[i] = sig[i];
            i = i + 1;
        }
        proof {
            assert(fixedsig@ =~= sig@);
        }
        if verify_with_key(&self.pk, input, &fixedsig) {
            Ok(())
        } else {
            Err(Error::new(ErrorKind::VerifyError, Some("Signature verification failed")))
        }
    }

    /// Attempts to return the encoded string for this key pair's seed.
    /// Remember that this value should be treated as a secret.  It starts
    /// with `S` and the letter of the key type, and decodes back to the type
    /// and the seed.
    pub fn seed(&self) -> (res: Result<String>)
        ensures
            match self@.seed {
                Some(seed) => res matches Ok(text) && {
                    &&& text@ == encoded_seed(self@.kp_type, seed)
                    &&& base32_decoding(text@) == Some(
                        with_checksum(
                            seq![
                                PREFIX_BYTE_SEED | (prefix_byte_of(self@.kp_type) >> 5u8),
                                (prefix_byte_of(self@.kp_type) & 31u8) << 3u8,
                            ] + seed,
                        ),
                    )
                    &&& seed_reading(text@) == Ok::<KeyPairModel, ErrorKind>(self@)
                    &&& text@.len() == ENCODED_SEED_LENGTH
                    &&& text@[0] == 'S'
                    &&& text@[1] == type_letter(self@.kp_type)
                    &&& forall|i: int|
                        0 <= i < text@.len() ==> is_base32_symbol(#[trigger] text@[i])
                },
                None => res matches Err(e) && e@ == ErrorKind::IncorrectKeyType
                    && e.description_text() == Some("This keypair has no seed"@),
            },
    {
        proof {
            use_type_invariant(self);
        }
        match self.rawkey_kind {
            RawKeyKind::Seed(seed) => {
                let mut raw: Vec<u8> = Vec::new();
                let prefix_byte = get_prefix_byte(&self.kp_type);
                let b1 = PREFIX_BYTE_SEED | prefix_byte >> 5u8;
                let b2 = (prefix_byte & 31u8) << 3u8;
                raw.push(b1);
                raw.push(b2);
                let mut i: usize = 0;
                while i < 32
                    invariant
                        i <= 32,
                        raw@ == seq![b1, b2] + seed@.take(i as int),
                    decreases 32 - i,
                {
                    raw.push(seed[i]);
                    proof {
                        assert(seed@.take(i + 1) =~= seed@.take(i as int).push(seed@[i as int]));
                    }
                    i = i + 1;
                }
                proof {
                    assert(seed@.take(32) =~= seed@);
                    assert(raw@ =~= seed_payload(self.kp_type, seed@));
                }
                let text = encode_raw(&mut raw);
                proof {
                    lemma_seed_payload_round_trip(self@.kp_type, seed@);
                    lemma_seed_text(self@.kp_type, seed@);
                    lemma_seed_prefix_bits(prefix_byte);
                    lemma_prefix_round_trip(self@.kp_type);
                    is_ascii_chars_encode_utf8(text@);
                }
                Ok(text)
            },
            RawKeyKind::Public => {
                Err(Error::new(ErrorKind::IncorrectKeyType, Some("This keypair has no seed")))
            },
        }
    }

    /// Attempts to produce a public-only key pair from the given encoded
    /// string.  A text that it reads back is the encoding of what it read.
    pub fn from_public_key(source: &str) -> (res: Result<KeyPair>)
        ensures
            model_of(&res) == public_key_reading(source@),
            res matches Ok(kp) ==> {
                &&& kp@.wf()
                &&& encoded_public_key(kp@.kp_type, kp@.public_key) == source@
            },
            res matches Ok(kp) ==> base32_decoding(source@) == Some(
                with_checksum(seq![prefix_byte_of(kp@.kp_type)] + kp@.public_key),
            ),
            forall|t: KeyPairType, k: Seq<u8>|
                #![trigger base32_encoding(with_checksum(seq![prefix_byte_of(t)] + k))]
                k.len() == 32 && ed25519_valid_public_key(k) && source@ == base32_encoding(
                    with_checksum(seq![prefix_byte_of(t)] + k),
                ) ==> (res matches Ok(kp) && kp@ == KeyPairModel {
                    kp_type: t,
                    seed: None,
                    public_key: k,
                }),
            res matches Err(e) ==> e.description_text() == Some(public_key_refusal(source@)),
    {
        proof {
            if public_key_reading(source@) is Ok {
                lemma_public_key_reading_checks(source@);
            }
            assert forall|t: KeyPairType, k: Seq<u8>|
                k.len() == 32 && ed25519_valid_public_key(k) && source@ == base32_encoding(
                    with_checksum(seq![prefix_byte_of(t)] + k),
                ) implies public_key_reading(source@) == Ok::<KeyPairModel, ErrorKind>(
                KeyPairModel { kp_type: t, seed: None, public_key: k },
            ) by {
                lemma_public_key_reading(t, k);
            }
        }
        let mut raw = match decode_raw(source) {
            Ok(raw) => raw,
            Err(e) => return Err(e),
        };
        if raw.len() == 0 {
            return Err(Error::new(ErrorKind::InvalidPrefix, Some("No public key prefix")));
        }
        let prefix = raw[0];
        if !valid_public_key_prefix(prefix) {
            Err(Error::with_value(ErrorKind::InvalidPrefix, "Not a valid public key prefix", prefix as u64))
        } else {
            let ghost payload = raw@;
            raw.remove(0);
            proof {
                assert(raw@ =~= payload.drop_first());
            }
            match public_key_from_bytes(raw.as_slice()) {
                Some(pk) => {
                    let kp_type = KeyPairType::from(prefix);
                    proof {
                        assert(payload =~= public_key_payload(kind_of_prefix(prefix), pk@));
                    }
                    Ok(KeyPair { kp_type, pk, rawkey_kind: RawKeyKind::Public })
                },
                None => Err(Error::new(ErrorKind::VerifyError, Some("Could not read public key"))),
            }
        }
    }

    /// Attempts to produce a full key pair from the given encoded seed
    /// string.
    pub fn from_seed(source: &str) -> (res: Result<KeyPair>)
        ensures
            model_of(&res) == seed_reading(source@),
            res matches Ok(kp) ==> kp@.wf(),
            res matches Ok(kp) ==> (base32_decoding(source@) matches Some(frame) && {
                &&& frame.len() == 36
                &&& strip_checksum(frame) == Some(frame.subrange(0, 34))
                &&& frame[0] & 248u8 == PREFIX_BYTE_SEED
                &&& kp@.seed == Some(frame.subrange(2, 34))
                &&& kp@.kp_type == kind_of_prefix(
                    ((frame[0] & 7u8) << 5u8) | ((frame[1] & 248u8) >> 3u8),
                )
            }),
            forall|t: KeyPairType, s: Seq<u8>|
                #![trigger prefix_byte_of(t), ed25519_public_key_of(s)]
                s.len() == 32 && source@ == base32_encoding(
                    with_checksum(
                        seq![
                            PREFIX_BYTE_SEED | (prefix_byte_of(t) >> 5u8),
                            (prefix_byte_of(t) & 31u8) << 3u8,
                        ] + s,
                    ),
                ) ==> (res matches Ok(kp) && kp@ == KeyPairModel {
                    kp_type: t,
                    seed: Some(s),
                    public_key: ed25519_public_key_of(s),
                }),
            res matches Err(e) ==> e.description_text() == Some(seed_refusal(source@)),
    {
        proof {
            if seed_reading(source@) is Ok {
                lemma_seed_reading_checks(source@);
            }
            assert forall|t: KeyPairType, s: Seq<u8>|
                s.len() == 32 && source@ == base32_encoding(
                    with_checksum(
                        seq![
                            PREFIX_BYTE_SEED | (prefix_byte_of(t) >> 5u8),
                            (prefix_byte_of(t) & 31u8) << 3u8,
                        ] + s,
                    ),
                ) implies seed_reading(source@) == Ok::<KeyPairModel, ErrorKind>(
                KeyPairModel { kp_type: t, seed: Some(s), public_key: ed25519_public_key_of(s) },
            ) by {
                lemma_seed_reading(t, s);
            }
        }
        let source_bytes = source.as_bytes();
        if source_bytes.len() != ENCODED_SEED_LENGTH {
            return Err(
                Error::with_value(
                    ErrorKind::InvalidSeedLength,
                    "Bad seed length",
                    source_bytes.len() as u64,
                ),
            );
        }
        let mut raw = match base32_decode(source) {
            Ok(decoded) => decoded,
            Err(_) => {
                return Err(Error::new(ErrorKind::CodecFailure, Some("Invalid base32 encoding")));
            },
        };
        proof {
            is_ascii_chars_encode_utf8(source@);
        }
        let b1 = raw[0] & 248u8;
        if b1 != PREFIX_BYTE_SEED {
            Err(
                Error::with_detail(
                    ErrorKind::InvalidPrefix,
                    "Incorrect byte prefix",
                    source.substring_ascii(0, 1),
                ),
            )
        } else {
            let checksum = extract_crc(&mut raw);
            if !valid_checksum(raw.as_slice(), checksum) {
                return Err(Error::new(ErrorKind::ChecksumFailure, Some("Checksum mismatch")));
            }
            let b2 = (raw[0] & 7u8) << 5u8 | ((raw[1] & 248u8) >> 3u8);
            let kp_type = KeyPairType::from(b2);
            let mut seed_bytes = [0u8; 32];
            let mut i: usize = 0;
            while i < 32
                invariant
                    i <= 32,
                    raw@.len() == 34,
                    forall|j: int| 0 <= j < i ==> seed_bytes@[j] == raw@[j + 2],
                decreases 32 - i,
            {
                seed_bytes[i] = raw[i + 2];
                i = i + 1;
            }
            proof {
                assert(seed_bytes@ =~= raw@.subrange(2, raw@.len() as int));
            }
            let pk = pk_from_seed(&seed_bytes);
            Ok(KeyPair { kp_type, pk, rawkey_kind: RawKeyKind::Seed(seed_bytes) })
        }
    }
}

} // verus!
