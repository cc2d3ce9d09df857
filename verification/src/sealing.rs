//! Sealed messages: ECIES on Curve25519 through the `ecies_ed25519` crate.
//! A message sealed for a public key opens with the secret of that key.
use vstd::prelude::*;

verus! {

/// The public key that `ecies_ed25519::PublicKey::from_secret` derives from
/// 32 secret bytes.
pub uninterp spec fn ecies_public_key_of(secret: Seq<u8>) -> Seq<u8>;

/// Whether `ecies_ed25519::PublicKey::from_bytes` accepts the bytes: 32
/// bytes that decompress to a point of the curve.
pub uninterp spec fn ecies_public_key_accepted(bytes: Seq<u8>) -> bool;

/// The plaintext lengths that AES-GCM encrypts: at most 2^36 bytes.
pub open spec fn sealable_length(len: nat) -> bool {
    len <= 0x10_0000_0000
}

/// What `ecies_ed25519::decrypt` returns for a ciphertext with the secret key
/// of the given bytes: the plaintext, or `None` where the key bytes or the
/// ciphertext are refused.
pub uninterp spec fn ecies_decryption(secret: Seq<u8>, ciphertext: Seq<u8>) -> Option<Seq<u8>>;

/// The ciphertext lengths that `ecies_ed25519::decrypt` answers without
/// panicking: too short to hold the sender's key, or long enough to hold it
/// and the nonce.
pub open spec fn sealed_length_in_range(len: nat) -> bool {
    len <= 32 || len >= 44
}

/// `sealed` is a sealing of `plaintext` for `public`: the sender's key, a
/// nonce, the encrypted text and its tag, which open to the plaintext with
/// every secret whose public key is `public`.
pub open spec fn sealed_for(public: Seq<u8>, plaintext: Seq<u8>, sealed: Seq<u8>) -> bool {
    &&& sealed.len() == plaintext.len() + 60
    &&& forall|secret: Seq<u8>|
        #![trigger ecies_decryption(secret, sealed)]
        secret.len() == 32 && ecies_public_key_of(secret) == public ==> ecies_decryption(
            secret,
            sealed,
        ) == Some(plaintext)
}

/// Calls `ecies_ed25519::generate_keypair` with `rand::thread_rng()`.
///
/// Trusted: the secret bytes are random (nothing is stated of them), and the
/// public key is the one derived from them, the compressed form of a point,
/// which `PublicKey::from_bytes` accepts.
#[verifier::external_body]
fn ecies_keypair() -> (keys: ([u8; 32], [u8; 32]))
    ensures
        keys.1@ == ecies_public_key_of(keys.0@),
        ecies_public_key_accepted(keys.1@),
{
    let (secret, public) = ecies_ed25519::generate_keypair(&mut rand::thread_rng());
    (secret.to_bytes(), public.to_bytes())
}

/// Calls `ecies_ed25519::PublicKey::from_bytes` and `ecies_ed25519::encrypt`
/// with `rand::thread_rng()`.
///
/// Trusted: the call succeeds exactly where `PublicKey::from_bytes` accepts
/// the key bytes (so never for bytes that are not 32 long) and AES-GCM takes
/// the plaintext's length (the thread RNG never fails to fill the nonce); a
/// result is the sender's fresh public key (32 bytes), a nonce (12 bytes),
/// the AES-GCM ciphertext and its tag (16 bytes), and it decrypts to the
/// plaintext with every secret of the receiver's key (Diffie-Hellman
/// agreement).  Which keys and nonces are drawn, and so the ciphertext
/// itself, is random.
#[verifier::external_body]
fn seal(public: &[u8], plaintext: &[u8]) -> (res: Option<Vec<u8>>)
    ensures
        res is Some <==> (ecies_public_key_accepted(public@) && sealable_length(plaintext@.len())),
        public@.len() != 32 ==> res is None,
        res matches Some(c) ==> sealed_for(public@, plaintext@, c@),
{
    let receiver = match ecies_ed25519::PublicKey::from_bytes(public) {
        Ok(key) => key,
        Err(_) => return None,
    };
    ecies_ed25519::encrypt(&receiver, plaintext, &mut rand::thread_rng()).ok()
}

/// Calls `ecies_ed25519::SecretKey::from_bytes` and `ecies_ed25519::decrypt`.
///
/// Trusted: the result is the named decryption; secret bytes that are not 32
/// long are refused.  `decrypt` panics on ciphertexts of 33 to 43 bytes,
/// which the precondition leaves out.
#[verifier::external_body]
fn open_sealed(secret: &[u8], ciphertext: &[u8]) -> (res: Option<Vec<u8>>)
    requires
        sealed_length_in_range(ciphertext@.len()),
    ensures
        match ecies_decryption(secret@, ciphertext@) {
            Some(p) => res matches Some(v) && v@ == p,
            None => res is None,
        },
        secret@.len() != 32 ==> res is None,
{
    let key = match ecies_ed25519::SecretKey::from_bytes(secret) {
        Ok(key) => key,
        Err(_) => return None,
    };
    ecies_ed25519::decrypt(&key, ciphertext).ok()
}

/// A secret for opening sealed messages and its public key.
pub struct SealingKeys {
    secret: [u8; 32],
    public: [u8; 32],
}

impl SealingKeys {
    /// The public key is the one of the secret.
    #[verifier::type_invariant]
    spec fn inv(self) -> bool {
        &&& self.public@ == ecies_public_key_of(self.secret@)
        &&& ecies_public_key_accepted(self.public@)
    }

    /// The secret bytes.
    pub closed spec fn secret_view(self) -> Seq<u8> {
        self.secret@
    }

    /// The public key bytes.
    pub closed spec fn public_view(self) -> Seq<u8> {
        self.public@
    }

    /// Draws a fresh random secret and derives its public key.
    pub fn generate() -> (keys: SealingKeys)
        ensures
            keys.secret_view().len() == 32,
            keys.public_view() == ecies_public_key_of(keys.secret_view()),
            ecies_public_key_accepted(keys.public_view()),
    {
        let (secret, public) = ecies_keypair();
        SealingKeys { secret, public }
    }

    /// The secret bytes, to be kept private.
    pub fn secret_bytes(&self) -> (bytes: [u8; 32])
        ensures
            bytes@ == self.secret_view(),
    {
        self.secret
    }

    /// The public key bytes, to be handed to senders.
    pub fn public_bytes(&self) -> (bytes: [u8; 32])
        ensures
            bytes@ == self.public_view(),
            bytes@ == ecies_public_key_of(self.secret_view()),
            ecies_public_key_accepted(bytes@),
    {
        proof {
            use_type_invariant(self);
        }
        self.public
    }

    /// Opens a sealed message with the secret.
    pub fn open(&self, sealed: &[u8]) -> (res: Option<Vec<u8>>)
        requires
            sealed_length_in_range(sealed@.len()),
        ensures
            match ecies_decryption(self.secret_view(), sealed@) {
                Some(p) => res matches Some(v) && v@ == p,
                None => res is None,
            },
    {
        open_sealed(self.secret.as_slice(), sealed)
    }
}

/// Seals a message for the holder of the secret of a public key.  It
/// succeeds exactly where the key bytes are a point of the curve and the
/// message is not too long for AES-GCM (bytes that are not 32 long are
/// refused); a sealing opens to the message with every secret of that key.
pub fn seal_for(receiver_public: &[u8], message: &[u8]) -> (res: Option<Vec<u8>>)
    ensures
        res is Some <==> (ecies_public_key_accepted(receiver_public@) && sealable_length(
            message@.len(),
        )),
        receiver_public@.len() != 32 ==> res is None,
        res matches Some(sealed) ==> sealed_for(receiver_public@, message@, sealed@),
{
    seal(receiver_public, message)
}

/// Opens a sealed message with secret key bytes, as read from storage.
/// Bytes that are not 32 long are refused.
pub fn open_with_secret(secret: &[u8], sealed: &[u8]) -> (res: Option<Vec<u8>>)
    requires
        sealed_length_in_range(sealed@.len()),
    ensures
        match ecies_decryption(secret@, sealed@) {
            Some(p) => res matches Some(v) && v@ == p,
            None => res is None,
        },
        secret@.len() != 32 ==> res is None,
{
    open_sealed(secret, sealed)
}

/// A message sealed for a public key opens, with a secret of that key, to
/// the message.
pub proof fn lemma_sealed_opens(secret: Seq<u8>, public: Seq<u8>, message: Seq<u8>, sealed: Seq<u8>)
    requires
        secret.len() == 32,
        ecies_public_key_of(secret) == public,
        sealed_for(public, message, sealed),
    ensures
        ecies_decryption(secret, sealed) == Some(message),
        sealed_length_in_range(sealed.len()),
{
}

} // verus!
