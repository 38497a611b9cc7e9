//! Authenticated encryption of byte payloads in a self-describing envelope:
//! one version byte, a 24-byte nonce, then the ciphertext with its 16-byte
//! tag.

use super::keys::KEY_SIZE;
use super::random::fill_random;
use crate::text::{decimal, decimal_digits, join};
use chacha20poly1305::aead::{Aead, KeyInit};
use chacha20poly1305::{XChaCha20Poly1305, XNonce};
use vstd::pervasive::unreached;
use vstd::prelude::*;

verus! {

/// The only envelope format version that is written and read.
pub const VERSION: u8 = 0x01;

/// Length in bytes of the nonce.
pub const NONCE_SIZE: usize = 24;

/// Length in bytes of the authentication tag.
pub const TAG_SIZE: usize = 16;

/// Length in bytes of the shortest envelope: version, nonce and tag around
/// an empty payload.
pub const MIN_ENVELOPE_SIZE: usize = 1 + NONCE_SIZE + TAG_SIZE;

/// Length in bytes of the longest payload that is sealed: the keystream of
/// the cipher has `u32::MAX` blocks of 64 bytes, of which the first makes the
/// key of the tag.
pub const MAX_PAYLOAD_SIZE: u64 = 64 * 0xffff_fffe;

/// The number of bytes from which on a payload is refused.
pub open spec fn seal_limit() -> int {
    MAX_PAYLOAD_SIZE + 1
}

/// Why a payload could not be encrypted or an envelope not be decrypted.
#[derive(Debug, Clone, Copy, PartialEq, Eq, Structural)]
pub enum CipherError {
    /// The cipher refused the payload.
    EncryptionFailed,
    /// The tag does not authenticate the envelope under the key.
    DecryptionFailed,
    /// The envelope is shorter than `MIN_ENVELOPE_SIZE`.
    InvalidFormat,
    /// The envelope's version byte, given here, is not `VERSION`.
    UnsupportedVersion(u8),
}

/// The text of a cipher error.
pub open spec fn cipher_error_message(error: CipherError) -> Seq<char> {
    match error {
        CipherError::EncryptionFailed => "Encryption failed"@,
        CipherError::DecryptionFailed => "Decryption failed"@,
        CipherError::InvalidFormat => "Invalid ciphertext format"@,
        CipherError::UnsupportedVersion(version) => "Unsupported version: "@ + decimal_digits(
            version as nat,
        ),
    }
}

impl CipherError {
    /// The error in words.
    pub fn message(&self) -> (text: String)
        ensures
            text@ == cipher_error_message(*self),
    {
        match self {
            CipherError::EncryptionFailed => "Encryption failed".to_owned(),
            CipherError::DecryptionFailed => "Decryption failed".to_owned(),
            CipherError::InvalidFormat => "Invalid ciphertext format".to_owned(),
            CipherError::UnsupportedVersion(version) => {
                let number = decimal(*version as u64);
                join("Unsupported version: ", number.as_str())
            },
        }
    }
}

/// What XChaCha20-Poly1305 makes of `plaintext` under `key` and `nonce`
/// without associated data: the ciphertext followed by its tag, or `None`
/// where the cipher refuses the payload.
pub uninterp spec fn xchacha20poly1305_seal(
    key: Seq<u8>,
    nonce: Seq<u8>,
    plaintext: Seq<u8>,
) -> Option<Seq<u8>>;

/// The payload that XChaCha20-Poly1305 recovers from `sealed` under `key` and
/// `nonce` without associated data, or `None` where the tag does not match.
pub uninterp spec fn xchacha20poly1305_open(
    key: Seq<u8>,
    nonce: Seq<u8>,
    sealed: Seq<u8>,
) -> Option<Seq<u8>>;

/// Seals `plaintext` by `chacha20poly1305::XChaCha20Poly1305::encrypt`, under
/// a cipher built from `key` by `new_from_slice`.
///
/// The payload may have at most `MAX_PAYLOAD_SIZE` bytes: on a longer one the
/// cipher panics where the keystream runs out, or refuses. Claimed of the
/// cipher beyond the name of its result: such a payload is never refused; the
/// result is as long as the payload and the tag together; and opening it
/// under the same key and nonce gives the payload back.
#[verifier::external_body]
fn seal(key: &[u8; KEY_SIZE], nonce: &[u8; NONCE_SIZE], plaintext: &[u8]) -> (sealed: Option<
    Vec<u8>,
>)
    requires
        plaintext@.len() <= MAX_PAYLOAD_SIZE,
    ensures
        match sealed {
            Some(bytes) => xchacha20poly1305_seal(key@, nonce@, plaintext@) == Some(bytes@),
            None => xchacha20poly1305_seal(key@, nonce@, plaintext@) is None,
        },
        sealed is Some,
        sealed matches Some(bytes) ==> bytes@.len() == plaintext@.len() + TAG_SIZE,
        sealed matches Some(bytes) ==> xchacha20poly1305_open(key@, nonce@, bytes@) == Some(
            plaintext@,
        ),
{
    let cipher = XChaCha20Poly1305::new_from_slice(key).ok()?;
    cipher.encrypt(XNonce::from_slice(nonce), plaintext).ok()
}

/// Opens `sealed` by `chacha20poly1305::XChaCha20Poly1305::decrypt`, under a
/// cipher built from `key` by `new_from_slice`.
///
/// The contract only names the result. The nonce must have its exact length:
/// `XNonce::from_slice` panics on any other. What is opened may hold at most
/// `MAX_PAYLOAD_SIZE` bytes before its tag: on more the cipher panics where
/// the keystream runs out, or refuses.
#[verifier::external_body]
fn open(key: &[u8; KEY_SIZE], nonce: &[u8], sealed: &[u8]) -> (opened: Option<Vec<u8>>)
    requires
        nonce@.len() == NONCE_SIZE,
        sealed@.len() <= MAX_PAYLOAD_SIZE + TAG_SIZE,
    ensures
        match opened {
            Some(bytes) => xchacha20poly1305_open(key@, nonce@, sealed@) == Some(bytes@),
            None => xchacha20poly1305_open(key@, nonce@, sealed@) is None,
        },
{
    let cipher = XChaCha20Poly1305::new_from_slice(key).ok()?;
    cipher.decrypt(XNonce::from_slice(nonce), sealed).ok()
}

/// What a byte result holds, as a plain sequence.
pub open spec fn bytes_result_view<E>(result: Result<Vec<u8>, E>) -> Result<Seq<u8>, E> {
    match result {
        Ok(bytes) => Ok(bytes@),
        Err(e) => Err(e),
    }
}

/// The envelope around a sealed payload: version, nonce, sealed bytes.
pub open spec fn envelope(nonce: Seq<u8>, sealed: Seq<u8>) -> Seq<u8> {
    seq![VERSION] + nonce + sealed
}

/// The nonce field of an envelope.
pub open spec fn envelope_nonce(blob: Seq<u8>) -> Seq<u8> {
    blob.subrange(1, 1 + NONCE_SIZE as int)
}

/// The sealed payload of an envelope: everything after the nonce.
pub open spec fn envelope_body(blob: Seq<u8>) -> Seq<u8> {
    blob.subrange(1 + NONCE_SIZE as int, blob.len() as int)
}

/// The result of encrypting `plaintext` under `key` with the given nonce: a
/// payload of more than `MAX_PAYLOAD_SIZE` bytes is refused, any other is
/// sealed.
pub open spec fn encrypt_result(plaintext: Seq<u8>, key: Seq<u8>, nonce: Seq<u8>) -> Result<
    Seq<u8>,
    CipherError,
> {
    if plaintext.len() >= seal_limit() {
        Err(CipherError::EncryptionFailed)
    } else {
        match xchacha20poly1305_seal(key, nonce, plaintext) {
            Some(sealed) => Ok(envelope(nonce, sealed)),
            None => Err(CipherError::EncryptionFailed),
        }
    }
}

/// The result of decrypting `blob` under `key`: the length is checked first,
/// then the version byte, then the tag. An envelope around more than
/// `MAX_PAYLOAD_SIZE` bytes was made by no encryption and is refused like one
/// whose tag does not match.
pub open spec fn decrypt_result(blob: Seq<u8>, key: Seq<u8>) -> Result<Seq<u8>, CipherError> {
    if blob.len() < MIN_ENVELOPE_SIZE {
        Err(CipherError::InvalidFormat)
    } else if blob[0] != VERSION {
        Err(CipherError::UnsupportedVersion(blob[0]))
    } else if blob.len() > MIN_ENVELOPE_SIZE + MAX_PAYLOAD_SIZE {
        Err(CipherError::DecryptionFailed)
    } else {
        match xchacha20poly1305_open(key, envelope_nonce(blob), envelope_body(blob)) {
            Some(plaintext) => Ok(plaintext),
            None => Err(CipherError::DecryptionFailed),
        }
    }
}

/// `blob` is an envelope that `encrypt` can return for `plaintext` and `key`:
/// some nonce seals the payload into it, and the cipher opens it again.
pub open spec fn is_encryption_of(blob: Seq<u8>, plaintext: Seq<u8>, key: Seq<u8>) -> bool {
    exists|nonce: Seq<u8>|
        #![trigger encrypt_result(plaintext, key, nonce)]
        {
            &&& nonce.len() == NONCE_SIZE
            &&& encrypt_result(plaintext, key, nonce) == Ok::<Seq<u8>, CipherError>(blob)
            &&& blob.len() == plaintext.len() + MIN_ENVELOPE_SIZE
            &&& xchacha20poly1305_open(key, nonce, envelope_body(blob)) == Some(plaintext)
        }
}

/// The fields of an envelope are the parts it was built from.
pub proof fn lemma_envelope_fields(nonce: Seq<u8>, sealed: Seq<u8>)
    requires
        nonce.len() == NONCE_SIZE,
    ensures
        envelope(nonce, sealed).len() == 1 + NONCE_SIZE + sealed.len(),
        envelope(nonce, sealed)[0] == VERSION,
        envelope_nonce(envelope(nonce, sealed)) == nonce,
        envelope_body(envelope(nonce, sealed)) == sealed,
{
    let blob = envelope(nonce, sealed);
    assert(envelope_nonce(blob) =~= nonce);
    assert(envelope_body(blob) =~= sealed);
}

/// Decryption inverts encryption: every envelope that `encrypt` can return
/// for a payload and a key decrypts under that key to that payload, whatever
/// the payload's length.
pub proof fn lemma_decrypt_inverts_encrypt(blob: Seq<u8>, plaintext: Seq<u8>, key: Seq<u8>)
    ensures
        is_encryption_of(blob, plaintext, key) ==> decrypt_result(blob, key) == Ok::<
            Seq<u8>,
            CipherError,
        >(plaintext),
{
    if is_encryption_of(blob, plaintext, key) {
        let nonce = choose|nonce: Seq<u8>|
            #![trigger encrypt_result(plaintext, key, nonce)]
            {
                &&& nonce.len() == NONCE_SIZE
                &&& encrypt_result(plaintext, key, nonce) == Ok::<Seq<u8>, CipherError>(blob)
                &&& blob.len() == plaintext.len() + MIN_ENVELOPE_SIZE
                &&& xchacha20poly1305_open(key, nonce, envelope_body(blob)) == Some(plaintext)
            };
        let sealed = xchacha20poly1305_seal(key, nonce, plaintext)->0;
        lemma_envelope_fields(nonce, sealed);
    }
}

/// Two envelopes made with different nonces differ, also where payload and
/// key are the same.
pub proof fn lemma_distinct_nonces_give_distinct_envelopes(
    plaintext: Seq<u8>,
    key: Seq<u8>,
    first_nonce: Seq<u8>,
    second_nonce: Seq<u8>,
)
    requires
        first_nonce.len() == NONCE_SIZE,
        second_nonce.len() == NONCE_SIZE,
        first_nonce != second_nonce,
    ensures
        encrypt_result(plaintext, key, first_nonce) is Ok ==> encrypt_result(
            plaintext,
            key,
            first_nonce,
        ) != encrypt_result(plaintext, key, second_nonce),
{
    if encrypt_result(plaintext, key, first_nonce) is Ok && encrypt_result(
        plaintext,
        key,
        second_nonce,
    ) is Ok {
        let first = xchacha20poly1305_seal(key, first_nonce, plaintext)->0;
        let second = xchacha20poly1305_seal(key, second_nonce, plaintext)->0;
        lemma_envelope_fields(first_nonce, first);
        lemma_envelope_fields(second_nonce, second);
    }
}

/// An envelope whose version byte is anything but `VERSION` is refused as an
/// unsupported version, whatever else it holds; in particular an encrypted
/// envelope whose first byte was overwritten.
pub proof fn lemma_unknown_version_is_refused(blob: Seq<u8>, key: Seq<u8>, version: u8)
    requires
        blob.len() >= MIN_ENVELOPE_SIZE,
        version != VERSION,
    ensures
        decrypt_result(blob.update(0, version), key) == Err::<Seq<u8>, CipherError>(
            CipherError::UnsupportedVersion(version),
        ),
{
}

/// Anything shorter than the shortest envelope is refused as malformed;
/// in particular every proper prefix of an envelope that is cut below that
/// length.
pub proof fn lemma_truncated_envelope_is_refused(blob: Seq<u8>, key: Seq<u8>, len: int)
    requires
        0 <= len <= blob.len(),
        len < MIN_ENVELOPE_SIZE,
    ensures
        decrypt_result(blob.subrange(0, len), key) == Err::<Seq<u8>, CipherError>(
            CipherError::InvalidFormat,
        ),
{
}

/// Encrypts `plaintext` under `key` with the nonce given.
///
/// The nonce must never be used twice with one key: `encrypt` draws a fresh
/// one for every call and is what callers normally use.
pub fn encrypt_with_nonce(
    plaintext: &[u8],
    key: &[u8; KEY_SIZE],
    nonce: &[u8; NONCE_SIZE],
) -> (result: Result<Vec<u8>, CipherError>)
    ensures
        bytes_result_view(result) == encrypt_result(plaintext@, key@, nonce@),
        result is Ok <==> plaintext@.len() < seal_limit(),
        result matches Ok(blob) ==> is_encryption_of(blob@, plaintext@, key@),
        result matches Ok(blob) ==> decrypt_result(blob@, key@) == Ok::<Seq<u8>, CipherError>(
            plaintext@,
        ),
{
    if plaintext.len() as u64 > MAX_PAYLOAD_SIZE {
        return Err(CipherError::EncryptionFailed);
    }
    match seal(key, nonce, plaintext) {
        // A payload of this length is never refused.
        None => unreached(),
        Some(sealed) => {
            let mut output: Vec<u8> = Vec::new();
            output.push(VERSION);
            output.extend_from_slice(nonce.as_slice());
            output.extend_from_slice(sealed.as_slice());
            proof {
                assert(output@ =~= envelope(nonce@, sealed@));
                lemma_envelope_fields(nonce@, sealed@);
                assert(encrypt_result(plaintext@, key@, nonce@) == Ok::<Seq<u8>, CipherError>(
                    output@,
                ));
                lemma_decrypt_inverts_encrypt(output@, plaintext@, key@);
            }
            Ok(output)
        },
    }
}

/// Encrypts `plaintext` under `key` with a nonce drawn for this call, into
/// `version || nonce || ciphertext || tag`.
///
/// Whatever nonce was drawn, the envelope decrypts under `key` to
/// `plaintext`. The only failure is the refusal of a payload of more than
/// `MAX_PAYLOAD_SIZE` bytes.
pub fn encrypt(plaintext: &[u8], key: &[u8; KEY_SIZE]) -> (result: Result<Vec<u8>, CipherError>)
    ensures
        result is Ok <==> plaintext@.len() < seal_limit(),
        result matches Err(e) ==> e == CipherError::EncryptionFailed,
        result matches Ok(blob) ==> is_encryption_of(blob@, plaintext@, key@),
        result matches Ok(blob) ==> blob@[0] == VERSION,
        result matches Ok(blob) ==> decrypt_result(blob@, key@) == Ok::<Seq<u8>, CipherError>(
            plaintext@,
        ),
{
    let mut nonce = [0u8; NONCE_SIZE];
    fill_random(&mut nonce);
    let result = encrypt_with_nonce(plaintext, key, &nonce);
    proof {
        if result is Ok {
            let sealed = xchacha20poly1305_seal(key@, nonce@, plaintext@)->0;
            lemma_envelope_fields(nonce@, sealed);
        }
    }
    result
}

/// Decrypts an envelope under `key`.
///
/// An envelope shorter than `MIN_ENVELOPE_SIZE` is `InvalidFormat`; one whose
/// first byte is not `VERSION` is `UnsupportedVersion` with that byte; one
/// whose tag does not match, or which holds more than `MAX_PAYLOAD_SIZE`
/// bytes of payload, is `DecryptionFailed`. No partial payload is ever
/// returned.
pub fn decrypt(ciphertext: &[u8], key: &[u8; KEY_SIZE]) -> (result: Result<Vec<u8>, CipherError>)
    ensures
        bytes_result_view(result) == decrypt_result(ciphertext@, key@),
{
    if ciphertext.len() < MIN_ENVELOPE_SIZE {
        return Err(CipherError::InvalidFormat);
    }
    let version = ciphertext[0];
    if version != VERSION {
        return Err(CipherError::UnsupportedVersion(version));
    }
    if (ciphertext.len() - MIN_ENVELOPE_SIZE) as u64 > MAX_PAYLOAD_SIZE {
        return Err(CipherError::DecryptionFailed);
    }
    let nonce = &ciphertext[1..1 + NONCE_SIZE];
    let sealed = &ciphertext[1 + NONCE_SIZE..ciphertext.len()];
    match open(key, nonce, sealed) {
        Some(plaintext) => Ok(plaintext),
        None => Err(CipherError::DecryptionFailed),
    }
}

} // verus!
