//! Recovery phrases: a 12-word mnemonic that stands for 128 bits of entropy,
//! and the key-encrypting key derived from it.

use super::keys::{wipe, wipe_array, SecretKey, KEY_SIZE};
use super::random::fill_random;
use bip39::{Language, Mnemonic};
use hkdf::Hkdf;
use sha2::Sha256;
use vstd::prelude::*;
use vstd::string::StringSliceAdditionalSpecFns;

verus! {

/// Length in bytes of the entropy behind a recovery phrase of 12 words.
pub const ENTROPY_SIZE: usize = 16;

/// Number of words of a recovery phrase.
pub const PHRASE_WORDS: usize = 12;

/// Domain-separation label of the key derived from a recovery phrase.
pub const RECOVERY_KEK_INFO: &'static str = "knot-recovery-kek-v1";

/// Why a recovery phrase could not be made or used.
#[derive(Debug, Clone, Copy, PartialEq, Eq, Structural)]
pub enum RecoveryError {
    /// No phrase could be made from the entropy drawn.
    MnemonicGenerationFailed,
    /// The phrase is not a valid mnemonic of 12 words.
    InvalidMnemonic,
}

/// The text of a recovery error.
pub open spec fn recovery_error_message(error: RecoveryError) -> Seq<char> {
    match error {
        RecoveryError::MnemonicGenerationFailed => "Failed to generate mnemonic"@,
        RecoveryError::InvalidMnemonic => "Invalid mnemonic phrase"@,
    }
}

impl RecoveryError {
    /// The error in words.
    pub fn message(&self) -> (text: String)
        ensures
            text@ == recovery_error_message(*self),
    {
        match self {
            RecoveryError::MnemonicGenerationFailed => "Failed to generate mnemonic".to_owned(),
            RecoveryError::InvalidMnemonic => "Invalid mnemonic phrase".to_owned(),
        }
    }
}

/// The English mnemonic that encodes `entropy`, words joined by single
/// spaces, or `None` where the entropy's length is not one that mnemonics
/// encode.
pub uninterp spec fn bip39_english_mnemonic(entropy: Seq<u8>) -> Option<Seq<char>>;

/// The entropy that the English mnemonic `phrase` encodes, or `None` where
/// `phrase` is no valid mnemonic: a wrong number of words, a word outside the
/// list, or a checksum that does not match.
pub uninterp spec fn bip39_english_entropy(phrase: Seq<char>) -> Option<Seq<u8>>;

/// The first `len` bytes of HKDF-SHA256 output for the input key material
/// `ikm` and the label `info`, extracted without a salt.
pub uninterp spec fn hkdf_sha256_unsalted(ikm: Seq<u8>, info: Seq<u8>, len: nat) -> Seq<u8>;

/// `text` is `count` words of small letters joined by single spaces: it
/// holds nothing but small letters and spaces, neither starts nor ends with a
/// space, holds no two spaces in a row, and one space fewer than words.
pub open spec fn is_words_joined_by_spaces(text: Seq<char>, count: nat) -> bool {
    &&& text.len() > 0
    &&& text.first() != ' '
    &&& text.last() != ' '
    &&& forall|i: int| 0 <= i < text.len() ==> #[trigger] text[i] == ' ' || 'a' <= text[i] <= 'z'
    &&& forall|i: int| 0 <= i < text.len() - 1 ==> !(#[trigger] text[i] == ' ' && text[i + 1] == ' ')
    &&& text.filter(|c: char| c == ' ').len() + 1 == count
}

/// Encodes `entropy` as an English mnemonic by
/// `bip39::Mnemonic::from_entropy_in` and writes it out by its `Display`.
///
/// Claimed beyond the name of the result: 16 bytes are always encoded; the
/// phrase made decodes to the entropy it was made from; and it is three
/// words for every four bytes, each of small letters, joined by single
/// spaces.
#[verifier::external_body]
fn mnemonic_from_entropy(entropy: &[u8]) -> (phrase: Option<String>)
    ensures
        match phrase {
            Some(text) => bip39_english_mnemonic(entropy@) == Some(text@),
            None => bip39_english_mnemonic(entropy@) is None,
        },
        entropy@.len() == ENTROPY_SIZE ==> phrase is Some,
        phrase matches Some(text) ==> bip39_english_entropy(text@) == Some(entropy@),
        phrase matches Some(text) ==> is_words_joined_by_spaces(
            text@,
            (entropy@.len() * 3 / 4) as nat,
        ),
{
    match Mnemonic::from_entropy_in(Language::English, entropy) {
        Ok(mnemonic) => Some(mnemonic.to_string()),
        Err(_) => None,
    }
}

/// Parses and validates `phrase` by `bip39::Mnemonic::parse_in_normalized`
/// and recovers its entropy by `to_entropy`.
///
/// The contract only names the result. `None` stands for every refusal.
#[verifier::external_body]
fn entropy_of_mnemonic(phrase: &str) -> (entropy: Option<Vec<u8>>)
    ensures
        match entropy {
            Some(bytes) => bip39_english_entropy(phrase@) == Some(bytes@),
            None => bip39_english_entropy(phrase@) is None,
        },
{
    match Mnemonic::parse_in_normalized(Language::English, phrase) {
        Ok(mnemonic) => Some(mnemonic.to_entropy()),
        Err(_) => None,
    }
}

/// Fills `okm` with HKDF-SHA256 output by `hkdf::Hkdf::new`, without a salt,
/// and `expand`.
///
/// The contract only names the result. `expand` refuses more than 255 blocks
/// of 32 bytes, which the bound on `N` leaves out.
#[verifier::external_body]
fn hkdf_sha256_expand<const N: usize>(ikm: &[u8], info: &[u8], okm: &mut [u8; N])
    requires
        N <= 255 * 32,
    ensures
        final(okm)@ == hkdf_sha256_unsalted(ikm@, info@, N as nat),
{
    Hkdf::<Sha256>::new(None, ikm).expand(info, okm).expect("at most 255 blocks are asked for")
}

/// The label `RECOVERY_KEK_INFO` as bytes.
pub open spec fn recovery_kek_info() -> Seq<u8> {
    RECOVERY_KEK_INFO.spec_bytes()
}

/// The key-encrypting key that entropy recovered from a phrase yields:
/// HKDF-SHA256 of exactly `ENTROPY_SIZE` bytes under the fixed label; an
/// invalid phrase where there is no entropy or it has another length.
pub open spec fn kek_of_entropy(entropy: Option<Seq<u8>>) -> Result<Seq<u8>, RecoveryError> {
    match entropy {
        Some(bytes) if bytes.len() == ENTROPY_SIZE => Ok(
            hkdf_sha256_unsalted(bytes, recovery_kek_info(), KEY_SIZE as nat),
        ),
        _ => Err(RecoveryError::InvalidMnemonic),
    }
}

/// The key-encrypting key of a recovery phrase.
pub open spec fn recovery_kek(phrase: Seq<char>) -> Result<Seq<u8>, RecoveryError> {
    kek_of_entropy(bip39_english_entropy(phrase))
}

/// `phrase` is a mnemonic that `generate_recovery_key` can return: it encodes
/// some entropy of `ENTROPY_SIZE` bytes and decodes to it.
pub open spec fn is_generated_phrase(phrase: Seq<char>) -> bool {
    exists|entropy: Seq<u8>|
        #![trigger bip39_english_mnemonic(entropy)]
        {
            &&& entropy.len() == ENTROPY_SIZE
            &&& bip39_english_mnemonic(entropy) == Some(phrase)
            &&& bip39_english_entropy(phrase) == Some(entropy)
        }
}

/// Every generated phrase has a key-encrypting key.
pub proof fn lemma_generated_phrase_has_kek(phrase: Seq<char>)
    ensures
        is_generated_phrase(phrase) ==> recovery_kek(phrase) is Ok,
{
}

/// Draws 128 bits of entropy and encodes them as a mnemonic of 12 words
/// joined by single spaces. The entropy is wiped before the phrase is
/// returned.
pub fn generate_recovery_key() -> (result: Result<String, RecoveryError>)
    ensures
        result is Ok,
        result matches Ok(phrase) ==> is_generated_phrase(phrase@),
        result matches Ok(phrase) ==> is_words_joined_by_spaces(phrase@, PHRASE_WORDS as nat),
        result matches Ok(phrase) ==> recovery_kek(phrase@) is Ok,
{
    let mut entropy = [0u8; ENTROPY_SIZE];
    fill_random(&mut entropy);
    let phrase = mnemonic_from_entropy(entropy.as_slice());
    let ghost drawn = entropy@;
    wipe_array(&mut entropy);
    match phrase {
        Some(text) => {
            assert(bip39_english_mnemonic(drawn) == Some(text@));
            Ok(text)
        },
        None => Err(RecoveryError::MnemonicGenerationFailed),
    }
}

/// Derives the key-encrypting key from entropy recovered from a phrase, and
/// wipes the entropy.
pub fn kek_from_entropy(entropy: Option<Vec<u8>>) -> (result: Result<SecretKey, RecoveryError>)
    ensures
        super::keys::key_result_view(result) == kek_of_entropy(
            match entropy {
                Some(bytes) => Some(bytes@),
                None => None,
            },
        ),
{
    match entropy {
        None => Err(RecoveryError::InvalidMnemonic),
        Some(mut bytes) => {
            if bytes.len() != ENTROPY_SIZE {
                wipe(&mut bytes);
                return Err(RecoveryError::InvalidMnemonic);
            }
            let mut key = SecretKey::zeroed();
            hkdf_sha256_expand(bytes.as_slice(), RECOVERY_KEK_INFO.as_bytes(), &mut key.bytes);
            proof {
                key.lemma_view_is_bytes();
            }
            wipe(&mut bytes);
            Ok(key)
        },
    }
}

/// Derives the key-encrypting key of a recovery phrase.
///
/// The phrase is validated first: it must be a mnemonic of 12 words from the
/// English list whose checksum matches. The same phrase always yields the
/// same key.
pub fn recovery_key_to_kek(mnemonic_phrase: &str) -> (result: Result<SecretKey, RecoveryError>)
    ensures
        super::keys::key_result_view(result) == recovery_kek(mnemonic_phrase@),
{
    let entropy = entropy_of_mnemonic(mnemonic_phrase);
    kek_from_entropy(entropy)
}

} // verus!
