use magic_crypt::{MagicCrypt128, MagicCryptError, MagicCryptTrait};
use vstd::prelude::*;

verus! {

/// Why a ciphertext could not be turned back into text.
#[derive(Debug, Clone, Copy, PartialEq, Eq)]
pub enum DecryptFailure {
    /// The input was not valid base64.
    Base64,
    /// The decoded bytes were not a well-padded AES-128-CBC ciphertext.
    BlockMode,
    /// The decrypted bytes were not valid UTF-8.
    Utf8,
    /// An I/O error was reported by the cipher.
    Io,
}

/// The base64 text that magic_crypt's AES-128 cipher, keyed with `key` and the
/// default (all-zero) IV, produces for the UTF-8 bytes of `plaintext`.
pub uninterp spec fn aes128_base64_encrypt(key: Seq<u8>, plaintext: Seq<char>) -> Seq<char>;

/// What magic_crypt's AES-128 cipher, keyed with `key` and the default IV,
/// gives back for the base64 text `ciphertext`: the decrypted text, or the
/// reason it failed.
pub uninterp spec fn aes128_base64_decrypt(key: Seq<u8>, ciphertext: Seq<char>) -> Result<
    Seq<char>,
    DecryptFailure,
>;

/// Calls `MagicCryptTrait::encrypt_str_to_base64` on a `MagicCrypt128` built
/// by `MagicCrypt128::new(key, None)` (what `new_magic_crypt!(key, 128)`
/// expands to). Trusted: the result is the named ciphertext of `input` under
/// `key`, and decrypting that ciphertext with the same key gives `input` back
/// (AES-128-CBC with PKCS7 padding is inverted by the matching decryption,
/// as the crate's documentation example shows).
#[verifier::external_body]
fn magic_encrypt_str_to_base64(key: &[u8], input: &str) -> (out: String)
    ensures
        out@ == aes128_base64_encrypt(key@, input@),
        aes128_base64_decrypt(key@, out@) is Ok && aes128_base64_decrypt(key@, out@)->Ok_0 == input@,
{
    MagicCrypt128::new(key, None::<String>).encrypt_str_to_base64(input)
}

/// Calls `MagicCryptTrait::decrypt_base64_to_string` on a `MagicCrypt128`
/// built by `MagicCrypt128::new(key, None)`, and tells the variants of
/// `MagicCryptError` apart. Trusted: the result is the named outcome of
/// decrypting `input` under `key`.
#[verifier::external_body]
fn magic_decrypt_base64_to_string(key: &[u8], input: &str) -> (out: Result<String, DecryptFailure>)
    ensures
        out matches Ok(s) ==> aes128_base64_decrypt(key@, input@) is Ok && aes128_base64_decrypt(key@, input@)->Ok_0 == s@,
        out matches Err(e) ==> aes128_base64_decrypt(key@, input@) is Err && aes128_base64_decrypt(key@, input@)->Err_0 == e,
{
    match MagicCrypt128::new(key, None::<String>).decrypt_base64_to_string(input) {
        Ok(s) => Ok(s),
        Err(MagicCryptError::Base64Error(_)) => Err(DecryptFailure::Base64),
        Err(MagicCryptError::DecryptError(_)) => Err(DecryptFailure::BlockMode),
        Err(MagicCryptError::StringError(_)) => Err(DecryptFailure::Utf8),
        Err(MagicCryptError::IOError(_)) => Err(DecryptFailure::Io),
    }
}

/// A symmetric cipher (AES-128, CBC mode, PKCS7 padding, base64 text) keyed
/// by the bytes it was made from.
pub struct Encryptor {
    key: Vec<u8>,
}

impl View for Encryptor {
    type V = Seq<u8>;

    /// The key bytes the cipher was made from.
    closed spec fn view(&self) -> Seq<u8> {
        self.key@
    }
}

impl Encryptor {
    /// A cipher keyed by the UTF-8 bytes of `key`.
    pub fn new(key: String) -> (e: Self)
        ensures
            e@ == vstd::utf8::encode_utf8(key@),
    {
        Encryptor { key: vstd::slice::slice_to_vec(key.as_str().as_bytes()) }
    }

    /// A cipher keyed by the given raw bytes.
    pub fn from_bytes(key: [u8; 32]) -> (e: Self)
        ensures
            e@ == key@,
    {
        Encryptor { key: vstd::slice::slice_to_vec(key.as_slice()) }
    }

    /// Encrypts `input` and encodes the ciphertext in base64. Decrypting the
    /// result with the same cipher gives `input` back.
    pub fn encrypt(&self, input: String) -> (out: String)
        ensures
            out@ == aes128_base64_encrypt(self@, input@),
            aes128_base64_decrypt(self@, out@) is Ok && aes128_base64_decrypt(self@, out@)->Ok_0 == input@,
    {
        magic_encrypt_str_to_base64(self.key.as_slice(), input.as_str())
    }

    /// Decodes base64 `input` and decrypts it.
    pub fn decrypt(&self, input: String) -> (out: Result<String, DecryptFailure>)
        ensures
            match out {
                Ok(s) => aes128_base64_decrypt(self@, input@) is Ok && aes128_base64_decrypt(self@, input@)->Ok_0 == s@,
                Err(e) => aes128_base64_decrypt(self@, input@) is Err && aes128_base64_decrypt(self@, input@)->Err_0 == e,
            },
    {
        magic_decrypt_base64_to_string(self.key.as_slice(), input.as_str())
    }
}

} // verus!
