//! The codec for secret configuration fields. A text is sealed with
//! AES-256-GCM under a fresh 96-bit nonce; the nonce is put in front of the
//! sealed bytes and the whole is written in base64. A secret field of the
//! document travels as the JSON text of its value, sealed in that way.

use aes_gcm::aead::{Aead, KeyInit};
use aes_gcm::{Aes256Gcm, Key, Nonce};
use base64::engine::general_purpose::STANDARD;
use base64::Engine;
use vstd::prelude::*;
use vstd::utf8::{decode_utf8, encode_utf8, encode_utf8_decode_utf8, encode_utf8_valid_utf8, valid_utf8};

verus! {

/// Bytes of a key.
pub const KEY_LENGTH: usize = 32;

/// Bytes of a nonce.
pub const NONCE_LENGTH: usize = 12;

/// Bytes of the authentication tag that follows the encrypted text.
pub const TAG_LENGTH: usize = 16;

/// The longest plaintext, in bytes, that the cipher takes.
pub const CIPHER_INPUT_MAX: u64 = 0x10_0000_0000;

/// Why a text could not be sealed or opened.
#[derive(Clone, Copy, Debug, PartialEq, Eq, Structural)]
pub enum CodecError {
    /// The key is not `KEY_LENGTH` bytes long.
    KeyLength,
    /// The system handed out no random bytes for the nonce.
    Random,
    /// The text is too long to be sealed.
    Encrypt,
    /// The token is not base64.
    Decode,
    /// The token is too short to hold a nonce.
    Truncated,
    /// The token was not sealed under this key, or was altered.
    Decrypt,
    /// The opened bytes are not UTF-8.
    Utf8,
}

impl CodecError {
    /// The error in words.
    pub open spec fn message_text(self) -> Seq<char> {
        match self {
            CodecError::KeyLength => "Invalid encryption key"@,
            CodecError::Random => "Failed to generate nonce"@,
            CodecError::Encrypt => "Encryption failed: aead::Error"@,
            CodecError::Decode => "Invalid base64 data"@,
            CodecError::Truncated => "Invalid encrypted data"@,
            CodecError::Decrypt => "Decryption failed: aead::Error"@,
            CodecError::Utf8 => "Invalid UTF-8 data"@,
        }
    }

    /// The error in words.
    pub fn message(&self) -> (text: &'static str)
        ensures
            text@ == self.message_text(),
    {
        match self {
            CodecError::KeyLength => "Invalid encryption key",
            CodecError::Random => "Failed to generate nonce",
            CodecError::Encrypt => "Encryption failed: aead::Error",
            CodecError::Decode => "Invalid base64 data",
            CodecError::Truncated => "Invalid encrypted data",
            CodecError::Decrypt => "Decryption failed: aead::Error",
            CodecError::Utf8 => "Invalid UTF-8 data",
        }
    }
}

/// The error of the cipher, `aes_gcm::Error`. Nothing of it is read.
#[verifier::external_type_specification]
#[verifier::external_body]
pub struct ExCipherError(aes_gcm::Error);

/// The error of the base64 decoder, `base64::DecodeError`. Nothing of it is
/// read.
#[verifier::external_type_specification]
#[verifier::external_body]
pub struct ExDecodeError(base64::DecodeError);

/// The error of the system's random source, `getrandom::Error`. Nothing of
/// it is read.
#[verifier::external_type_specification]
#[verifier::external_body]
pub struct ExRandomError(getrandom::Error);

/// The error of the JSON reader and writer, `serde_json::Error`. Nothing of
/// it is read.
#[verifier::external_type_specification]
#[verifier::external_body]
pub struct ExJsonError(serde_json::Error);

/// The error of `String::from_utf8`. Nothing of it is read.
#[verifier::external_type_specification]
#[verifier::external_body]
pub struct ExFromUtf8Error(std::string::FromUtf8Error);

/// What AES-256-GCM makes of a plaintext under a key and a nonce, without
/// associated data: the encrypted text followed by its tag.
pub uninterp spec fn aes_gcm_sealed(key: Seq<u8>, nonce: Seq<u8>, plaintext: Seq<u8>) -> Seq<u8>;

/// What AES-256-GCM recovers from sealed bytes under a key and a nonce:
/// the plaintext, or nothing where the tag does not fit.
pub uninterp spec fn aes_gcm_opened(key: Seq<u8>, nonce: Seq<u8>, sealed: Seq<u8>) -> Option<
    Seq<u8>,
>;

/// The standard base64 text, with padding, of a sequence of bytes.
pub uninterp spec fn base64_text(bytes: Seq<u8>) -> Seq<char>;

/// The bytes that a standard base64 text stands for, if it is one.
pub uninterp spec fn base64_bytes(text: Seq<char>) -> Option<Seq<u8>>;

/// The JSON text of an optional text.
pub uninterp spec fn json_text(value: Option<Seq<char>>) -> Option<Seq<char>>;

/// The optional text that a JSON text stands for, if it stands for one.
pub uninterp spec fn json_value(text: Seq<char>) -> Option<Option<Seq<char>>>;

/// Whether the character belongs to standard base64 text: a letter, a
/// digit, `+`, `/`, or the padding `=`.
pub open spec fn is_base64_char(c: char) -> bool {
    ('A' <= c && c <= 'Z') || ('a' <= c && c <= 'z') || ('0' <= c && c <= '9') || c == '+' || c
        == '/' || c == '='
}

/// Whether the text holds characters of standard base64 text only.
pub open spec fn is_base64(text: Seq<char>) -> bool {
    forall|i: int| 0 <= i < text.len() ==> is_base64_char(#[trigger] text[i])
}

/// Whether a plaintext of `len` bytes can be sealed and written as a token
/// on this machine: the cipher takes it, and the token's length fits.
pub open spec fn sealable(len: nat) -> bool {
    len <= CIPHER_INPUT_MAX && len + NONCE_LENGTH + TAG_LENGTH <= (isize::MAX - 4) / 4 * 3
}

/// Whether a plaintext of `len` bytes can be sealed on this machine.
fn is_sealable(len: usize) -> (fits: bool)
    ensures
        fits == sealable(len as nat),
{
    len as u64 <= CIPHER_INPUT_MAX && len <= (isize::MAX as usize - 4) / 4 * 3 - NONCE_LENGTH
        - TAG_LENGTH
}

/// `Aes256Gcm::encrypt` with a key made by `Key::from_slice` and a nonce made
/// by `Nonce::from_slice`. On a plaintext within the cipher's limit the call
/// succeeds; its result is the encrypted text, as long as the plaintext,
/// followed by the tag, and the same key and nonce open it to the plaintext
/// again.
#[verifier::external_body]
fn aes_seal(key: &[u8], nonce: &[u8], plaintext: &[u8]) -> (sealed: Result<
    Vec<u8>,
    aes_gcm::Error,
>)
    requires
        key@.len() == KEY_LENGTH,
        nonce@.len() == NONCE_LENGTH,
        plaintext@.len() <= CIPHER_INPUT_MAX,
        plaintext@.len() + TAG_LENGTH <= isize::MAX,
    ensures
        sealed is Ok,
        sealed matches Ok(bytes) ==> {
            &&& bytes@ == aes_gcm_sealed(key@, nonce@, plaintext@)
            &&& bytes@.len() == plaintext@.len() + TAG_LENGTH
            &&& aes_gcm_opened(key@, nonce@, bytes@) == Some(plaintext@)
        },
{
    Aes256Gcm::new(Key::<Aes256Gcm>::from_slice(key)).encrypt(Nonce::from_slice(nonce), plaintext)
}

/// `Aes256Gcm::decrypt` with a key made by `Key::from_slice` and a nonce made
/// by `Nonce::from_slice`: the plaintext where the tag fits, an error
/// otherwise.
#[verifier::external_body]
fn aes_open(key: &[u8], nonce: &[u8], sealed: &[u8]) -> (opened: Result<Vec<u8>, aes_gcm::Error>)
    requires
        key@.len() == KEY_LENGTH,
        nonce@.len() == NONCE_LENGTH,
    ensures
        match opened {
            Ok(plaintext) => aes_gcm_opened(key@, nonce@, sealed@) == Some(plaintext@),
            Err(_) => aes_gcm_opened(key@, nonce@, sealed@) is None,
        },
{
    Aes256Gcm::new(Key::<Aes256Gcm>::from_slice(key)).decrypt(Nonce::from_slice(nonce), sealed)
}

/// `getrandom::fill`. The bytes are random: nothing is stated of them, nor
/// of whether the system hands any out.
#[verifier::external_body]
fn fill_random<const N: usize>(buffer: &mut [u8; N]) -> (filled: Result<(), getrandom::Error>) {
    getrandom::fill(buffer.as_mut_slice())
}

/// `Engine::encode` of the standard engine: the base64 text of the bytes,
/// which holds characters of the standard alphabet and the padding only,
/// and decodes to the same bytes again.
#[verifier::external_body]
fn base64_encode(bytes: &[u8]) -> (text: String)
    requires
        bytes@.len() / 3 * 4 + 4 <= isize::MAX,
    ensures
        text@ == base64_text(bytes@),
        is_base64(text@),
        base64_bytes(text@) == Some(bytes@),
{
    STANDARD.encode(bytes)
}

/// `Engine::decode` of the standard engine: the bytes that the text stands
/// for, or an error where it is no base64 text.
#[verifier::external_body]
fn base64_decode(text: &str) -> (bytes: Result<Vec<u8>, base64::DecodeError>)
    ensures
        match bytes {
            Ok(b) => base64_bytes(text@) == Some(b@),
            Err(_) => base64_bytes(text@) is None,
        },
{
    STANDARD.decode(text)
}

/// `String::from_utf8`: the text that the bytes encode, or an error where
/// they are not UTF-8.
#[verifier::external_body]
fn text_from_utf8(bytes: Vec<u8>) -> (text: Result<String, std::string::FromUtf8Error>)
    ensures
        match text {
            Ok(t) => valid_utf8(bytes@) && t@ == decode_utf8(bytes@),
            Err(_) => !valid_utf8(bytes@),
        },
{
    String::from_utf8(bytes)
}

/// `serde_json::to_string` on an optional text: its JSON text, which parses
/// to the same value again. Writing a text, or the absence of one, into
/// memory does not fail.
#[verifier::external_body]
fn json_encode(value: &Option<String>) -> (text: Result<String, serde_json::Error>)
    ensures
        text is Ok,
        match text {
            Ok(t) => json_text(value.deep_view()) == Some(t@) && json_value(t@) == Some(
                value.deep_view(),
            ),
            Err(_) => json_text(value.deep_view()) is None,
        },
{
    serde_json::to_string(value)
}

/// `serde_json::from_str` for an optional text: the value that the JSON text
/// stands for, or an error where it stands for none.
#[verifier::external_body]
fn json_decode(text: &str) -> (value: Result<Option<String>, serde_json::Error>)
    ensures
        match value {
            Ok(v) => json_value(text@) == Some(v.deep_view()),
            Err(_) => json_value(text@) is None,
        },
{
    serde_json::from_str(text)
}

/// The token for `text` sealed under `key` with `nonce`.
pub open spec fn sealed_token(key: Seq<u8>, nonce: Seq<u8>, text: Seq<char>) -> Seq<char> {
    base64_text(nonce + aes_gcm_sealed(key, nonce, encode_utf8(text)))
}

/// Whether `token` is laid out as the token for `text` sealed under `key`
/// with `nonce`: it is base64 text; it stands for the nonce followed by the
/// sealed bytes; and the sealed bytes are the encrypted text, as long as
/// the text in UTF-8, followed by a tag of `TAG_LENGTH` bytes.
pub open spec fn token_layout(token: Seq<char>, key: Seq<u8>, nonce: Seq<u8>, text: Seq<char>) -> bool {
    &&& is_base64(token)
    &&& base64_bytes(token) == Some(nonce + aes_gcm_sealed(key, nonce, encode_utf8(text)))
    &&& aes_gcm_sealed(key, nonce, encode_utf8(text)).len() == encode_utf8(text).len()
        + TAG_LENGTH
}

/// Whether a secret field with the value `value` can be sealed under
/// `key`, given a nonce: the key has a key's length, and the value's JSON
/// text can be sealed.
pub open spec fn sealable_field(key: Seq<u8>, value: Option<Seq<char>>) -> bool {
    &&& key.len() == KEY_LENGTH
    &&& json_text(value) matches Some(json)
    &&& sealable(encode_utf8(json).len())
}

/// Whether a secret field with the value `value` can be written under
/// `key` with the nonce that was drawn for it, if one was: it can be
/// sealed, and a nonce was drawn.
pub open spec fn writable(key: Seq<u8>, drawn: Option<Seq<u8>>, value: Option<Seq<char>>) -> bool {
    sealable_field(key, value) && drawn is Some
}

/// Base64 text holds no hyphen, and so no line that a certificate or a key
/// in PEM begins with.
pub proof fn law_token_holds_no_pem_line(token: Seq<char>)
    requires
        is_base64(token),
    ensures
        forall|i: int| 0 <= i < token.len() ==> token[i] != '-',
        token.len() > 0 ==> token[0] != '-',
{
    assert forall|i: int| 0 <= i < token.len() implies token[i] != '-' by {
        assert(is_base64_char(token[i]));
    }
}

/// What sealing `text` under `key` gives, `drawn` being the nonce that was
/// drawn for it, if one was: the token, or the first reason why there is
/// none.
pub open spec fn sealed_with(key: Seq<u8>, drawn: Option<Seq<u8>>, text: Seq<char>) -> Result<
    Seq<char>,
    CodecError,
> {
    if key.len() != KEY_LENGTH {
        Err(CodecError::KeyLength)
    } else if !sealable(encode_utf8(text).len()) {
        Err(CodecError::Encrypt)
    } else {
        match drawn {
            Some(nonce) => Ok(sealed_token(key, nonce, text)),
            None => Err(CodecError::Random),
        }
    }
}

/// The stored form of a secret field with the value `value`, `drawn` being
/// the nonce that was drawn for it, if one was: the token of the value's
/// JSON text, or nothing where the value could not be written or sealed.
pub open spec fn sealed_field(key: Seq<u8>, drawn: Option<Seq<u8>>, value: Option<Seq<char>>) -> Option<
    Seq<char>,
> {
    match json_text(value) {
        Some(json) => match sealed_with(key, drawn, json) {
            Ok(token) => Some(token),
            Err(_) => None,
        },
        None => None,
    }
}

/// The bytes of a drawn nonce, if one was drawn.
pub open spec fn nonce_of(drawn: Result<[u8; NONCE_LENGTH], CodecError>) -> Option<Seq<u8>> {
    match drawn {
        Ok(nonce) => Some(nonce@),
        Err(_) => None,
    }
}

/// What opening `token` under `key` gives: the text, or the first reason
/// why there is none.
pub open spec fn opened_token(key: Seq<u8>, token: Seq<char>) -> Result<Seq<char>, CodecError> {
    if key.len() != KEY_LENGTH {
        Err(CodecError::KeyLength)
    } else {
        match base64_bytes(token) {
            None => Err(CodecError::Decode),
            Some(bytes) => if bytes.len() < NONCE_LENGTH {
                Err(CodecError::Truncated)
            } else {
                match aes_gcm_opened(
                    key,
                    bytes.subrange(0, NONCE_LENGTH as int),
                    bytes.subrange(NONCE_LENGTH as int, bytes.len() as int),
                ) {
                    None => Err(CodecError::Decrypt),
                    Some(plaintext) => if valid_utf8(plaintext) {
                        Ok(decode_utf8(plaintext))
                    } else {
                        Err(CodecError::Utf8)
                    },
                }
            },
        }
    }
}

/// The value of a secret field that was stored as `token`: what the token
/// opens to, read as JSON. Whatever fails, the field is unset.
pub open spec fn opened_field(key: Seq<u8>, token: Seq<char>) -> Option<Seq<char>> {
    match opened_token(key, token) {
        Ok(json) => match json_value(json) {
            Some(value) => value,
            None => None,
        },
        Err(_) => None,
    }
}

/// The characters of a token that came out, or the error that came instead.
pub open spec fn text_of(sealed: Result<String, CodecError>) -> Result<Seq<char>, CodecError> {
    match sealed {
        Ok(t) => Ok(t@),
        Err(e) => Err(e),
    }
}

/// Where the key of the codec comes from.
#[derive(Debug)]
pub enum EncryptionKey {
    /// The key file was there: this is what it holds.
    Loaded(Vec<u8>),
    /// There was no key file: this key was made, and has to be written to
    /// the key file before it is used.
    Generated(Vec<u8>),
}

impl EncryptionKey {
    /// The bytes of the key.
    pub open spec fn bytes(self) -> Seq<u8> {
        match self {
            EncryptionKey::Loaded(key) => key@,
            EncryptionKey::Generated(key) => key@,
        }
    }

    /// The bytes of the key.
    pub fn as_bytes(&self) -> (key: &[u8])
        ensures
            key@ == self.bytes(),
    {
        match self {
            EncryptionKey::Loaded(key) => key.as_slice(),
            EncryptionKey::Generated(key) => key.as_slice(),
        }
    }
}

/// The key that a draw gave, `filled` being what the system's random
/// source answered and `buffer` what it left in the buffer: a generated key
/// with the bytes of the buffer where the source answered with success,
/// `Random` otherwise.
pub fn key_drawn(filled: Result<(), getrandom::Error>, buffer: [u8; KEY_LENGTH]) -> (key: Result<
    EncryptionKey,
    CodecError,
>)
    ensures
        filled is Ok ==> {
            &&& key matches Ok(made)
            &&& made is Generated
            &&& made.bytes() == buffer@
        },
        filled is Err ==> key == Err::<EncryptionKey, CodecError>(CodecError::Random),
{
    match filled {
        Ok(()) => Ok(EncryptionKey::Generated(vstd::slice::slice_to_vec(buffer.as_slice()))),
        Err(_) => Err(CodecError::Random),
    }
}

/// The key of the codec, given what the key file holds, if there is one.
/// The content of an existing key file is the key, as it is. Without a key
/// file a fresh random key of `KEY_LENGTH` bytes is made, to be written to
/// the key file once; this fails, with `Random`, only where the system
/// hands out no random bytes.
pub fn get_encryption_key(key_file: Option<Vec<u8>>) -> (key: Result<EncryptionKey, CodecError>)
    ensures
        match key_file {
            Some(content) => key == Ok::<EncryptionKey, CodecError>(EncryptionKey::Loaded(content)),
            None => match key {
                Ok(made) => made is Generated && made.bytes().len() == KEY_LENGTH,
                Err(e) => e == CodecError::Random,
            },
        },
{
    match key_file {
        Some(content) => Ok(EncryptionKey::Loaded(content)),
        None => {
            let mut key = [0u8;KEY_LENGTH];
            let filled = fill_random(&mut key);
            key_drawn(filled, key)
        },
    }
}

/// The nonce that a draw gave, `filled` being what the system's random
/// source answered and `buffer` what it left in the buffer: the buffer as
/// it is where the source answered with success, `Random` otherwise.
pub fn nonce_drawn(filled: Result<(), getrandom::Error>, buffer: [u8; NONCE_LENGTH]) -> (drawn:
    Result<[u8; NONCE_LENGTH], CodecError>)
    ensures
        filled is Ok ==> drawn == Ok::<[u8; NONCE_LENGTH], CodecError>(buffer),
        filled is Err ==> drawn == Err::<[u8; NONCE_LENGTH], CodecError>(CodecError::Random),
{
    match filled {
        Ok(()) => Ok(buffer),
        Err(_) => Err(CodecError::Random),
    }
}

/// Draws a fresh nonce: a buffer of a nonce's length is handed to the
/// system's random source, and what comes back is the nonce. Fails, with
/// `Random`, only where the system hands out no random bytes.
pub fn fresh_nonce() -> (drawn: Result<[u8; NONCE_LENGTH], CodecError>)
    ensures
        drawn matches Err(e) ==> e == CodecError::Random,
{
    let mut nonce = [0u8;NONCE_LENGTH];
    let filled = fill_random(&mut nonce);
    nonce_drawn(filled, nonce)
}

/// Seals `data` under `key` with the given nonce and returns the token.
/// Fails with `KeyLength` on a key of the wrong length and with `Encrypt` on
/// a text too long to be sealed, and on nothing else. The token opens to
/// `data` again under the same key.
pub fn encrypt_with_nonce(key: &[u8], nonce: &[u8; NONCE_LENGTH], data: &str) -> (token: Result<
    String,
    CodecError,
>)
    ensures
        text_of(token) == sealed_with(key@, Some(nonce@), data@),
        token matches Ok(t) ==> token_layout(t@, key@, nonce@, data@),
        token matches Ok(t) ==> opened_token(key@, t@) == Ok::<Seq<char>, CodecError>(data@),
{
    if key.len() != KEY_LENGTH {
        return Err(CodecError::KeyLength);
    }
    let plaintext = data.as_bytes();
    if !is_sealable(plaintext.len()) {
        return Err(CodecError::Encrypt);
    }
    match aes_seal(key, nonce.as_slice(), plaintext) {
        Ok(sealed) => {
            let mut combined: Vec<u8> = Vec::new();
            combined.extend_from_slice(nonce.as_slice());
            combined.extend_from_slice(sealed.as_slice());
            assert(combined@ =~= nonce@ + sealed@);
            let token = base64_encode(combined.as_slice());
            proof {
                let bytes = combined@;
                assert(bytes.subrange(0, NONCE_LENGTH as int) =~= nonce@);
                assert(bytes.subrange(NONCE_LENGTH as int, bytes.len() as int) =~= sealed@);
                encode_utf8_valid_utf8(data@);
                encode_utf8_decode_utf8(data@);
            }
            Ok(token)
        },
        Err(_) => Err(CodecError::Encrypt),
    }
}

/// Seals `data` under `key` with the nonce that was drawn for it, if one
/// was, and returns the token: the first of `KeyLength`, `Encrypt` and
/// `Random` that applies, or the token for that nonce.
pub fn encrypt_with(key: &[u8], drawn: Result<[u8; NONCE_LENGTH], CodecError>, data: &str) -> (token:
    Result<String, CodecError>)
    ensures
        text_of(token) == sealed_with(key@, nonce_of(drawn), data@),
        token matches Ok(t) ==> drawn is Ok && token_layout(t@, key@, drawn->Ok_0@, data@),
        token matches Ok(t) ==> opened_token(key@, t@) == Ok::<Seq<char>, CodecError>(data@),
{
    if key.len() != KEY_LENGTH {
        return Err(CodecError::KeyLength);
    }
    if !is_sealable(data.as_bytes().len()) {
        return Err(CodecError::Encrypt);
    }
    match drawn {
        Ok(nonce) => encrypt_with_nonce(key, &nonce, data),
        Err(_) => Err(CodecError::Random),
    }
}

/// Seals `data` under `key` with a fresh random nonce and returns the token.
/// Fails with `KeyLength` on a key of the wrong length, with `Encrypt` on a
/// text too long to be sealed, and with `Random` only where the system gave
/// no random bytes. Whatever nonce was drawn, the token opens to `data`
/// again under the same key.
pub fn encrypt_data(key: &[u8], data: &str) -> (token: Result<String, CodecError>)
    ensures
        exists|drawn: Option<Seq<u8>>| text_of(token) == #[trigger] sealed_with(key@, drawn, data@),
        token matches Ok(t) ==> exists|nonce: Seq<u8>|
            nonce.len() == NONCE_LENGTH && #[trigger] token_layout(t@, key@, nonce, data@),
        token matches Ok(t) ==> is_base64(t@),
        token matches Ok(t) ==> opened_token(key@, t@) == Ok::<Seq<char>, CodecError>(data@),
{
    let drawn = fresh_nonce();
    let token = encrypt_with(key, drawn, data);
    proof {
        if token is Ok {
            assert(token_layout(token->Ok_0@, key@, drawn->Ok_0@, data@));
        }
    }
    token
}

/// Opens `encrypted` under `key`: the text that was sealed, or the first
/// reason why there is none. Never panics, whatever the token holds.
pub fn decrypt_data(key: &[u8], encrypted: &str) -> (data: Result<String, CodecError>)
    ensures
        text_of(data) == opened_token(key@, encrypted@),
{
    if key.len() != KEY_LENGTH {
        return Err(CodecError::KeyLength);
    }
    let bytes = match base64_decode(encrypted) {
        Ok(bytes) => bytes,
        Err(_) => {
            return Err(CodecError::Decode);
        },
    };
    if bytes.len() < NONCE_LENGTH {
        return Err(CodecError::Truncated);
    }
    let (nonce, sealed) = bytes.as_slice().split_at(NONCE_LENGTH);
    let plaintext = match aes_open(key, nonce, sealed) {
        Ok(plaintext) => plaintext,
        Err(_) => {
            return Err(CodecError::Decrypt);
        },
    };
    match text_from_utf8(plaintext) {
        Ok(text) => Ok(text),
        Err(_) => Err(CodecError::Utf8),
    }
}

/// The stored form of a secret field, sealed with the nonce that was drawn
/// for it, if one was: the token of the value's JSON text, or nothing where
/// the value could not be written or sealed. A token that comes out opens
/// to the field's value again under the same key.
pub fn serialize_encrypted_with(
    value: &Option<String>,
    key: &[u8],
    drawn: Result<[u8; NONCE_LENGTH], CodecError>,
) -> (stored: Option<String>)
    ensures
        stored.deep_view() == sealed_field(key@, nonce_of(drawn), value.deep_view()),
        stored is Some <==> writable(key@, nonce_of(drawn), value.deep_view()),
        json_text(value.deep_view()) is Some,
        stored matches Some(token) ==> is_base64(token@),
        stored matches Some(token) ==> opened_field(key@, token@) == value.deep_view(),
{
    let json = match json_encode(value) {
        Ok(json) => json,
        Err(_) => {
            return None;
        },
    };
    match encrypt_with(key, drawn, json.as_str()) {
        Ok(token) => Some(token),
        Err(_) => None,
    }
}

/// The stored form of a secret field, sealed with a fresh random nonce: the
/// token of the value's JSON text, or nothing where the value could not be
/// written or sealed. A token that comes out opens to the field's value
/// again under the same key.
pub fn serialize_encrypted(value: &Option<String>, key: &[u8]) -> (stored: Option<String>)
    ensures
        exists|drawn: Option<Seq<u8>>|
            stored.deep_view() == #[trigger] sealed_field(key@, drawn, value.deep_view()),
        stored matches Some(token) ==> is_base64(token@),
        stored matches Some(token) ==> opened_field(key@, token@) == value.deep_view(),
{
    let drawn = fresh_nonce();
    serialize_encrypted_with(value, key, drawn)
}

/// The value of a secret field that was stored as `token`. A token that
/// does not open, or opens to something that is no JSON text of an optional
/// text, leaves the field unset; nothing is raised.
pub fn deserialize_encrypted(token: &str, key: &[u8]) -> (value: Option<String>)
    ensures
        value.deep_view() == opened_field(key@, token@),
{
    let json = match decrypt_data(key, token) {
        Ok(json) => json,
        Err(_) => {
            return None;
        },
    };
    match json_decode(json.as_str()) {
        Ok(value) => value,
        Err(_) => None,
    }
}

} // verus!
