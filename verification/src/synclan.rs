//! The configuration document: its fields, the merge of a partial update
//! into it, the template that stands in for a missing file, and what other
//! components read from it.

use vstd::prelude::*;
use crate::encrypt::{
    deserialize_encrypted, fresh_nonce, is_base64, nonce_of, opened_field, sealed_field,
    sealable_field, serialize_encrypted_with, writable, CodecError, NONCE_LENGTH,
};
use crate::text::{lowercase_of, owned, str_eq, to_lowercase};

verus! {

/// The comment that heads the stored document.
pub const CONFIG_HEADER: &'static str = "# SyncLan Config File";

/// Port of the listener where the document names none.
pub const DEFAULT_HTTP_PORT: u16 = 53317;

/// The configuration document. Every field is optional: an absent field in
/// a stored document is unset, an absent field in a patch leaves the target
/// as it is.
#[derive(Debug)]
pub struct ISynclan {
    /// Log level of the application: `silent`, `error`, `warn`, `info`, `debug` or `trace`.
    pub app_log_level: Option<String>,
    /// Language of the interface.
    pub locale: Option<String>,
    /// Theme of the interface: `system`, `light` or `dark`.
    pub theme: Option<String>,
    /// Whether the application starts with the session.
    pub enable_auto_launch: Option<bool>,
    /// Whether the window stays hidden on launch.
    pub enable_silent_start: Option<bool>,
    /// Whether updates are looked for automatically.
    pub auto_check_update: Option<bool>,
    /// Retention of log files: 0 keeps them, 1 to 4 stand for 1, 7, 30 and 90 days.
    pub auto_log_clean: Option<i32>,
    /// Whether peers must present the access code.
    pub enable_authorized_access: Option<bool>,
    /// The access code. Secret: stored as a token.
    pub authorized_access_code: Option<String>,
    /// Whether the listener picks a random port.
    pub enable_random_port: Option<bool>,
    /// Port of the listener.
    pub http_server_port: Option<u16>,
    /// Retention of uploaded files: 0 keeps them, 1 to 3 stand for 7, 30 and 90 days.
    pub auto_file_clean: Option<i32>,
    /// Directory that receives uploaded files.
    pub file_upload_dir: Option<String>,
    /// Whether the listener terminates TLS.
    pub enable_encryption: Option<bool>,
    /// The self-signed certificate, as PEM. Secret: stored as a token.
    pub cert_pem: Option<String>,
    /// The private key of the certificate, as PEM. Secret: stored as a token.
    pub signing_key_pem: Option<String>,
}

/// The mathematical content of a configuration document: texts are
/// sequences of characters.
pub struct Document {
    pub app_log_level: Option<Seq<char>>,
    pub locale: Option<Seq<char>>,
    pub theme: Option<Seq<char>>,
    pub enable_auto_launch: Option<bool>,
    pub enable_silent_start: Option<bool>,
    pub auto_check_update: Option<bool>,
    pub auto_log_clean: Option<i32>,
    pub enable_authorized_access: Option<bool>,
    pub authorized_access_code: Option<Seq<char>>,
    pub enable_random_port: Option<bool>,
    pub http_server_port: Option<u16>,
    pub auto_file_clean: Option<i32>,
    pub file_upload_dir: Option<Seq<char>>,
    pub enable_encryption: Option<bool>,
    pub cert_pem: Option<Seq<char>>,
    pub signing_key_pem: Option<Seq<char>>,
}

impl View for ISynclan {
    type V = Document;

    open spec fn view(&self) -> Document {
        Document {
            app_log_level: self.app_log_level.deep_view(),
            locale: self.locale.deep_view(),
            theme: self.theme.deep_view(),
            enable_auto_launch: self.enable_auto_launch,
            enable_silent_start: self.enable_silent_start,
            auto_check_update: self.auto_check_update,
            auto_log_clean: self.auto_log_clean,
            enable_authorized_access: self.enable_authorized_access,
            authorized_access_code: self.authorized_access_code.deep_view(),
            enable_random_port: self.enable_random_port,
            http_server_port: self.http_server_port,
            auto_file_clean: self.auto_file_clean,
            file_upload_dir: self.file_upload_dir.deep_view(),
            enable_encryption: self.enable_encryption,
            cert_pem: self.cert_pem.deep_view(),
            signing_key_pem: self.signing_key_pem.deep_view(),
        }
    }
}

/// The value of a field after a merge: the patch's value where the patch has
/// one, the target's own value otherwise.
pub open spec fn merged<T>(target: Option<T>, patch: Option<T>) -> Option<T> {
    if patch is Some {
        patch
    } else {
        target
    }
}

impl Document {
    /// The document with every field unset.
    pub open spec fn empty() -> Document {
        Document {
            app_log_level: None,
            locale: None,
            theme: None,
            enable_auto_launch: None,
            enable_silent_start: None,
            auto_check_update: None,
            auto_log_clean: None,
            enable_authorized_access: None,
            authorized_access_code: None,
            enable_random_port: None,
            http_server_port: None,
            auto_file_clean: None,
            file_upload_dir: None,
            enable_encryption: None,
            cert_pem: None,
            signing_key_pem: None,
        }
    }

    /// The document after `patch` was merged into it: a field that the patch
    /// sets takes the patch's value, every other field keeps its own.
    pub open spec fn patched(self, patch: Document) -> Document {
        Document {
            app_log_level: merged(self.app_log_level, patch.app_log_level),
            locale: merged(self.locale, patch.locale),
            theme: merged(self.theme, patch.theme),
            enable_auto_launch: merged(self.enable_auto_launch, patch.enable_auto_launch),
            enable_silent_start: merged(self.enable_silent_start, patch.enable_silent_start),
            auto_check_update: merged(self.auto_check_update, patch.auto_check_update),
            auto_log_clean: merged(self.auto_log_clean, patch.auto_log_clean),
            enable_authorized_access: merged(self.enable_authorized_access, patch.enable_authorized_access),
            authorized_access_code: merged(self.authorized_access_code, patch.authorized_access_code),
            enable_random_port: merged(self.enable_random_port, patch.enable_random_port),
            http_server_port: merged(self.http_server_port, patch.http_server_port),
            auto_file_clean: merged(self.auto_file_clean, patch.auto_file_clean),
            file_upload_dir: merged(self.file_upload_dir, patch.file_upload_dir),
            enable_encryption: merged(self.enable_encryption, patch.enable_encryption),
            cert_pem: merged(self.cert_pem, patch.cert_pem),
            signing_key_pem: merged(self.signing_key_pem, patch.signing_key_pem),
        }
    }

    /// The document that stands in for a missing or unreadable file.
    /// `encrypt` is the host's default for the encryption flag.
    pub open spec fn template(
        locale: Seq<char>,
        file_upload_dir: Option<Seq<char>>,
        encrypt: bool,
    ) -> Document {
        Document {
            locale: Some(locale),
            theme: Some("system"@),
            enable_auto_launch: Some(false),
            enable_silent_start: Some(false),
            auto_check_update: Some(true),
            enable_random_port: Some(false),
            auto_log_clean: Some(3),
            enable_authorized_access: Some(false),
            http_server_port: Some(DEFAULT_HTTP_PORT),
            file_upload_dir: file_upload_dir,
            auto_file_clean: Some(1),
            enable_encryption: Some(encrypt),
            ..Document::empty()
        }
    }

    /// Whether the two documents agree on every field that is stored in
    /// clear.
    pub open spec fn same_clear_fields(self, other: Document) -> bool {
        &&& self.app_log_level == other.app_log_level
        &&& self.locale == other.locale
        &&& self.theme == other.theme
        &&& self.enable_auto_launch == other.enable_auto_launch
        &&& self.enable_silent_start == other.enable_silent_start
        &&& self.auto_check_update == other.auto_check_update
        &&& self.auto_log_clean == other.auto_log_clean
        &&& self.enable_authorized_access == other.enable_authorized_access
        &&& self.enable_random_port == other.enable_random_port
        &&& self.http_server_port == other.http_server_port
        &&& self.auto_file_clean == other.auto_file_clean
        &&& self.file_upload_dir == other.file_upload_dir
        &&& self.enable_encryption == other.enable_encryption
    }

    /// The stored form of the document under `key`: each secret field is
    /// sealed with the nonce that was drawn for it, every other field is
    /// itself.
    pub open spec fn sealed(
        self,
        key: Seq<u8>,
        for_code: Option<Seq<u8>>,
        for_cert: Option<Seq<u8>>,
        for_key: Option<Seq<u8>>,
    ) -> Document {
        Document {
            authorized_access_code: sealed_secret(self.authorized_access_code, key, for_code),
            cert_pem: sealed_secret(self.cert_pem, key, for_cert),
            signing_key_pem: sealed_secret(self.signing_key_pem, key, for_key),
            ..self
        }
    }

    /// Whether every secret field that the document holds is base64 text,
    /// as a token is: none of them shows a line of a certificate or a key.
    pub open spec fn secrets_are_tokens(self) -> bool {
        &&& self.authorized_access_code matches Some(token) ==> is_base64(token)
        &&& self.cert_pem matches Some(token) ==> is_base64(token)
        &&& self.signing_key_pem matches Some(token) ==> is_base64(token)
    }

    /// Whether `stored` is a stored form of the document under `key`: the
    /// clear fields agree, an unset secret is not stored, and every secret
    /// that is stored opens to its value.
    pub open spec fn is_stored_as(self, stored: Document, key: Seq<u8>) -> bool {
        &&& stored.same_clear_fields(self)
        &&& self.authorized_access_code is None ==> stored.authorized_access_code is None
        &&& self.cert_pem is None ==> stored.cert_pem is None
        &&& self.signing_key_pem is None ==> stored.signing_key_pem is None
        &&& stored.authorized_access_code is Some ==> stored.opened(key).authorized_access_code
            == self.authorized_access_code
        &&& stored.cert_pem is Some ==> stored.opened(key).cert_pem == self.cert_pem
        &&& stored.signing_key_pem is Some ==> stored.opened(key).signing_key_pem
            == self.signing_key_pem
    }

    /// The document that a stored document stands for under `key`: each
    /// secret field is what its token opens to, every other field is itself.
    pub open spec fn opened(self, key: Seq<u8>) -> Document {
        Document {
            authorized_access_code: opened_secret(self.authorized_access_code, key),
            cert_pem: opened_secret(self.cert_pem, key),
            signing_key_pem: opened_secret(self.signing_key_pem, key),
            ..self
        }
    }

    /// The log level that the document asks for: the level that its
    /// `app_log_level` names once lower-cased, `Info` where it names none.
    pub open spec fn log_level(self) -> LogLevel {
        match self.app_log_level {
            Some(name) => LogLevel::named(lowercase_of(name)),
            None => LogLevel::Info,
        }
    }

    /// Whether the listener is to terminate TLS. Encryption is the default
    /// posture: only an explicit `false` switches it off.
    pub open spec fn wants_tls(self) -> bool {
        self.enable_encryption != Some(false)
    }
}

/// The value of a secret field that is stored as `stored`: what the token
/// opens to under `key`, and nothing where the field is not stored or its
/// token does not open.
pub open spec fn opened_secret(stored: Option<Seq<char>>, key: Seq<u8>) -> Option<Seq<char>> {
    match stored {
        Some(token) => opened_field(key, token),
        None => None,
    }
}

/// The stored form of the secret field `value` under `key`, `drawn` being
/// the nonce that was drawn for it, if one was: an unset field is not
/// stored, a set one is stored as its token, if it could be sealed.
pub open spec fn sealed_secret(value: Option<Seq<char>>, key: Seq<u8>, drawn: Option<Seq<u8>>) -> Option<
    Seq<char>,
> {
    if value is None {
        None
    } else {
        sealed_field(key, drawn, value)
    }
}

/// A stored form in which every secret that is set was written opens to
/// the document again: what is sealed for the file comes back from it.
pub proof fn law_stored_document_opens(document: Document, stored: Document, key: Seq<u8>)
    requires
        document.is_stored_as(stored, key),
        document.authorized_access_code is Some ==> stored.authorized_access_code is Some,
        document.cert_pem is Some ==> stored.cert_pem is Some,
        document.signing_key_pem is Some ==> stored.signing_key_pem is Some,
    ensures
        stored.opened(key) == document,
{
}

/// How much the application logs.
#[derive(Clone, Copy, Debug, PartialEq, Eq, Structural)]
pub enum LogLevel {
    Off,
    Error,
    Warn,
    Info,
    Debug,
    Trace,
}

impl LogLevel {
    /// The level that a lower-case name stands for; a name that is not
    /// recognized stands for `Info`.
    pub open spec fn named(name: Seq<char>) -> LogLevel {
        if name == "silent"@ {
            LogLevel::Off
        } else if name == "error"@ {
            LogLevel::Error
        } else if name == "warn"@ {
            LogLevel::Warn
        } else if name == "info"@ {
            LogLevel::Info
        } else if name == "debug"@ {
            LogLevel::Debug
        } else if name == "trace"@ {
            LogLevel::Trace
        } else {
            LogLevel::Info
        }
    }

    /// The level that the lower-case `name` stands for.
    pub fn from_name(name: &str) -> (level: LogLevel)
        ensures
            level == LogLevel::named(name@),
    {
        if str_eq(name, "silent") {
            LogLevel::Off
        } else if str_eq(name, "error") {
            LogLevel::Error
        } else if str_eq(name, "warn") {
            LogLevel::Warn
        } else if str_eq(name, "info") {
            LogLevel::Info
        } else if str_eq(name, "debug") {
            LogLevel::Debug
        } else if str_eq(name, "trace") {
            LogLevel::Trace
        } else {
            LogLevel::Info
        }
    }
}

impl Clone for ISynclan {
    fn clone(&self) -> (copy: Self)
        ensures
            copy == *self,
    {
        ISynclan {
            app_log_level: clone_text(&self.app_log_level),
            locale: clone_text(&self.locale),
            theme: clone_text(&self.theme),
            enable_auto_launch: self.enable_auto_launch,
            enable_silent_start: self.enable_silent_start,
            auto_check_update: self.auto_check_update,
            auto_log_clean: self.auto_log_clean,
            enable_authorized_access: self.enable_authorized_access,
            authorized_access_code: clone_text(&self.authorized_access_code),
            enable_random_port: self.enable_random_port,
            http_server_port: self.http_server_port,
            auto_file_clean: self.auto_file_clean,
            file_upload_dir: clone_text(&self.file_upload_dir),
            enable_encryption: self.enable_encryption,
            cert_pem: clone_text(&self.cert_pem),
            signing_key_pem: clone_text(&self.signing_key_pem),
        }
    }
}

impl Default for ISynclan {
    fn default() -> (document: Self)
        ensures
            document@ == Document::empty(),
    {
        ISynclan {
            app_log_level: None,
            locale: None,
            theme: None,
            enable_auto_launch: None,
            enable_silent_start: None,
            auto_check_update: None,
            auto_log_clean: None,
            enable_authorized_access: None,
            authorized_access_code: None,
            enable_random_port: None,
            http_server_port: None,
            auto_file_clean: None,
            file_upload_dir: None,
            enable_encryption: None,
            cert_pem: None,
            signing_key_pem: None,
        }
    }
}

/// Merges one field: the patch's value, where it has one, replaces the
/// target's.
fn merge<T>(target: &mut Option<T>, patch: Option<T>)
    ensures
        *final(target) == merged(*old(target), patch),
{
    if patch.is_some() {
        *target = patch;
    }
}

/// The stored form of one secret field.
fn seal_secret(value: &Option<String>, key: &[u8], drawn: Result<[u8; NONCE_LENGTH], CodecError>) -> (stored:
    Option<String>)
    ensures
        stored.deep_view() == sealed_secret(value.deep_view(), key@, nonce_of(drawn)),
        stored is Some <==> value is Some && writable(key@, nonce_of(drawn), value.deep_view()),
        stored matches Some(token) ==> is_base64(token@),
        stored matches Some(token) ==> opened_field(key@, token@) == value.deep_view(),
{
    if value.is_none() {
        None
    } else {
        serialize_encrypted_with(value, key, drawn)
    }
}

/// The value of one secret field, from its stored form.
fn open_secret(stored: &Option<String>, key: &[u8]) -> (value: Option<String>)
    ensures
        value.deep_view() == opened_secret(stored.deep_view(), key@),
{
    match stored {
        Some(token) => deserialize_encrypted(token.as_str(), key),
        None => None,
    }
}

/// Whether two optional texts hold the same.
fn same_text(a: &Option<String>, b: &Option<String>) -> (same: bool)
    ensures
        same == (a.deep_view() == b.deep_view()),
{
    match (a, b) {
        (Some(x), Some(y)) => str_eq(x.as_str(), y.as_str()),
        (None, None) => true,
        _ => false,
    }
}

/// Whether two optional flags hold the same.
fn same_flag(a: Option<bool>, b: Option<bool>) -> (same: bool)
    ensures
        same == (a == b),
{
    match (a, b) {
        (Some(x), Some(y)) => x == y,
        (None, None) => true,
        _ => false,
    }
}

/// Whether two optional numbers hold the same.
fn same_number(a: Option<i32>, b: Option<i32>) -> (same: bool)
    ensures
        same == (a == b),
{
    match (a, b) {
        (Some(x), Some(y)) => x == y,
        (None, None) => true,
        _ => false,
    }
}

/// Whether two optional ports hold the same.
fn same_port(a: Option<u16>, b: Option<u16>) -> (same: bool)
    ensures
        same == (a == b),
{
    match (a, b) {
        (Some(x), Some(y)) => x == y,
        (None, None) => true,
        _ => false,
    }
}

/// A copy of an optional text.
fn clone_text(text: &Option<String>) -> (copy: Option<String>)
    ensures
        copy == *text,
{
    match text {
        Some(t) => Some(t.clone()),
        None => None,
    }
}

impl ISynclan {
    /// The document that the application starts with: the stored document
    /// where one was read, the template otherwise.
    pub fn new(
        stored: Option<ISynclan>,
        locale: String,
        file_upload_dir: Option<String>,
        encrypt: bool,
    ) -> (document: Self)
        ensures
            stored is Some ==> document == stored->0,
            stored is None ==> document@ == Document::template(
                locale@,
                file_upload_dir.deep_view(),
                encrypt,
            ),
    {
        match stored {
            Some(document) => document,
            None => Self::template(locale, file_upload_dir, encrypt),
        }
    }

    /// The document for a first start. `locale` is the language of the
    /// interface, `file_upload_dir` the directory for uploads where the host
    /// offers one, `encrypt` the host's default for the encryption flag.
    pub fn template(locale: String, file_upload_dir: Option<String>, encrypt: bool) -> (document:
        Self)
        ensures
            document@ == Document::template(locale@, file_upload_dir.deep_view(), encrypt),
    {
        ISynclan {
            app_log_level: None,
            locale: Some(locale),
            theme: Some(owned("system")),
            enable_auto_launch: Some(false),
            enable_silent_start: Some(false),
            auto_check_update: Some(true),
            auto_log_clean: Some(3),
            enable_authorized_access: Some(false),
            authorized_access_code: None,
            enable_random_port: Some(false),
            http_server_port: Some(DEFAULT_HTTP_PORT),
            auto_file_clean: Some(1),
            file_upload_dir,
            enable_encryption: Some(encrypt),
            cert_pem: None,
            signing_key_pem: None,
        }
    }

    /// The document as it is written to the file, each secret field sealed
    /// under `key` with the nonce that was drawn for it, if one was. A
    /// secret field that is set is written exactly if the key has a key's
    /// length, a nonce was drawn for it and its JSON text can be sealed; it
    /// is then base64 text, and opens to the field's value again under the
    /// same key. A secret field that is unset, or that could not be sealed,
    /// is left out.
    pub fn save_config_with(
        &self,
        key: &[u8],
        for_code: Result<[u8; NONCE_LENGTH], CodecError>,
        for_cert: Result<[u8; NONCE_LENGTH], CodecError>,
        for_key: Result<[u8; NONCE_LENGTH], CodecError>,
    ) -> (stored: ISynclan)
        ensures
            stored@ == self@.sealed(key@, nonce_of(for_code), nonce_of(for_cert), nonce_of(for_key)),
            self@.is_stored_as(stored@, key@),
            stored@.secrets_are_tokens(),
            stored@.authorized_access_code is Some <==> self@.authorized_access_code is Some
                && writable(key@, nonce_of(for_code), self@.authorized_access_code),
            stored@.cert_pem is Some <==> self@.cert_pem is Some && writable(
                key@,
                nonce_of(for_cert),
                self@.cert_pem,
            ),
            stored@.signing_key_pem is Some <==> self@.signing_key_pem is Some && writable(
                key@,
                nonce_of(for_key),
                self@.signing_key_pem,
            ),
    {
        let copy = self.clone();
        ISynclan {
            authorized_access_code: seal_secret(&self.authorized_access_code, key, for_code),
            cert_pem: seal_secret(&self.cert_pem, key, for_cert),
            signing_key_pem: seal_secret(&self.signing_key_pem, key, for_key),
            ..copy
        }
    }

    /// The document as it is written to the file: the secret fields are
    /// sealed under `key`, each with a fresh random nonce, every other field
    /// is copied. A secret field that is unset, or that cannot be sealed
    /// under this key, is left out, and so is one for which the system
    /// handed out no nonce; one that is written is base64 text and opens to
    /// the field's value again under the same key.
    pub fn save_config(&self, key: &[u8]) -> (stored: ISynclan)
        ensures
            exists|for_code: Option<Seq<u8>>, for_cert: Option<Seq<u8>>, for_key: Option<Seq<u8>>|
                stored@ == #[trigger] self@.sealed(key@, for_code, for_cert, for_key),
            self@.is_stored_as(stored@, key@),
            stored@.secrets_are_tokens(),
            stored@.authorized_access_code is Some ==> sealable_field(
                key@,
                self@.authorized_access_code,
            ),
            stored@.cert_pem is Some ==> sealable_field(key@, self@.cert_pem),
            stored@.signing_key_pem is Some ==> sealable_field(key@, self@.signing_key_pem),
    {
        let for_code = fresh_nonce();
        let for_cert = fresh_nonce();
        let for_key = fresh_nonce();
        self.save_config_with(key, for_code, for_cert, for_key)
    }

    /// The document that was written to the file as `stored`: each secret
    /// field is what its token opens to under `key`. A token that does not
    /// open leaves its field unset and the rest of the document as it is.
    pub fn open_secrets(stored: ISynclan, key: &[u8]) -> (document: ISynclan)
        ensures
            document@ == stored@.opened(key@),
    {
        let authorized_access_code = open_secret(&stored.authorized_access_code, key);
        let cert_pem = open_secret(&stored.cert_pem, key);
        let signing_key_pem = open_secret(&stored.signing_key_pem, key);
        ISynclan { authorized_access_code, cert_pem, signing_key_pem, ..stored }
    }

    /// Merges `patch` into the document: every field that the patch sets
    /// replaces the document's, every other field stays.
    pub fn patch_config(&mut self, patch: ISynclan)
        ensures
            final(self)@ == old(self)@.patched(patch@),
    {
        merge(&mut self.app_log_level, patch.app_log_level);
        merge(&mut self.locale, patch.locale);
        merge(&mut self.theme, patch.theme);
        merge(&mut self.enable_auto_launch, patch.enable_auto_launch);
        merge(&mut self.enable_silent_start, patch.enable_silent_start);
        merge(&mut self.auto_check_update, patch.auto_check_update);
        merge(&mut self.auto_log_clean, patch.auto_log_clean);
        merge(&mut self.enable_authorized_access, patch.enable_authorized_access);
        merge(&mut self.authorized_access_code, patch.authorized_access_code);
        merge(&mut self.enable_random_port, patch.enable_random_port);
        merge(&mut self.http_server_port, patch.http_server_port);
        merge(&mut self.auto_file_clean, patch.auto_file_clean);
        merge(&mut self.file_upload_dir, patch.file_upload_dir);
        merge(&mut self.enable_encryption, patch.enable_encryption);
        merge(&mut self.cert_pem, patch.cert_pem);
        merge(&mut self.signing_key_pem, patch.signing_key_pem);
    }

    /// The log level that the document asks for.
    pub fn get_log_level(&self) -> (level: LogLevel)
        ensures
            level == self@.log_level(),
    {
        match &self.app_log_level {
            Some(name) => {
                let lower = to_lowercase(name.as_str());
                LogLevel::from_name(lower.as_str())
            },
            None => LogLevel::Info,
        }
    }

    /// Whether the two documents hold the same in every field.
    pub fn same_as(&self, other: &ISynclan) -> (same: bool)
        ensures
            same == (self@ == other@),
    {
        same_text(&self.app_log_level, &other.app_log_level) && same_text(
            &self.locale,
            &other.locale,
        ) && same_text(&self.theme, &other.theme) && same_flag(
            self.enable_auto_launch,
            other.enable_auto_launch,
        ) && same_flag(self.enable_silent_start, other.enable_silent_start) && same_flag(
            self.auto_check_update,
            other.auto_check_update,
        ) && same_number(self.auto_log_clean, other.auto_log_clean) && same_flag(
            self.enable_authorized_access,
            other.enable_authorized_access,
        ) && same_text(&self.authorized_access_code, &other.authorized_access_code) && same_flag(
            self.enable_random_port,
            other.enable_random_port,
        ) && same_port(self.http_server_port, other.http_server_port) && same_number(
            self.auto_file_clean,
            other.auto_file_clean,
        ) && same_text(&self.file_upload_dir, &other.file_upload_dir) && same_flag(
            self.enable_encryption,
            other.enable_encryption,
        ) && same_text(&self.cert_pem, &other.cert_pem) && same_text(
            &self.signing_key_pem,
            &other.signing_key_pem,
        )
    }

    /// Whether the listener is to terminate TLS.
    pub fn wants_tls(&self) -> (tls: bool)
        ensures
            tls == self@.wants_tls(),
    {
        match self.enable_encryption {
            Some(false) => false,
            _ => true,
        }
    }
}

/// The part of the configuration document that is shown to the interface:
/// everything but the certificate and its key.
#[derive(Debug)]
pub struct ISynclanResponse {
    pub app_log_level: Option<String>,
    pub locale: Option<String>,
    pub theme: Option<String>,
    pub enable_auto_launch: Option<bool>,
    pub enable_silent_start: Option<bool>,
    pub auto_check_update: Option<bool>,
    pub auto_log_clean: Option<i32>,
    pub enable_authorized_access: Option<bool>,
    pub authorized_access_code: Option<String>,
    pub http_server_port: Option<u16>,
    pub auto_file_clean: Option<i32>,
    pub file_upload_dir: Option<String>,
    pub enable_random_port: Option<bool>,
    pub enable_encryption: Option<bool>,
}

impl From<ISynclan> for ISynclanResponse {
    fn from(synclan: ISynclan) -> (response: Self) {
        ISynclanResponse {
            app_log_level: synclan.app_log_level,
            locale: synclan.locale,
            theme: synclan.theme,
            enable_auto_launch: synclan.enable_auto_launch,
            enable_silent_start: synclan.enable_silent_start,
            auto_check_update: synclan.auto_check_update,
            auto_log_clean: synclan.auto_log_clean,
            enable_authorized_access: synclan.enable_authorized_access,
            authorized_access_code: synclan.authorized_access_code,
            http_server_port: synclan.http_server_port,
            auto_file_clean: synclan.auto_file_clean,
            file_upload_dir: synclan.file_upload_dir,
            enable_random_port: synclan.enable_random_port,
            enable_encryption: synclan.enable_encryption,
        }
    }
}

impl vstd::std_specs::convert::FromSpecImpl<ISynclan> for ISynclanResponse {
    open spec fn obeys_from_spec() -> bool {
        true
    }

    open spec fn from_spec(synclan: ISynclan) -> Self {
        ISynclanResponse {
            app_log_level: synclan.app_log_level,
            locale: synclan.locale,
            theme: synclan.theme,
            enable_auto_launch: synclan.enable_auto_launch,
            enable_silent_start: synclan.enable_silent_start,
            auto_check_update: synclan.auto_check_update,
            auto_log_clean: synclan.auto_log_clean,
            enable_authorized_access: synclan.enable_authorized_access,
            authorized_access_code: synclan.authorized_access_code,
            http_server_port: synclan.http_server_port,
            auto_file_clean: synclan.auto_file_clean,
            file_upload_dir: synclan.file_upload_dir,
            enable_random_port: synclan.enable_random_port,
            enable_encryption: synclan.enable_encryption,
        }
    }
}

} // verus!
