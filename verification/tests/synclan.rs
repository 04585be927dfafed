use synclan::cmd::{get_server_domain, get_synclan_config};
use synclan::config::Config;
use synclan::encrypt::{decrypt_data, CodecError};
use synclan::help::save_yaml;
use synclan::synclan::{ISynclan, ISynclanResponse, LogLevel, CONFIG_HEADER, DEFAULT_HTTP_PORT};

fn key() -> Vec<u8> {
    vec![42u8; 32]
}

#[test]
fn template_has_the_defaults() {
    let t = ISynclan::template("de".to_string(), Some("/data/uploads".to_string()), false);
    assert_eq!(t.app_log_level, None);
    assert_eq!(t.locale.as_deref(), Some("de"));
    assert_eq!(t.theme.as_deref(), Some("system"));
    assert_eq!(t.enable_auto_launch, Some(false));
    assert_eq!(t.enable_silent_start, Some(false));
    assert_eq!(t.auto_check_update, Some(true));
    assert_eq!(t.auto_log_clean, Some(3));
    assert_eq!(t.enable_authorized_access, Some(false));
    assert_eq!(t.authorized_access_code, None);
    assert_eq!(t.enable_random_port, Some(false));
    assert_eq!(t.http_server_port, Some(53317));
    assert_eq!(DEFAULT_HTTP_PORT, 53317);
    assert_eq!(t.auto_file_clean, Some(1));
    assert_eq!(t.file_upload_dir.as_deref(), Some("/data/uploads"));
    assert_eq!(t.enable_encryption, Some(false));
    assert_eq!(t.cert_pem, None);
    assert_eq!(t.signing_key_pem, None);
}

#[test]
fn template_follows_the_host() {
    let t = ISynclan::template("en".to_string(), None, true);
    assert_eq!(t.enable_encryption, Some(true));
    assert_eq!(t.file_upload_dir, None);
}

#[test]
fn new_prefers_the_stored_document() {
    let stored = ISynclan { theme: Some("dark".to_string()), ..ISynclan::default() };
    let d = ISynclan::new(Some(stored), "en".to_string(), None, true);
    assert_eq!(d.theme.as_deref(), Some("dark"));
    assert_eq!(d.locale, None);
    assert_eq!(d.enable_encryption, None);
    let d = ISynclan::new(None, "fr".to_string(), None, true);
    assert_eq!(d.theme.as_deref(), Some("system"));
    assert_eq!(d.locale.as_deref(), Some("fr"));
    assert_eq!(d.enable_encryption, Some(true));
}

#[test]
fn default_is_all_unset() {
    let d = ISynclan::default();
    assert_eq!(d.app_log_level, None);
    assert_eq!(d.http_server_port, None);
    assert_eq!(d.enable_encryption, None);
    assert_eq!(d.cert_pem, None);
}

#[test]
fn patch_sets_only_what_it_names() {
    let mut d = ISynclan::template("en".to_string(), Some("/up".to_string()), false);
    d.patch_config(ISynclan {
        theme: Some("dark".to_string()),
        http_server_port: Some(8000),
        enable_encryption: Some(true),
        ..ISynclan::default()
    });
    assert_eq!(d.theme.as_deref(), Some("dark"));
    assert_eq!(d.http_server_port, Some(8000));
    assert_eq!(d.enable_encryption, Some(true));
    // untouched
    assert_eq!(d.locale.as_deref(), Some("en"));
    assert_eq!(d.file_upload_dir.as_deref(), Some("/up"));
    assert_eq!(d.auto_log_clean, Some(3));
    assert_eq!(d.enable_auto_launch, Some(false));
}

#[test]
fn patch_reaches_every_field() {
    let mut d = ISynclan::default();
    d.patch_config(ISynclan {
        app_log_level: Some("a".to_string()),
        locale: Some("b".to_string()),
        theme: Some("c".to_string()),
        enable_auto_launch: Some(true),
        enable_silent_start: Some(true),
        auto_check_update: Some(false),
        auto_log_clean: Some(4),
        enable_authorized_access: Some(true),
        authorized_access_code: Some("d".to_string()),
        enable_random_port: Some(true),
        http_server_port: Some(1),
        auto_file_clean: Some(2),
        file_upload_dir: Some("e".to_string()),
        enable_encryption: Some(false),
        cert_pem: Some("f".to_string()),
        signing_key_pem: Some("g".to_string()),
    });
    assert_eq!(d.app_log_level.as_deref(), Some("a"));
    assert_eq!(d.locale.as_deref(), Some("b"));
    assert_eq!(d.theme.as_deref(), Some("c"));
    assert_eq!(d.enable_auto_launch, Some(true));
    assert_eq!(d.enable_silent_start, Some(true));
    assert_eq!(d.auto_check_update, Some(false));
    assert_eq!(d.auto_log_clean, Some(4));
    assert_eq!(d.enable_authorized_access, Some(true));
    assert_eq!(d.authorized_access_code.as_deref(), Some("d"));
    assert_eq!(d.enable_random_port, Some(true));
    assert_eq!(d.http_server_port, Some(1));
    assert_eq!(d.auto_file_clean, Some(2));
    assert_eq!(d.file_upload_dir.as_deref(), Some("e"));
    assert_eq!(d.enable_encryption, Some(false));
    assert_eq!(d.cert_pem.as_deref(), Some("f"));
    assert_eq!(d.signing_key_pem.as_deref(), Some("g"));
    // an empty patch changes nothing, and cannot unset a field
    d.patch_config(ISynclan::default());
    assert_eq!(d.app_log_level.as_deref(), Some("a"));
    assert_eq!(d.signing_key_pem.as_deref(), Some("g"));
    assert_eq!(d.http_server_port, Some(1));
}

fn with_level(level: Option<&str>) -> ISynclan {
    ISynclan { app_log_level: level.map(|l| l.to_string()), ..ISynclan::default() }
}

#[test]
fn log_level_by_name() {
    assert_eq!(with_level(Some("silent")).get_log_level(), LogLevel::Off);
    assert_eq!(with_level(Some("error")).get_log_level(), LogLevel::Error);
    assert_eq!(with_level(Some("warn")).get_log_level(), LogLevel::Warn);
    assert_eq!(with_level(Some("info")).get_log_level(), LogLevel::Info);
    assert_eq!(with_level(Some("debug")).get_log_level(), LogLevel::Debug);
    assert_eq!(with_level(Some("trace")).get_log_level(), LogLevel::Trace);
}

#[test]
fn log_level_ignores_case_and_defaults_to_info() {
    assert_eq!(with_level(Some("DEBUG")).get_log_level(), LogLevel::Debug);
    assert_eq!(with_level(Some("Silent")).get_log_level(), LogLevel::Off);
    assert_eq!(with_level(Some("tRaCe")).get_log_level(), LogLevel::Trace);
    assert_eq!(with_level(Some("verbose")).get_log_level(), LogLevel::Info);
    assert_eq!(with_level(Some("")).get_log_level(), LogLevel::Info);
    assert_eq!(with_level(Some(" debug")).get_log_level(), LogLevel::Info);
    assert_eq!(with_level(None).get_log_level(), LogLevel::Info);
    assert_eq!(LogLevel::from_name("DEBUG"), LogLevel::Info);
}

#[test]
fn tls_is_the_default_posture() {
    let mut d = ISynclan::default();
    assert!(d.wants_tls());
    d.enable_encryption = Some(true);
    assert!(d.wants_tls());
    d.enable_encryption = Some(false);
    assert!(!d.wants_tls());
}

#[test]
fn stored_document_holds_secrets_as_tokens() {
    let d = ISynclan {
        theme: Some("dark".to_string()),
        http_server_port: Some(9000),
        authorized_access_code: Some("12345678".to_string()),
        cert_pem: Some("CERT".to_string()),
        signing_key_pem: None,
        ..ISynclan::default()
    };
    let stored = d.save_config(&key());
    assert_eq!(stored.theme.as_deref(), Some("dark"));
    assert_eq!(stored.http_server_port, Some(9000));
    assert_eq!(stored.signing_key_pem, None);
    let code = stored.authorized_access_code.clone().unwrap();
    let cert = stored.cert_pem.clone().unwrap();
    assert_ne!(code, "12345678");
    assert_ne!(cert, "CERT");
    assert_eq!(decrypt_data(&key(), &code), Ok("\"12345678\"".to_string()));
    assert_eq!(decrypt_data(&key(), &cert), Ok("\"CERT\"".to_string()));
    let opened = ISynclan::open_secrets(stored, &key());
    assert_eq!(opened.authorized_access_code.as_deref(), Some("12345678"));
    assert_eq!(opened.cert_pem.as_deref(), Some("CERT"));
    assert_eq!(opened.signing_key_pem, None);
    assert_eq!(opened.theme.as_deref(), Some("dark"));
    assert_eq!(opened.http_server_port, Some(9000));
}

#[test]
fn stored_document_with_known_nonces() {
    let d = ISynclan {
        authorized_access_code: Some("code".to_string()),
        cert_pem: Some("CERT".to_string()),
        signing_key_pem: Some("KEY".to_string()),
        ..ISynclan::default()
    };
    let a = d.save_config_with(&key(), Ok([1; 12]), Ok([2; 12]), Err(CodecError::Random));
    let b = d.save_config_with(&key(), Ok([1; 12]), Ok([2; 12]), Ok([3; 12]));
    assert!(a.authorized_access_code.is_some());
    assert_eq!(a.authorized_access_code, b.authorized_access_code);
    assert_eq!(a.cert_pem, b.cert_pem);
    assert_eq!(a.signing_key_pem, None);
    assert!(b.signing_key_pem.is_some());
    assert_eq!(ISynclan::open_secrets(b, &key()).signing_key_pem.as_deref(), Some("KEY"));
}

#[test]
fn damaged_secret_does_not_block_the_document() {
    let d = ISynclan {
        theme: Some("light".to_string()),
        authorized_access_code: Some("12345678".to_string()),
        cert_pem: Some("CERT".to_string()),
        ..ISynclan::default()
    };
    let mut stored = d.save_config(&key());
    stored.cert_pem = Some("garbage".to_string());
    let opened = ISynclan::open_secrets(stored, &key());
    assert_eq!(opened.cert_pem, None);
    assert_eq!(opened.authorized_access_code.as_deref(), Some("12345678"));
    assert_eq!(opened.theme.as_deref(), Some("light"));
    // with another key every secret is unset, the rest stays
    let stored = d.save_config(&key());
    let opened = ISynclan::open_secrets(stored, &[1u8; 32]);
    assert_eq!(opened.cert_pem, None);
    assert_eq!(opened.authorized_access_code, None);
    assert_eq!(opened.theme.as_deref(), Some("light"));
}

#[test]
fn file_text_has_the_header() {
    assert_eq!(CONFIG_HEADER, "# SyncLan Config File");
    assert_eq!(save_yaml("theme: dark\n", Some(CONFIG_HEADER)), "# SyncLan Config File\n\ntheme: dark\n");
    assert_eq!(save_yaml("theme: dark\n", None), "theme: dark\n");
    assert_eq!(save_yaml("", Some("#")), "#\n\n");
}

#[test]
fn response_leaves_out_the_certificate() {
    let d = ISynclan {
        theme: Some("dark".to_string()),
        authorized_access_code: Some("12345678".to_string()),
        cert_pem: Some("CERT".to_string()),
        signing_key_pem: Some("KEY".to_string()),
        http_server_port: Some(1234),
        ..ISynclan::default()
    };
    let r: ISynclanResponse = get_synclan_config(&d);
    assert_eq!(r.theme.as_deref(), Some("dark"));
    assert_eq!(r.authorized_access_code.as_deref(), Some("12345678"));
    assert_eq!(r.http_server_port, Some(1234));
    assert_eq!(r.locale, None);
    let r = ISynclanResponse::from(d);
    assert_eq!(r.theme.as_deref(), Some("dark"));
}

#[test]
fn server_domain_by_flag_and_port() {
    let mut d = ISynclan::default();
    assert_eq!(get_server_domain(&d, "192.168.1.10"), "http://192.168.1.10:53317");
    d.enable_encryption = Some(true);
    d.http_server_port = Some(8443);
    assert_eq!(get_server_domain(&d, "10.0.0.1"), "https://10.0.0.1:8443");
    d.enable_encryption = Some(false);
    d.http_server_port = Some(0);
    assert_eq!(get_server_domain(&d, "::1"), "http://::1:0");
    d.http_server_port = Some(65535);
    assert_eq!(get_server_domain(&d, "h"), "http://h:65535");
}

#[test]
fn config_holds_one_store() {
    let mut config = Config::new(ISynclan { theme: Some("dark".to_string()), ..ISynclan::default() });
    assert_eq!(config.synclan().data_ref().theme.as_deref(), Some("dark"));
    config.synclan_mut().draft_mut().theme = Some("light".to_string());
    assert_eq!(config.synclan().latest_ref().theme.as_deref(), Some("light"));
    assert_eq!(config.synclan().data_ref().theme.as_deref(), Some("dark"));
    assert!(config.synclan_mut().apply().is_some());
    assert_eq!(config.synclan().data_ref().theme.as_deref(), Some("light"));
}
