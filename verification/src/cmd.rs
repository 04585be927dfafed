//! What the commands of the interface compute.

use vstd::prelude::*;
use crate::synclan::{Document, ISynclan, ISynclanResponse, DEFAULT_HTTP_PORT};
use crate::text::{decimal, decimal_text, joined};

verus! {

/// The scheme under which the listener of a document is reached. Unlike the
/// listener itself, the address counts an unset flag as plain HTTP.
pub open spec fn scheme_of(document: Document) -> Seq<char> {
    if document.enable_encryption == Some(true) {
        "https"@
    } else {
        "http"@
    }
}

/// The address of the server for a document and the host's address `ip`.
pub open spec fn server_domain(document: Document, ip: Seq<char>) -> Seq<char> {
    scheme_of(document) + "://"@ + ip + ":"@ + decimal(
        match document.http_server_port {
            Some(port) => port as nat,
            None => DEFAULT_HTTP_PORT as nat,
        },
    )
}

/// The full address of the server: scheme, the host's address `ip` and the
/// port, as in `http://192.168.1.10:53317`.
pub fn get_server_domain(latest: &ISynclan, ip: &str) -> (domain: String)
    ensures
        domain@ == server_domain(latest@, ip@),
{
    let port = match latest.http_server_port {
        Some(port) => port,
        None => DEFAULT_HTTP_PORT,
    };
    let protocol = match latest.enable_encryption {
        Some(true) => "https",
        _ => "http",
    };
    let host = joined(joined(protocol, "://").as_str(), ip);
    joined(joined(host.as_str(), ":").as_str(), decimal_text(port as u64).as_str())
}

/// What is shown of a document: every field but the certificate and its
/// key.
pub open spec fn shown(document: ISynclan) -> ISynclanResponse {
    ISynclanResponse {
        app_log_level: document.app_log_level,
        locale: document.locale,
        theme: document.theme,
        enable_auto_launch: document.enable_auto_launch,
        enable_silent_start: document.enable_silent_start,
        auto_check_update: document.auto_check_update,
        auto_log_clean: document.auto_log_clean,
        enable_authorized_access: document.enable_authorized_access,
        authorized_access_code: document.authorized_access_code,
        http_server_port: document.http_server_port,
        auto_file_clean: document.auto_file_clean,
        file_upload_dir: document.file_upload_dir,
        enable_random_port: document.enable_random_port,
        enable_encryption: document.enable_encryption,
    }
}

/// The configuration as it is shown to the interface: the committed
/// document without the certificate and its key.
pub fn get_synclan_config(committed: &ISynclan) -> (response: ISynclanResponse)
    ensures
        response == shown(*committed),
{
    ISynclanResponse::from(committed.clone())
}

} // verus!
