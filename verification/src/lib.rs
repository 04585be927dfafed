//! The local-network synchronization core: a transactional configuration
//! store, a codec for secret configuration fields, the certificate and
//! listener lifecycle, and the bookkeeping of real-time message delivery.

pub mod client;
pub mod cmd;
pub mod config;
pub mod db;
pub mod dirs;
pub mod draft;
pub mod dtos;
pub mod encrypt;
pub mod events;
pub mod exception;
pub mod extractors;
pub mod feat;
pub mod guards;
pub mod help;
pub mod i18n;
pub mod message;
pub mod routes;
pub mod server;
pub mod store;
pub mod synclan;
pub mod text;
pub mod tls;
