//! The names of what the application keeps below its private directory.

use vstd::prelude::*;

verus! {

/// The identifier of the application, which names its private directory.
pub const APP_ID: &'static str = "io.github.1111mp.synclan";

/// The file of the configuration document.
pub const SYNCLAN_CONFIG: &'static str = "synclan.yaml";

/// The file of the codec's key: `KEY_LENGTH` raw bytes.
pub const ENCRYPTION_KEY_FILE: &'static str = ".encryption_key";

/// The directory of the logs.
pub const LOGS_DIR: &'static str = "logs";

/// The directory that receives uploads where the document names none.
pub const UPLOADS_DIR: &'static str = "uploads";

/// The directory of the database.
pub const DB_DIR: &'static str = "db";

/// The name of an exported certificate.
pub const EXPORTED_CERT: &'static str = "synclan.crt";

} // verus!
