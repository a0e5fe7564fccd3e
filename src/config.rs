//! Plain types of the server configuration.

use vstd::prelude::*;

verus! {

/// std's owned path, carried through the configuration's fields; nothing inside it is looked at.
#[verifier::external_type_specification]
#[verifier::external_body]
pub struct ExPathBuf(std::path::PathBuf);

/// When the configuration files are read again.
pub enum ReloadTrigger {
    Default,
    Never,
    Signal,
    FileSystemEvent,
}

/// Whether a key is generated, required, or optional.
pub enum KeyMode {
    Generate,
    Require,
    Optional,
}

/// Whether the server takes connections.
pub enum ReadinessState {
    NotReady,
    Ready,
    Maintenance,
}

/// The paths of the files that the server reads its configuration, keys and readiness from.
pub struct GelConfigPaths {
    /// What triggers reloading the files.
    pub reload_trigger: ReloadTrigger,
    /// How the TLS key is loaded.
    pub tls_mode: KeyMode,
    /// PEM certificate file holding the server certificate and possibly CA certificates.
    pub tls_cert_file: Option<std::path::PathBuf>,
    /// PEM private key file for TLS, which may be password-protected.
    pub tls_key_file: Option<std::path::PathBuf>,
    /// CA certificate file for verifying client certificates.
    pub tls_client_ca_file: Option<std::path::PathBuf>,
    /// Password of the TLS private key file.
    pub tls_key_password: Option<String>,
    /// How the JWT key is loaded.
    pub jwt_mode: KeyMode,
    /// PEM or JWK file of the key that verifies JWT signatures.
    pub jws_key_file: Option<std::path::PathBuf>,
    /// File holding one allowed JWT "sub" claim per line.
    pub jwt_sub_allowlist_file: Option<std::path::PathBuf>,
    /// File holding one revoked JWT "jti" claim per line.
    pub jwt_revocation_list_file: Option<std::path::PathBuf>,
    /// TOML file with the server settings.
    pub config_file: Option<std::path::PathBuf>,
    /// JSON file that defines the tenants in multi-tenant mode.
    pub multitenant_config_file: Option<std::path::PathBuf>,
    /// File holding the readiness state as "state:reason".
    pub readiness_state_file: Option<std::path::PathBuf>,
    /// Directories of extension packages, each with its package description.
    pub extensions_dirs: Vec<std::path::PathBuf>,
}

/// The configuration of one tenant.
pub struct GelTenantConfig {}

/// A configuration item after the files were read again, and whether it changed.
pub enum GelConfigItemUpdate<T> {
    Changed(T),
    Unchanged(T),
}

/// What happened to a tenant when the files were read again.
pub enum GelTenantUpdate {
    Created(String, GelTenantConfig),
    Modified(Option<String>, GelTenantConfig),
    Deleted(String),
}

} // verus!
