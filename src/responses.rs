use vstd::prelude::*;
use std::collections::HashMap;

verus! {

/// One entry of the mount listing.
pub struct MountResponse {
    pub accessor: String,
    pub config: MountConfigResponse,
    pub description: String,
    pub external_entropy_access: bool,
    pub local: bool,
    pub options: Option<HashMap<String, String>>,
    pub seal_wrap: bool,
    pub mount_type: String,
    pub uuid: String,
}

/// The lease configuration of a mount.
pub struct MountConfigResponse {
    pub default_lease_ttl: u64,
    pub force_no_cache: bool,
    pub max_lease_ttl: u64,
}

/// One entry of the auth method listing.
pub struct AuthResponse {
    pub accessor: String,
    pub config: AuthConfigResponse,
    pub description: String,
    pub external_entropy_access: bool,
    pub local: bool,
    pub options: Option<HashMap<String, String>>,
    pub seal_wrap: bool,
    pub mount_type: String,
    pub uuid: String,
}

/// The lease configuration of an auth method.
pub struct AuthConfigResponse {
    pub default_lease_ttl: u64,
    pub force_no_cache: bool,
    pub max_lease_ttl: u64,
    pub token_type: String,
}

/// What the server tells of a wrapping token.
pub struct WrappingLookupResponse {
    pub creation_path: String,
    pub creation_time: String,
    pub creation_ttl: u64,
}

/// The health of the server.
pub struct ReadHealthResponse {
    pub cluster_id: String,
    pub cluster_name: String,
    pub initialized: bool,
    pub performance_standby: bool,
    pub replication_dr_mode: Option<String>,
    pub replication_perf_mode: Option<String>,
    pub sealed: bool,
    pub server_time_utc: u64,
    pub standby: bool,
    pub version: String,
}

/// The credential and its metadata, as a login or a renewal returns them.
pub struct AuthInfo {
    pub client_token: String,
    pub accessor: String,
    pub policies: Vec<String>,
    pub token_policies: Vec<String>,
    pub metadata: Option<HashMap<String, String>>,
    pub lease_duration: u64,
    pub renewable: bool,
    pub entity_id: String,
    pub token_type: String,
    pub orphan: bool,
}

/// What the server tells of the credential in use.
pub struct LookupTokenResponse {
    pub accessor: String,
    pub creation_time: u64,
    pub creation_ttl: u64,
    pub display_name: String,
    pub entity_id: String,
    pub expire_time: Option<String>,
    pub explicit_max_ttl: u64,
    pub id: String,
    pub issue_time: Option<String>,
    pub meta: Option<HashMap<String, String>>,
    pub num_uses: u64,
    pub orphan: bool,
    pub path: String,
    pub policies: Vec<String>,
    pub renewable: Option<bool>,
    pub ttl: u64,
    pub token_type: String,
}

/// The metadata of one version of a key-value secret.
pub struct SecretVersionMetadata {
    pub created_time: String,
    pub deletion_time: String,
    pub destroyed: bool,
    pub version: u64,
}

/// A key-value secret as read: its payload and the metadata of its version.
pub struct ReadSecretResponse {
    pub data: serde_json::Value,
    pub metadata: Option<SecretVersionMetadata>,
}

/// The keys found under a key-value path.
pub struct ListSecretsResponse {
    pub keys: Vec<String>,
}

/// The metadata of a key-value secret and of each of its versions.
pub struct ReadSecretMetadataResponse {
    pub cas_required: bool,
    pub created_time: String,
    pub current_version: u64,
    pub delete_version_after: String,
    pub max_versions: u64,
    pub oldest_version: u64,
    pub updated_time: String,
    pub versions: HashMap<String, SecretVersionMetadata>,
}

/// The configuration of a key-value mount.
pub struct ReadConfigurationResponse {
    pub cas_required: bool,
    pub delete_version_after: String,
    pub max_versions: u64,
}

} // verus!
