//! Upload brokering core: single-use upload tokens, the upload workflow that
//! keeps storage, metadata and quota consistent, the provider handle, and the
//! expiry sweep that reclaims temporary files.
//!
//! Every exchange with a store or a storage provider happens outside this
//! crate: the workflows here are step functions that take the outcome of the
//! previous exchange and name the next one.
pub mod config;
pub mod error;
pub mod file_ops;
pub mod ids;
pub mod model;
pub mod provider_handle;
pub mod storage;
pub mod sweep;
pub mod token;
pub mod upload;

pub use error::{ApplicationError, ErrorClass, StorageError};
pub use model::{FileData, FileMetadata, Metadata, MetadataDTO, User, UserDTO};
pub use token::{
    check_token_owner, consume_outcome, issue_token, require_token, stored_value, token_key,
    GenerateTokenRequest, TokenGrant, TokenResponse, TOKEN_TTL_SECONDS,
};
pub use config::{
    check_instance_target, create_storage_service, plan_provider_swap, GDriveSecrets, GlobalConfig,
    GlobalConfigDTO, HealthConfigInfo, LocalConfig, LocalConfigDTO, Provider, Secrets, SecretsDTO,
    StorageBackend, SupabaseSecrets,
};
pub use upload::{
    field_role, parse_kind, validate_upload, FieldRole, FileKind, UploadAction, UploadEvent,
    UploadForm, UploadRequest, UploadSession, UploadStage,
};
pub use sweep::{check_shared_secret, CleanupResponse, SweepAction, SweepEvent, SweepRun, SweepStage};
pub use file_ops::{
    check_metadata_update, content_disposition, DeleteAction, DeleteEvent, DeleteSession,
    DeleteStage,
};
pub use provider_handle::StorageServiceWrapper;
pub use storage::{check_provider_status, classify_transport_error, object_path, safe_file_name};
