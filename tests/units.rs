use vk_service::{
    check_instance_target, check_metadata_update, check_provider_status, check_shared_secret,
    check_token_owner, classify_transport_error, content_disposition, create_storage_service,
    field_role, object_path, parse_kind, plan_provider_swap, safe_file_name, validate_upload,
    ApplicationError, ErrorClass, FieldRole, FileData, FileKind, GDriveSecrets, GlobalConfig,
    GlobalConfigDTO, HealthConfigInfo, LocalConfig, LocalConfigDTO, Metadata, MetadataDTO,
    Provider, Secrets, SecretsDTO, StorageBackend, StorageError, StorageServiceWrapper,
    SupabaseSecrets, UploadForm, User, UserDTO, TokenResponse, issue_token,
};

fn policy() -> GlobalConfig {
    GlobalConfig {
        mime_types: vec!["text/plain".to_string()],
        max_size: 5,
        chunk_size: 1,
        temp_file_life: 60,
        default_quota: 10,
    }
}

fn full_form() -> UploadForm {
    UploadForm {
        file: Some(vec![1, 2, 3]),
        filename: Some("a.txt".to_string()),
        mime_type: Some("text/plain".to_string()),
        kind: Some("temporal".to_string()),
        user_id: None,
        description: Some("d".to_string()),
    }
}

fn record(user: Option<&str>) -> Metadata {
    Metadata {
        file_id: "f1".to_string(),
        mime_type: "text/plain".to_string(),
        size: 3,
        user_id: user.map(|s| s.to_string()),
        description: None,
        file_name: "a.txt".to_string(),
        server_id: "s".to_string(),
        uploaded_at: 0,
        download_count: 0,
        last_access: 0,
        delete_at: if user.is_some() { None } else { Some(60) },
    }
}

#[test]
fn valid_form_becomes_a_request() {
    let q = validate_upload(full_form(), &policy(), &None).unwrap();
    assert_eq!(q.content, vec![1, 2, 3]);
    assert_eq!(q.filename, "a.txt");
    assert_eq!(q.kind, FileKind::Temporary);
    assert_eq!(q.description.as_deref(), Some("d"));
}

#[test]
fn missing_part_is_bad_request() {
    let mut f = full_form();
    f.file = None;
    assert!(matches!(validate_upload(f, &policy(), &None), Err(ApplicationError::BadRequest(_))));
    let mut f = full_form();
    f.kind = None;
    assert!(matches!(validate_upload(f, &policy(), &None), Err(ApplicationError::BadRequest(_))));
}

#[test]
fn disallowed_mime_type_is_bad_request() {
    let mut f = full_form();
    f.mime_type = Some("application/zip".to_string());
    assert!(matches!(validate_upload(f, &policy(), &None), Err(ApplicationError::BadRequest(_))));
}

#[test]
fn oversized_content_is_payload_too_large() {
    let mut f = full_form();
    f.file = Some(vec![0; 6]);
    assert!(matches!(validate_upload(f, &policy(), &None), Err(ApplicationError::PayloadTooLarge)));
    let mut f = full_form();
    f.file = Some(vec![0; 5]);
    assert!(validate_upload(f, &policy(), &None).is_ok());
}

#[test]
fn mime_check_comes_before_size_check() {
    let mut f = full_form();
    f.file = Some(vec![0; 6]);
    f.mime_type = Some("application/zip".to_string());
    assert!(matches!(validate_upload(f, &policy(), &None), Err(ApplicationError::BadRequest(_))));
}

#[test]
fn unknown_kind_is_bad_request() {
    let mut f = full_form();
    f.kind = Some("forever".to_string());
    assert!(matches!(validate_upload(f, &policy(), &None), Err(ApplicationError::BadRequest(_))));
}

#[test]
fn permanent_without_owner_is_bad_request() {
    let mut f = full_form();
    f.kind = Some("permanent".to_string());
    let owner = Some("u".to_string());
    assert!(matches!(validate_upload(f, &policy(), &owner), Err(ApplicationError::BadRequest(_))));
}

#[test]
fn field_names_map_to_roles() {
    assert_eq!(field_role("file"), FieldRole::File);
    assert_eq!(field_role("filename"), FieldRole::FileName);
    assert_eq!(field_role("mime_type"), FieldRole::MimeType);
    assert_eq!(field_role("type"), FieldRole::Kind);
    assert_eq!(field_role("user_id"), FieldRole::UserId);
    assert_eq!(field_role("description"), FieldRole::Description);
    assert_eq!(field_role("other"), FieldRole::Ignored);
    assert_eq!(parse_kind("temporal"), Some(FileKind::Temporary));
    assert_eq!(parse_kind("permanent"), Some(FileKind::Permanent));
    assert_eq!(parse_kind("temporary"), None);
}

#[test]
fn later_field_replaces_earlier() {
    let mut f = UploadForm::new();
    f.set_text(FieldRole::FileName, "one".to_string());
    f.set_text(FieldRole::FileName, "two".to_string());
    f.set_text(FieldRole::Ignored, "x".to_string());
    assert_eq!(f.filename.as_deref(), Some("two"));
    assert_eq!(f.mime_type, None);
}

#[test]
fn errors_map_to_status_and_message() {
    let cases = [
        (ApplicationError::NotFound, 404, "Resource not found"),
        (ApplicationError::BadRequest("x".to_string()), 400, "Bad request"),
        (ApplicationError::Unauthorized, 401, "Unauthorized"),
        (ApplicationError::InvalidToken, 401, "Unauthorized"),
        (ApplicationError::PayloadTooLarge, 413, "File too large"),
        (ApplicationError::InsufficientStorage, 507, "Insufficient storage quota"),
        (ApplicationError::InternalError("x".to_string()), 500, "Internal server error"),
        (ApplicationError::DatabaseError("x".to_string()), 500, "Internal server error"),
    ];
    for (e, status, message) in cases {
        assert_eq!(e.status_code(), status);
        assert_eq!(e.public_message(), message);
    }
    assert_eq!(ApplicationError::InvalidToken.class(), ErrorClass::InvalidToken);
    assert_eq!(ApplicationError::BadRequest("why".to_string()).describe(), "BadRequest(why)");
}

#[test]
fn storage_errors_become_service_errors() {
    assert!(matches!(
        StorageError::NotFound("f".to_string()).into_application(),
        ApplicationError::NotFound
    ));
    match StorageError::NetworkError("down".to_string()).into_application() {
        ApplicationError::StorageUnavailable(m) => assert_eq!(m, "Storage error: down"),
        other => panic!("unexpected {:?}", other),
    }
    assert!(matches!(StorageError::Unauthorized("x".to_string()).into_application(),
        ApplicationError::StorageUnavailable(_)));
    assert!(matches!(StorageError::ProviderError("x".to_string()).into_application(),
        ApplicationError::StorageRejected(m) if m == "Storage error: x"));
    assert!(matches!(StorageError::InvalidCredentials("x".to_string()).into_application(),
        ApplicationError::StorageRejected(_)));
    assert!(matches!(StorageError::InternalError("x".to_string()).into_application(),
        ApplicationError::InternalError(m) if m == "Storage error: x"));
    let unavailable = ApplicationError::StorageUnavailable("x".to_string());
    assert_eq!(unavailable.status_code(), 503);
    assert_eq!(unavailable.public_message(), "Storage temporarily unavailable");
    let rejected = ApplicationError::StorageRejected("x".to_string());
    assert_eq!(rejected.status_code(), 502);
    assert_eq!(rejected.public_message(), "Storage rejected the request");
    assert_eq!(rejected.describe(), "StorageRejected(x)");
}

#[test]
fn transport_failures_are_classified() {
    let d = || "detail".to_string();
    assert!(matches!(classify_transport_error(true, true, Some(404), d()),
        StorageError::NetworkError(m) if m == "Request timeout"));
    assert!(matches!(classify_transport_error(false, true, None, d()),
        StorageError::NetworkError(m) if m == "Connection failed: detail"));
    assert!(matches!(classify_transport_error(false, false, Some(404), d()), StorageError::NotFound(_)));
    assert!(matches!(classify_transport_error(false, false, Some(403), d()), StorageError::Unauthorized(_)));
    assert!(matches!(classify_transport_error(false, false, Some(500), d()), StorageError::ProviderError(_)));
    assert!(matches!(classify_transport_error(false, false, None, d()), StorageError::InternalError(_)));
}

#[test]
fn provider_status_is_checked() {
    let id = "obj".to_string();
    assert!(check_provider_status(204, &id, "Delete").is_ok());
    assert!(matches!(check_provider_status(404, &id, "Delete"), Err(StorageError::NotFound(f)) if f == "obj"));
    assert!(matches!(check_provider_status(500, &id, "Delete"),
        Err(StorageError::ProviderError(m)) if m == "Delete failed"));
}

#[test]
fn object_path_has_time_and_safe_name() {
    assert_eq!(safe_file_name("my file(1).tar.gz"), "my_file_1_.tar.gz");
    assert_eq!(safe_file_name("año-2.txt"), "año-2.txt");
    assert_eq!(object_path(1700000000123, "a b.txt"), "1700000000123/a_b.txt");
    assert_eq!(object_path(0, ""), "0/");
    assert_eq!(object_path(u128::MAX, "x"), format!("{}/x", u128::MAX));
    assert_eq!(object_path(10, "x"), "10/x");
}

#[test]
fn token_owner_must_be_a_uuid() {
    assert_eq!(check_token_owner(&None).unwrap(), None);
    let id = check_token_owner(&Some("550e8400-e29b-41d4-a716-446655440000".to_string())).unwrap();
    assert_eq!(id, Some(0x550e8400_e29b_41d4_a716_446655440000));
    assert!(matches!(check_token_owner(&Some("nope".to_string())), Err(ApplicationError::BadRequest(_))));
}

#[test]
fn issued_tokens_are_fresh_and_keyed() {
    let a = issue_token(&None, vk_service::TOKEN_TTL_SECONDS);
    let b = issue_token(&Some("u1".to_string()), 60);
    assert_ne!(a.token, b.token);
    for t in [&a.token, &b.token] {
        assert_eq!(t.len(), 36);
        let id = check_token_owner(&Some(t.to_string())).unwrap().unwrap();
        assert_eq!((id >> 76) & 0xf, 4);
        assert_eq!((id >> 62) & 3, 2);
    }
    assert_eq!(a.key, format!("upload_token:{}", a.token));
    assert_eq!(a.value, "");
    assert_eq!(b.value, "u1");
    assert_eq!(b.ttl_seconds, 60);
    let r = TokenResponse::from_grant(a);
    assert_eq!(r.expires_in, 300);
}

#[test]
fn shared_secret_must_match() {
    let expected = "s3cret".to_string();
    assert!(check_shared_secret(&Some("s3cret".to_string()), &expected).is_ok());
    assert!(matches!(check_shared_secret(&Some("other".to_string()), &expected), Err(ApplicationError::Unauthorized)));
    assert!(matches!(check_shared_secret(&None, &expected), Err(ApplicationError::Unauthorized)));
}

#[test]
fn metadata_of_temporary_files_is_immutable() {
    assert!(matches!(check_metadata_update(&record(None)), Err(ApplicationError::BadRequest(_))));
    assert!(check_metadata_update(&record(Some("u"))).is_ok());
    assert_eq!(content_disposition(&"a b.txt".to_string()), "attachment; filename=\"a b.txt\"");
}

#[test]
fn file_data_size_checks() {
    let d = FileData::new(vec![0; 4], "n".to_string(), "m".to_string());
    assert_eq!(d.size(), 4);
    assert!(d.validate_size(4));
    assert!(!d.validate_size(3));
    let empty = FileData::new(Vec::new(), "n".to_string(), "m".to_string());
    assert!(empty.validate_size(0));
}

#[test]
fn quota_arithmetic_saturates() {
    let u = User { uid: 1, file_count: 0, total_space: 10, used_space: 3 };
    assert!(u.has_room_for(7));
    assert!(!u.has_room_for(8));
    assert!(!u.has_room_for(u64::MAX));
    let down = u.after_removal(5);
    assert_eq!((down.file_count, down.used_space), (0, 0));
    let full = User { uid: 1, file_count: u64::MAX, total_space: 10, used_space: u64::MAX - 1 };
    let up = full.after_upload(5);
    assert_eq!((up.file_count, up.used_space), (u64::MAX, u64::MAX));
}

#[test]
fn global_config_update_is_sanitized() {
    let mut dto = GlobalConfigDTO {
        mime_types: Some(vec!["text/plain".to_string(), "  ".to_string(), "".to_string(), " image/png ".to_string()]),
        max_size: Some(u64::MAX),
        chunk_size: Some(7),
        temp_file_life: None,
        default_quota: Some(1 << 63),
    };
    dto.sanitize();
    assert_eq!(dto.mime_types, Some(vec!["text/plain".to_string(), " image/png ".to_string()]));
    assert_eq!(dto.max_size, Some(i64::MAX as u64));
    assert_eq!(dto.chunk_size, Some(7));
    assert_eq!(dto.temp_file_life, None);
    assert_eq!(dto.default_quota, Some(i64::MAX as u64));
    let c = GlobalConfig::from(dto);
    assert_eq!(c.temp_file_life, 0);
    assert_eq!(c.mime_types.len(), 2);
    let back = GlobalConfigDTO::from(c);
    assert_eq!(back.chunk_size, Some(7));
    let info = HealthConfigInfo::from_config(&policy());
    assert_eq!(info.allowed_mime_types, vec!["text/plain".to_string()]);
}

#[test]
fn secrets_update_is_trimmed() {
    let mut dto = SecretsDTO {
        db_password: Some("  pw \n".to_string()),
        db_username: None,
        vk_secret: Some("\tkey".to_string()),
        gdrive_secrets: None,
        supabase_secrets: None,
    };
    dto.sanitize();
    assert_eq!(dto.db_password.as_deref(), Some("pw"));
    let once = dto.clone();
    dto.sanitize();
    assert_eq!(dto.db_password, once.db_password);
    assert_eq!(dto.vk_secret, once.vk_secret);
    assert_eq!(dto.db_username, None);
    assert_eq!(dto.vk_secret.as_deref(), Some("key"));
    let s = Secrets::from(dto);
    assert_eq!(s.db_username, "");
}

#[test]
fn local_config_defaults_to_gdrive() {
    let c = LocalConfig::from(LocalConfigDTO::default());
    assert_eq!(c.provider, Provider::GDrive);
    assert_eq!(c.server_id, "");
    let mut dto = LocalConfigDTO::from(c);
    dto.sanitize();
    assert_eq!(dto.provider, Some(Provider::GDrive));
    assert_eq!(Provider::parse("supabase"), Some(Provider::Supabase));
    assert_eq!(Provider::parse("s3"), None);
    assert_eq!(Provider::Supabase.name(), "supabase");
}

fn secrets(with_gdrive: bool) -> Secrets {
    Secrets {
        db_password: String::new(),
        db_username: String::new(),
        vk_secret: String::new(),
        gdrive_secrets: if with_gdrive {
            Some(GDriveSecrets { folder_id: "f".to_string(), google_credentials: "{}".to_string() })
        } else {
            None
        },
        supabase_secrets: None,
    }
}

#[test]
fn storage_backend_needs_its_secrets() {
    assert!(matches!(create_storage_service(&Provider::GDrive, &secrets(true)),
        Ok(StorageBackend::GDrive(g)) if g.folder_id == "f"));
    assert!(matches!(create_storage_service(&Provider::Supabase, &secrets(true)),
        Err(StorageError::InvalidCredentials(m)) if m == "Supabase secrets not found"));
    assert!(matches!(create_storage_service(&Provider::GDrive, &secrets(false)),
        Err(StorageError::InvalidCredentials(m)) if m == "GDrive secrets not found"));
    let supa = SupabaseSecrets {
        endpoint: "e".to_string(),
        region: "r".to_string(),
        access_key_id: "a".to_string(),
        secret_access_key: "k".to_string(),
        bucket_name: "b".to_string(),
    };
    let mut s = secrets(false);
    s.supabase_secrets = Some(supa);
    assert!(matches!(create_storage_service(&Provider::Supabase, &s), Ok(StorageBackend::Supabase(_))));
}

#[test]
fn provider_swap_only_on_change() {
    let updated = LocalConfig {
        provider: Provider::Supabase,
        server_name: "n".to_string(),
        server_url: "u".to_string(),
        server_id: "id".to_string(),
    };
    assert!(matches!(plan_provider_swap(Provider::Supabase, &updated, &secrets(false)), Ok(None)));
    assert!(matches!(plan_provider_swap(Provider::GDrive, &updated, &secrets(true)),
        Err(ApplicationError::InternalError(m))
            if m == "Failed to create storage service for the new provider"));
    assert!(check_instance_target(&"a".to_string(), &"a".to_string()).is_ok());
    assert!(matches!(check_instance_target(&"a".to_string(), &"b".to_string()),
        Err(ApplicationError::BadRequest(_))));
}

#[test]
fn provider_handle_swaps() {
    let handle = StorageServiceWrapper::new("first".to_string());
    let snapshot = handle.get();
    handle.replace("second".to_string());
    assert_eq!(snapshot, "first");
    assert_eq!(handle.get(), "second");
}

#[test]
fn dto_conversions_fill_defaults() {
    let q = UserDTO::for_query(9);
    assert_eq!(q.file_count, None);
    let mut u = UserDTO { uid: 9, file_count: Some(u64::MAX), total_space: Some(3), used_space: None };
    u.sanitize();
    assert_eq!(u.file_count, Some(i64::MAX as u64));
    let user = User::from(u);
    assert_eq!(user.used_space, 0);
    assert_eq!(UserDTO::quota_update(&user).total_space, None);
    let m = Metadata::from_dto(MetadataDTO { file_id: "x".to_string(), ..Default::default() }, 77);
    assert_eq!((m.uploaded_at, m.last_access, m.size), (77, 77, 0));
    let mut d = MetadataDTO::from(record(None));
    d.size = Some(u64::MAX);
    d.sanitize();
    assert_eq!(d.size, Some(i64::MAX as u64));
    assert_eq!(d.delete_at, Some(60));
}

#[test]
fn unicode_white_space_is_trimmed() {
    let mut dto = SecretsDTO {
        db_password: Some("\u{3000}pw\u{a0}".to_string()),
        db_username: Some("\u{2003}".to_string()),
        vk_secret: Some("a b".to_string()),
        gdrive_secrets: None,
        supabase_secrets: None,
    };
    dto.sanitize();
    assert_eq!(dto.db_password.as_deref(), Some("pw"));
    assert_eq!(dto.db_username.as_deref(), Some(""));
    assert_eq!(dto.vk_secret.as_deref(), Some("a b"));
    let mut g = GlobalConfigDTO {
        mime_types: Some(vec!["\u{2028}\u{85}".to_string(), "text/csv".to_string()]),
        max_size: None,
        chunk_size: None,
        temp_file_life: None,
        default_quota: None,
    };
    g.sanitize();
    assert_eq!(g.mime_types, Some(vec!["text/csv".to_string()]));
}
