use std::collections::HashMap;

use vk_service::{
    consume_outcome, issue_token, require_token, validate_upload, ApplicationError,
    CleanupResponse, DeleteAction, DeleteEvent, DeleteSession, FieldRole, GlobalConfig, Metadata,
    SweepAction, SweepEvent, SweepRun, UploadAction, UploadEvent, UploadForm, UploadSession, User,
    FileMetadata, field_role, TOKEN_TTL_SECONDS,
};

const OWNER: &str = "550e8400-e29b-41d4-a716-446655440000";
const OWNER_ID: u128 = 0x550e8400_e29b_41d4_a716_446655440000;
const OTHER: &str = "a1a2a3a4-b1b2-c1c2-d1d2-d3d4d5d6d7d8";

/// The stores and the provider, kept in memory.
struct World {
    tokens: HashMap<String, String>,
    users: HashMap<u128, User>,
    objects: HashMap<String, Vec<u8>>,
    records: HashMap<String, Metadata>,
    provider_calls: usize,
    fail_record_write: bool,
}

impl World {
    fn new() -> World {
        World {
            tokens: HashMap::new(),
            users: HashMap::new(),
            objects: HashMap::new(),
            records: HashMap::new(),
            provider_calls: 0,
            fail_record_write: false,
        }
    }

    fn add_user(&mut self, uid: u128, total: u64, used: u64, files: u64) {
        self.users.insert(uid, User { uid, file_count: files, total_space: total, used_space: used });
    }

    fn issue(&mut self, owner: Option<&str>) -> String {
        let grant = issue_token(&owner.map(|s| s.to_string()), TOKEN_TTL_SECONDS);
        assert_eq!(grant.ttl_seconds, TOKEN_TTL_SECONDS);
        self.tokens.insert(grant.key.clone(), grant.value.clone());
        grant.token
    }

    fn consume(&mut self, token: &str) -> Result<Option<String>, ApplicationError> {
        let key = vk_service::token_key(token);
        consume_outcome(self.tokens.remove(&key))
    }

    fn load_user(&self, uid: u128) -> Result<User, ApplicationError> {
        self.users.get(&uid).copied().ok_or(ApplicationError::NotFound)
    }

    fn upload(
        &mut self,
        header: Option<&str>,
        form: UploadForm,
        policy: &GlobalConfig,
        now: i64,
    ) -> Result<Metadata, ApplicationError> {
        let token = require_token(header.map(|s| s.to_string()))?;
        let owner = self.consume(&token)?;
        let request = validate_upload(form, policy, &owner)?;
        let (mut session, mut action) =
            UploadSession::start(request, policy.temp_file_life, "server-1".to_string());
        loop {
            let event = match action {
                UploadAction::LoadQuota(id) => UploadEvent::QuotaLoaded(self.load_user(id)),
                UploadAction::Store(data) => {
                    self.provider_calls += 1;
                    let id = format!("obj-{}", self.provider_calls);
                    let size = data.size();
                    self.objects.insert(id.clone(), data.content);
                    let stored = FileMetadata {
                        file_id: id,
                        size,
                        mime_type: data.mime_type,
                        filename: Some(data.filename),
                        provider: "memory".to_string(),
                    };
                    UploadEvent::Stored(Ok(stored), now)
                }
                UploadAction::Record(m) => {
                    if self.fail_record_write {
                        UploadEvent::Recorded(Err(ApplicationError::DatabaseError("down".to_string())))
                    } else {
                        self.records.insert(m.file_id.clone(), m.clone());
                        UploadEvent::Recorded(Ok(m))
                    }
                }
                UploadAction::ReloadQuota(id) => UploadEvent::QuotaReloaded(self.load_user(id)),
                UploadAction::CommitQuota(q) => {
                    self.users.insert(q.uid, q);
                    UploadEvent::QuotaCommitted(Ok(q))
                }
                UploadAction::Discard(id) => {
                    self.objects.remove(&id);
                    UploadEvent::Discarded(Ok(()))
                }
                UploadAction::Respond(r) => return r,
            };
            let (s, a) = session.step(event);
            session = s;
            action = a;
        }
    }

    fn sweep(&mut self, now: i64) -> CleanupResponse {
        let mut candidates: Vec<Metadata> = self
            .records
            .values()
            .filter(|m| matches!(m.delete_at, Some(t) if t <= now))
            .cloned()
            .collect();
        candidates.sort_by(|a, b| a.file_id.cmp(&b.file_id));
        let (mut run, mut action) = SweepRun::start(&candidates, now);
        loop {
            let event = match action {
                SweepAction::DeleteObject(id) => SweepEvent::ObjectDeleted(
                    self.objects.remove(&id).map(|_| ()).ok_or(ApplicationError::NotFound),
                ),
                SweepAction::DeleteRecord(id) => SweepEvent::RecordDeleted(
                    self.records.remove(&id).map(|_| ()).ok_or(ApplicationError::NotFound),
                ),
                SweepAction::LoadQuota(id) => SweepEvent::QuotaLoaded(self.load_user(id)),
                SweepAction::CommitQuota(q) => {
                    self.users.insert(q.uid, q);
                    SweepEvent::QuotaCommitted(Ok(q))
                }
                SweepAction::Finish => return run.finish(),
            };
            let (r, a) = run.step(event);
            run = r;
            action = a;
        }
    }

    fn delete(&mut self, file_id: &str) -> Result<(), ApplicationError> {
        let (mut session, mut action) = DeleteSession::start(file_id.to_string());
        loop {
            let event = match action {
                DeleteAction::LoadRecord(id) => DeleteEvent::RecordLoaded(
                    self.records.get(&id).cloned().ok_or(ApplicationError::NotFound),
                ),
                DeleteAction::DeleteObject(id) => DeleteEvent::ObjectDeleted(
                    self.objects.remove(&id).map(|_| ()).ok_or(ApplicationError::NotFound),
                ),
                DeleteAction::DeleteRecord(id) => DeleteEvent::RecordDeleted(
                    self.records.remove(&id).map(|_| ()).ok_or(ApplicationError::NotFound),
                ),
                DeleteAction::LoadQuota(id) => DeleteEvent::QuotaLoaded(self.load_user(id)),
                DeleteAction::CommitQuota(q) => {
                    self.users.insert(q.uid, q);
                    DeleteEvent::QuotaCommitted(Ok(q))
                }
                DeleteAction::Respond(r) => return r,
            };
            let (s, a) = session.step(event);
            session = s;
            action = a;
        }
    }
}

fn policy() -> GlobalConfig {
    GlobalConfig {
        mime_types: vec!["text/plain".to_string(), "image/png".to_string()],
        max_size: 1000,
        chunk_size: 100,
        temp_file_life: 3600,
        default_quota: 100,
    }
}

fn form(bytes: usize, kind: &str, user: Option<&str>) -> UploadForm {
    let mut f = UploadForm::new();
    f.set_file(vec![7u8; bytes]);
    f.set_text(field_role("filename"), "notes.txt".to_string());
    f.set_text(field_role("mime_type"), "text/plain".to_string());
    f.set_text(field_role("type"), kind.to_string());
    if let Some(u) = user {
        f.set_text(FieldRole::UserId, u.to_string());
    }
    f
}

#[test]
fn anonymous_temporary_upload_is_created() {
    let mut w = World::new();
    let token = w.issue(None);
    let m = w.upload(Some(&token), form(10, "temporal", None), &policy(), 1_000).unwrap();
    assert_eq!(m.size, 10);
    assert_eq!(m.user_id, None);
    assert_eq!(m.delete_at, Some(1_000 + 3600));
    assert_eq!(m.file_name, "notes.txt");
    assert_eq!(m.mime_type, "text/plain");
    assert_eq!(m.download_count, 0);
    assert_eq!(m.server_id, "server-1");
    assert_eq!(w.objects.len(), 1);
    assert!(w.records.contains_key(&m.file_id));
}

#[test]
fn permanent_upload_over_quota_is_refused() {
    let mut w = World::new();
    w.add_user(OWNER_ID, 100, 95, 3);
    let token = w.issue(Some(OWNER));
    let r = w.upload(Some(&token), form(10, "permanent", Some(OWNER)), &policy(), 1_000);
    assert!(matches!(r, Err(ApplicationError::InsufficientStorage)));
    assert_eq!(w.provider_calls, 0);
    assert!(w.objects.is_empty());
    assert!(w.records.is_empty());
    let u = w.users[&OWNER_ID];
    assert_eq!((u.used_space, u.file_count, u.total_space), (95, 3, 100));
}

#[test]
fn permanent_upload_within_quota_updates_it() {
    let mut w = World::new();
    w.add_user(OWNER_ID, 100, 50, 2);
    let token = w.issue(Some(OWNER));
    let m = w.upload(Some(&token), form(10, "permanent", Some(OWNER)), &policy(), 1_000).unwrap();
    assert_eq!(m.user_id.as_deref(), Some(OWNER));
    assert_eq!(m.delete_at, None);
    let u = w.users[&OWNER_ID];
    assert_eq!(u.used_space, 60);
    assert_eq!(u.file_count, 3);
    assert_eq!(u.total_space, 100);
}

#[test]
fn permanent_upload_filling_quota_exactly_is_accepted() {
    let mut w = World::new();
    w.add_user(OWNER_ID, 100, 90, 0);
    let token = w.issue(Some(OWNER));
    assert!(w.upload(Some(&token), form(10, "permanent", Some(OWNER)), &policy(), 5).is_ok());
    assert_eq!(w.users[&OWNER_ID].used_space, 100);
}

#[test]
fn deleting_permanent_file_gives_quota_back() {
    let mut w = World::new();
    w.add_user(OWNER_ID, 100, 50, 2);
    let token = w.issue(Some(OWNER));
    let m = w.upload(Some(&token), form(10, "permanent", Some(OWNER)), &policy(), 1_000).unwrap();
    assert_eq!(w.users[&OWNER_ID].used_space, 60);
    w.delete(&m.file_id).unwrap();
    assert!(!w.objects.contains_key(&m.file_id));
    assert!(!w.records.contains_key(&m.file_id));
    let u = w.users[&OWNER_ID];
    assert_eq!(u.used_space, 50);
    assert_eq!(u.file_count, 2);
}

#[test]
fn deleting_saturates_quota_at_zero() {
    let mut w = World::new();
    w.add_user(OWNER_ID, 100, 50, 2);
    let token = w.issue(Some(OWNER));
    let m = w.upload(Some(&token), form(10, "permanent", Some(OWNER)), &policy(), 1_000).unwrap();
    w.add_user(OWNER_ID, 100, 4, 0);
    w.delete(&m.file_id).unwrap();
    let u = w.users[&OWNER_ID];
    assert_eq!(u.used_space, 0);
    assert_eq!(u.file_count, 0);
}

#[test]
fn deleting_a_missing_file_is_not_found() {
    let mut w = World::new();
    assert!(matches!(w.delete("nothing"), Err(ApplicationError::NotFound)));
}

#[test]
fn temporary_file_is_swept_only_after_its_lifetime() {
    let mut w = World::new();
    let token = w.issue(None);
    let m = w.upload(Some(&token), form(10, "temporal", None), &policy(), 1_000).unwrap();
    assert_eq!(m.delete_at, Some(4_600));
    let early = w.sweep(4_599);
    assert_eq!(early.deleted_count, 0);
    assert!(early.errors.is_empty());
    assert!(w.objects.contains_key(&m.file_id));
    assert!(w.records.contains_key(&m.file_id));
    let due = w.sweep(4_600);
    assert_eq!(due.deleted_count, 1);
    assert!(due.errors.is_empty());
    assert!(!w.objects.contains_key(&m.file_id));
    assert!(!w.records.contains_key(&m.file_id));
}

#[test]
fn sweeping_twice_finds_nothing_the_second_time() {
    let mut w = World::new();
    let first = w.sweep(10_000);
    let second = w.sweep(10_000);
    assert_eq!((first.deleted_count, first.errors.len()), (0, 0));
    assert_eq!((second.deleted_count, second.errors.len()), (0, 0));
    let t1 = w.issue(None);
    w.upload(Some(&t1), form(3, "temporal", None), &policy(), 0).unwrap();
    let t2 = w.issue(None);
    w.upload(Some(&t2), form(4, "temporal", None), &policy(), 0).unwrap();
    let pass = w.sweep(10_000);
    assert_eq!(pass.deleted_count, 2);
    let again = w.sweep(10_000);
    assert_eq!((again.deleted_count, again.errors.len()), (0, 0));
}

#[test]
fn sweep_reports_a_provider_failure_and_goes_on() {
    let mut w = World::new();
    let t1 = w.issue(None);
    let a = w.upload(Some(&t1), form(3, "temporal", None), &policy(), 0).unwrap();
    let t2 = w.issue(None);
    let b = w.upload(Some(&t2), form(4, "temporal", None), &policy(), 0).unwrap();
    w.objects.remove(&a.file_id);
    let report = w.sweep(10_000);
    assert_eq!(report.deleted_count, 1);
    assert_eq!(report.errors.len(), 1);
    assert_eq!(
        report.errors[0],
        format!("Error deleting file {}: NotFound", a.file_id)
    );
    assert!(w.records.contains_key(&a.file_id));
    assert!(!w.records.contains_key(&b.file_id));
}

#[test]
fn token_is_consumed_at_most_once() {
    let mut w = World::new();
    let token = w.issue(None);
    assert_eq!(w.consume(&token).unwrap(), None);
    assert!(matches!(w.consume(&token), Err(ApplicationError::InvalidToken)));
    let owned = w.issue(Some(OWNER));
    assert_eq!(w.consume(&owned).unwrap().as_deref(), Some(OWNER));
    assert!(matches!(w.consume(&owned), Err(ApplicationError::InvalidToken)));
}

#[test]
fn token_cannot_be_reused_for_a_second_upload() {
    let mut w = World::new();
    let token = w.issue(None);
    assert!(w.upload(Some(&token), form(1, "temporal", None), &policy(), 0).is_ok());
    let again = w.upload(Some(&token), form(1, "temporal", None), &policy(), 0);
    assert!(matches!(again, Err(ApplicationError::InvalidToken)));
    assert_eq!(w.provider_calls, 1);
}

#[test]
fn upload_without_token_is_unauthorized() {
    let mut w = World::new();
    let r = w.upload(None, form(1, "temporal", None), &policy(), 0);
    assert!(matches!(r, Err(ApplicationError::Unauthorized)));
    let unknown = w.upload(Some("never-issued"), form(1, "temporal", None), &policy(), 0);
    assert!(matches!(unknown, Err(ApplicationError::InvalidToken)));
}

#[test]
fn anonymous_token_cannot_upload_for_an_owner() {
    let mut w = World::new();
    w.add_user(OWNER_ID, 100, 0, 0);
    let token = w.issue(None);
    let r = w.upload(Some(&token), form(1, "permanent", Some(OWNER)), &policy(), 0);
    assert!(matches!(r, Err(ApplicationError::Unauthorized)));
    let token = w.issue(None);
    let r = w.upload(Some(&token), form(1, "temporal", Some(OWNER)), &policy(), 0);
    assert!(matches!(r, Err(ApplicationError::Unauthorized)));
    assert_eq!(w.provider_calls, 0);
}

#[test]
fn owner_token_must_match_the_declared_owner() {
    let mut w = World::new();
    w.add_user(OWNER_ID, 100, 0, 0);
    let token = w.issue(Some(OWNER));
    let r = w.upload(Some(&token), form(1, "permanent", Some(OTHER)), &policy(), 0);
    assert!(matches!(r, Err(ApplicationError::Unauthorized)));
    let token = w.issue(Some(OWNER));
    let r = w.upload(Some(&token), form(1, "temporal", None), &policy(), 0);
    assert!(matches!(r, Err(ApplicationError::Unauthorized)));
    assert_eq!(w.provider_calls, 0);
}

#[test]
fn owner_may_upload_a_temporary_file_which_stays_anonymous() {
    let mut w = World::new();
    let token = w.issue(Some(OWNER));
    let m = w.upload(Some(&token), form(2, "temporal", Some(OWNER)), &policy(), 0).unwrap();
    assert_eq!(m.user_id, None);
    assert_eq!(m.delete_at, Some(3600));
}

#[test]
fn permanent_upload_for_unknown_user_is_not_found() {
    let mut w = World::new();
    let token = w.issue(Some(OWNER));
    let r = w.upload(Some(&token), form(1, "permanent", Some(OWNER)), &policy(), 0);
    assert!(matches!(r, Err(ApplicationError::NotFound)));
    assert_eq!(w.provider_calls, 0);
}

#[test]
fn permanent_upload_with_malformed_owner_id_is_bad_request() {
    let mut w = World::new();
    let token = w.issue(Some("not-a-uuid"));
    let r = w.upload(Some(&token), form(1, "permanent", Some("not-a-uuid")), &policy(), 0);
    assert!(matches!(r, Err(ApplicationError::BadRequest(_))));
    assert_eq!(w.provider_calls, 0);
}

#[test]
fn failed_record_write_discards_the_stored_object() {
    let mut w = World::new();
    w.fail_record_write = true;
    let token = w.issue(None);
    let r = w.upload(Some(&token), form(5, "temporal", None), &policy(), 0);
    assert!(matches!(r, Err(ApplicationError::DatabaseError(_))));
    assert_eq!(w.provider_calls, 1);
    assert!(w.objects.is_empty());
    assert!(w.records.is_empty());
}
