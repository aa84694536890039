use vstd::prelude::*;
use crate::config::GlobalConfig;
use crate::error::{class_of, ApplicationError, ErrorClass};
use crate::ids::{parse_uuid, uuid_of};
use crate::model::{clone_opt, fits_quota, sat_add, FileData, FileMetadata, Metadata, User};
use crate::token::opt_view;

verus! {

/// Whether two texts are equal.
pub fn text_is(a: &str, b: &str) -> (r: bool)
    ensures
        r == (a@ == b@),
{
    a.to_owned() == b.to_owned()
}

/// The part of an upload form that a multipart field fills.
#[derive(Debug, Clone, Copy, PartialEq, Eq, Structural)]
pub enum FieldRole {
    File,
    FileName,
    MimeType,
    Kind,
    UserId,
    Description,
    Ignored,
}

/// The role of the multipart field named `name`.
pub open spec fn role_of(name: Seq<char>) -> FieldRole {
    if name == "file"@ {
        FieldRole::File
    } else if name == "filename"@ {
        FieldRole::FileName
    } else if name == "mime_type"@ {
        FieldRole::MimeType
    } else if name == "type"@ {
        FieldRole::Kind
    } else if name == "user_id"@ {
        FieldRole::UserId
    } else if name == "description"@ {
        FieldRole::Description
    } else {
        FieldRole::Ignored
    }
}

/// The role of the multipart field named `name`: the file's bytes, one of
/// the text fields, or a field that is ignored.
pub fn field_role(name: &str) -> (r: FieldRole)
    ensures
        r == role_of(name@),
{
    if text_is(name, "file") {
        FieldRole::File
    } else if text_is(name, "filename") {
        FieldRole::FileName
    } else if text_is(name, "mime_type") {
        FieldRole::MimeType
    } else if text_is(name, "type") {
        FieldRole::Kind
    } else if text_is(name, "user_id") {
        FieldRole::UserId
    } else if text_is(name, "description") {
        FieldRole::Description
    } else {
        FieldRole::Ignored
    }
}

/// The two classes of stored file.
#[derive(Debug, Clone, Copy, PartialEq, Eq, Structural)]
pub enum FileKind {
    Temporary,
    Permanent,
}

/// The kind that the form's `type` field names.
pub open spec fn kind_of(s: Seq<char>) -> Option<FileKind> {
    if s == "temporal"@ {
        Some(FileKind::Temporary)
    } else if s == "permanent"@ {
        Some(FileKind::Permanent)
    } else {
        None
    }
}

pub fn parse_kind(s: &str) -> (r: Option<FileKind>)
    ensures
        r == kind_of(s@),
{
    if text_is(s, "temporal") {
        Some(FileKind::Temporary)
    } else if text_is(s, "permanent") {
        Some(FileKind::Permanent)
    } else {
        None
    }
}

/// The parts of an upload form as they were read; a later field of the same
/// name replaces an earlier one.
#[derive(Debug, Clone)]
pub struct UploadForm {
    pub file: Option<Vec<u8>>,
    pub filename: Option<String>,
    pub mime_type: Option<String>,
    pub kind: Option<String>,
    pub user_id: Option<String>,
    pub description: Option<String>,
}

impl UploadForm {
    pub fn new() -> (r: UploadForm)
        ensures
            r.file is None,
            r.filename is None,
            r.mime_type is None,
            r.kind is None,
            r.user_id is None,
            r.description is None,
    {
        UploadForm {
            file: None,
            filename: None,
            mime_type: None,
            kind: None,
            user_id: None,
            description: None,
        }
    }

    /// Records the file's bytes.
    pub fn set_file(&mut self, bytes: Vec<u8>)
        ensures
            final(self).file == Some(bytes),
            final(self).filename == old(self).filename,
            final(self).mime_type == old(self).mime_type,
            final(self).kind == old(self).kind,
            final(self).user_id == old(self).user_id,
            final(self).description == old(self).description,
    {
        self.file = Some(bytes);
    }

    /// Records a text field in the part that `role` names; the file's bytes
    /// and ignored fields leave the form as it is.
    pub fn set_text(&mut self, role: FieldRole, text: String)
        ensures
            final(self).file == old(self).file,
            final(self).filename == (if role == FieldRole::FileName { Some(text) } else { old(self).filename }),
            final(self).mime_type == (if role == FieldRole::MimeType { Some(text) } else { old(self).mime_type }),
            final(self).kind == (if role == FieldRole::Kind { Some(text) } else { old(self).kind }),
            final(self).user_id == (if role == FieldRole::UserId { Some(text) } else { old(self).user_id }),
            final(self).description == (if role == FieldRole::Description { Some(text) } else { old(self).description }),
    {
        match role {
            FieldRole::FileName => { self.filename = Some(text); },
            FieldRole::MimeType => { self.mime_type = Some(text); },
            FieldRole::Kind => { self.kind = Some(text); },
            FieldRole::UserId => { self.user_id = Some(text); },
            FieldRole::Description => { self.description = Some(text); },
            FieldRole::File => {},
            FieldRole::Ignored => {},
        }
    }
}

/// Whether `m` is one of the allowed MIME types.
pub open spec fn mime_allowed(allowed: Seq<String>, m: Seq<char>) -> bool {
    exists|i: int| 0 <= i < allowed.len() && (#[trigger] allowed[i])@ == m
}

pub fn is_mime_allowed(allowed: &Vec<String>, m: &String) -> (r: bool)
    ensures
        r == mime_allowed(allowed@, m@),
{
    let mut i: usize = 0;
    while i < allowed.len()
        invariant
            i <= allowed.len(),
            forall|j: int| 0 <= j < i ==> (#[trigger] allowed@[j])@ != m@,
        decreases allowed.len() - i,
    {
        if allowed[i] == *m {
            return true;
        }
        i = i + 1;
    }
    false
}

/// The form has every required part, within the policy, and of a known
/// kind; a permanent upload names its owner.
pub open spec fn passes_policy(form: UploadForm, policy: GlobalConfig) -> bool {
    &&& form.file is Some
    &&& form.filename is Some
    &&& form.mime_type is Some
    &&& form.kind is Some
    &&& mime_allowed(policy.mime_types@, form.mime_type->Some_0@)
    &&& form.file->Some_0@.len() <= policy.max_size
    &&& kind_of(form.kind->Some_0@) is Some
    &&& (kind_of(form.kind->Some_0@) == Some(FileKind::Permanent) ==> form.user_id is Some)
}

/// Why a form is refused, checked in this order: a missing part, a MIME type
/// outside the policy, content over the size limit, an unknown kind, a
/// permanent upload without owner, and an owner that differs from the
/// token's. `None` where it is accepted.
pub open spec fn upload_rejection(
    form: UploadForm,
    policy: GlobalConfig,
    token_owner: Option<String>,
) -> Option<ErrorClass> {
    if form.file is None || form.filename is None || form.mime_type is None || form.kind is None {
        Some(ErrorClass::BadRequest)
    } else if !mime_allowed(policy.mime_types@, form.mime_type->Some_0@) {
        Some(ErrorClass::BadRequest)
    } else if form.file->Some_0@.len() > policy.max_size {
        Some(ErrorClass::PayloadTooLarge)
    } else if kind_of(form.kind->Some_0@) is None {
        Some(ErrorClass::BadRequest)
    } else if kind_of(form.kind->Some_0@) == Some(FileKind::Permanent) && form.user_id is None {
        Some(ErrorClass::BadRequest)
    } else if opt_view(form.user_id) != opt_view(token_owner) {
        Some(ErrorClass::Unauthorized)
    } else {
        None
    }
}

/// An upload that passed every check on the form.
#[derive(Debug, Clone)]
pub struct UploadRequest {
    pub content: Vec<u8>,
    pub filename: String,
    pub mime_type: String,
    pub kind: FileKind,
    pub owner: Option<String>,
    pub description: Option<String>,
}

/// Checks an upload form against the policy and against the owner of the
/// token that was consumed for it (`None`: anonymous).
pub fn validate_upload(
    form: UploadForm,
    policy: &GlobalConfig,
    token_owner: &Option<String>,
) -> (r: Result<UploadRequest, ApplicationError>)
    ensures
        r is Err <==> upload_rejection(form, *policy, *token_owner) is Some,
        r is Err ==> Some(class_of(r->Err_0)) == upload_rejection(form, *policy, *token_owner),
        r is Ok ==> ({
            let q = r->Ok_0;
            &&& Some(q.content) == form.file
            &&& Some(q.filename) == form.filename
            &&& Some(q.mime_type) == form.mime_type
            &&& Some(q.kind) == kind_of(form.kind->Some_0@)
            &&& q.owner == form.user_id
            &&& q.description == form.description
        }),
{
    let UploadForm { file, filename, mime_type, kind, user_id, description } = form;
    let content = match file {
        Some(c) => c,
        None => { return Err(ApplicationError::BadRequest("Missing required field".to_owned())); },
    };
    let filename = match filename {
        Some(f) => f,
        None => { return Err(ApplicationError::BadRequest("Missing required field".to_owned())); },
    };
    let mime_type = match mime_type {
        Some(m) => m,
        None => { return Err(ApplicationError::BadRequest("Missing required field".to_owned())); },
    };
    let kind_text = match kind {
        Some(k) => k,
        None => { return Err(ApplicationError::BadRequest("Missing required field".to_owned())); },
    };
    if !is_mime_allowed(&policy.mime_types, &mime_type) {
        return Err(ApplicationError::BadRequest("MIME type not allowed".to_owned()));
    }
    if content.len() as u64 > policy.max_size {
        return Err(ApplicationError::PayloadTooLarge);
    }
    let kind = match parse_kind(kind_text.as_str()) {
        Some(k) => k,
        None => {
            return Err(ApplicationError::BadRequest(
                "Invalid 'type' field: must be 'temporal' or 'permanent'".to_owned(),
            ));
        },
    };
    if kind == FileKind::Permanent && user_id.is_none() {
        return Err(ApplicationError::BadRequest("Missing 'user_id' for permanent file".to_owned()));
    }
    let agrees = match (&user_id, token_owner) {
        (Some(a), Some(b)) => *a == *b,
        (None, None) => true,
        _ => false,
    };
    if !agrees {
        return Err(ApplicationError::Unauthorized);
    }
    Ok(UploadRequest { content, filename, mime_type, kind, owner: user_id, description })
}

/// An anonymous token cannot carry an upload that names an owner, and an
/// owner's token cannot carry one that names another owner or none: such an
/// upload that passes the policy is refused as unauthorized.
pub proof fn lemma_identity_mismatch_unauthorized(
    form: UploadForm,
    policy: GlobalConfig,
    token_owner: Option<String>,
)
    requires
        passes_policy(form, policy),
        (token_owner is None && form.user_id is Some) || (token_owner matches Some(t) && !(
        form.user_id matches Some(u) && u@ == t@)),
    ensures
        upload_rejection(form, policy, token_owner) == Some(ErrorClass::Unauthorized),
{
}

/// `now + life`, or the latest representable time where that does not fit.
pub open spec fn deadline_of(now: i64, life: u64) -> i64 {
    if now + life <= i64::MAX { (now + life) as i64 } else { i64::MAX }
}

pub fn deadline(now: i64, life: u64) -> (r: i64)
    ensures
        r == deadline_of(now, life),
{
    let sum: i128 = now as i128 + life as i128;
    if sum > i64::MAX as i128 {
        i64::MAX
    } else {
        sum as i64
    }
}

/// Where an upload stands: which exchange it waits for.
#[derive(Debug, Clone, Copy, PartialEq, Eq, Structural)]
pub enum UploadStage {
    AwaitingQuota,
    AwaitingStorage,
    AwaitingRecord,
    AwaitingQuotaReload,
    AwaitingQuotaCommit,
    AwaitingDiscard,
    Finished,
}

/// An upload in progress after its form was accepted.
#[derive(Debug)]
pub struct UploadSession {
    pub stage: UploadStage,
    pub kind: FileKind,
    pub owner: Option<String>,
    pub owner_id: u128,
    pub size: u64,
    pub content: Option<Vec<u8>>,
    pub filename: String,
    pub mime_type: String,
    pub description: Option<String>,
    pub server_id: String,
    pub temp_file_life: u64,
    pub record: Option<Metadata>,
    pub failure: Option<ApplicationError>,
}

/// The outcome of the exchange that an upload waited for.
#[derive(Debug)]
pub enum UploadEvent {
    /// The owner's quota was read.
    QuotaLoaded(Result<User, ApplicationError>),
    /// The provider stored the content; the time of that answer.
    Stored(Result<FileMetadata, ApplicationError>, i64),
    /// The metadata record was written.
    Recorded(Result<Metadata, ApplicationError>),
    /// The owner's quota was read again before it is updated.
    QuotaReloaded(Result<User, ApplicationError>),
    /// The owner's quota was written.
    QuotaCommitted(Result<User, ApplicationError>),
    /// The stored object was deleted again after its record failed.
    Discarded(Result<(), ApplicationError>),
}

/// The exchange that an upload asks for next, or its answer.
#[derive(Debug)]
pub enum UploadAction {
    LoadQuota(u128),
    Store(FileData),
    Record(Metadata),
    ReloadQuota(u128),
    CommitQuota(User),
    Discard(String),
    Respond(Result<Metadata, ApplicationError>),
}

/// The record written for content that the provider stored as `stored`, at
/// `now`: a permanent file keeps its owner and no deletion time, a temporary
/// one no owner and a deletion time `temp_file_life` seconds on.
pub open spec fn record_of(s: UploadSession, stored: FileMetadata, now: i64) -> Metadata {
    Metadata {
        file_id: stored.file_id,
        mime_type: stored.mime_type,
        size: stored.size,
        user_id: if s.kind == FileKind::Permanent { s.owner } else { None },
        description: s.description,
        file_name: s.filename,
        server_id: s.server_id,
        uploaded_at: now,
        download_count: 0,
        last_access: now,
        delete_at: if s.kind == FileKind::Temporary {
            Some(deadline_of(now, s.temp_file_life))
        } else {
            None
        },
    }
}

impl UploadSession {
    /// What each stage holds: a permanent upload in progress names an owner
    /// with a valid id; the content waits for the quota check; the record
    /// waits for its write, and the failure for the discard to finish.
    pub open spec fn wf(&self) -> bool {
        &&& (self.kind == FileKind::Permanent && self.stage != UploadStage::Finished) ==> (
        self.owner matches Some(u) && uuid_of(u@) == Some(self.owner_id))
        &&& self.stage == UploadStage::AwaitingQuota ==> self.kind == FileKind::Permanent
            && self.content is Some
        &&& self.stage == UploadStage::AwaitingRecord ==> self.record is Some
        &&& self.stage == UploadStage::AwaitingDiscard ==> self.record is Some
            && self.failure is Some
        &&& (self.stage == UploadStage::AwaitingQuotaReload || self.stage
            == UploadStage::AwaitingQuotaCommit) ==> self.kind == FileKind::Permanent
            && self.record is Some
    }

    /// Opens an upload that passed validation: a permanent one first reads
    /// its owner's quota; a temporary one goes to the provider at once. A
    /// permanent upload whose owner id is not a UUID is refused.
    pub fn start(request: UploadRequest, temp_file_life: u64, server_id: String) -> (r: (
        UploadSession,
        UploadAction,
    ))
        ensures
            r.0.wf(),
            r.0.kind == request.kind,
            r.0.size == request.content@.len(),
            r.0.temp_file_life == temp_file_life,
            r.0.server_id == server_id,
            r.0.owner == request.owner,
            r.0.filename == request.filename,
            r.0.description == request.description,
            request.kind == FileKind::Temporary ==> r.0.stage == UploadStage::AwaitingStorage
                && r.1 == UploadAction::Store(
                FileData {
                    content: request.content,
                    filename: request.filename,
                    mime_type: request.mime_type,
                },
            ),
            request.kind == FileKind::Permanent ==> match request.owner {
                Some(u) => match uuid_of(u@) {
                    Some(id) => r.0.stage == UploadStage::AwaitingQuota && r.1
                        == UploadAction::LoadQuota(id) && r.0.content == Some(request.content),
                    None => r.0.stage == UploadStage::Finished && r.1 matches UploadAction::Respond(
                        Err(ApplicationError::BadRequest(_)),
                    ),
                },
                None => r.0.stage == UploadStage::Finished && r.1 matches UploadAction::Respond(
                    Err(ApplicationError::BadRequest(_)),
                ),
            },
    {
        let UploadRequest { content, filename, mime_type, kind, owner, description } = request;
        let size = content.len() as u64;
        let mut session = UploadSession {
            stage: UploadStage::Finished,
            kind,
            owner,
            owner_id: 0,
            size,
            content: None,
            filename,
            mime_type,
            description,
            server_id,
            temp_file_life,
            record: None,
            failure: None,
        };
        match kind {
            FileKind::Temporary => {
                session.stage = UploadStage::AwaitingStorage;
                let data = FileData::new(content, session.filename.clone(), session.mime_type.clone());
                (session, UploadAction::Store(data))
            },
            FileKind::Permanent => {
                let parsed = match &session.owner {
                    Some(u) => parse_uuid(u.as_str()),
                    None => None,
                };
                match parsed {
                    Some(id) => {
                        session.owner_id = id;
                        session.stage = UploadStage::AwaitingQuota;
                        session.content = Some(content);
                        (session, UploadAction::LoadQuota(id))
                    },
                    None => {
                        let e = ApplicationError::BadRequest("Invalid owner UUID".to_owned());
                        (session, UploadAction::Respond(Err(e)))
                    },
                }
            },
        }
    }

    /// Advances the upload by the outcome of the exchange it waited for.
    /// A failed exchange ends it with that failure, except a failed record
    /// write: the stored object is then discarded first, so that no object
    /// is left without a record. An event that the stage does not wait for
    /// ends it with an internal error.
    ///
    /// The quota is checked on one read and written after a second read:
    /// nothing isolates the two from another upload by the same owner, so
    /// two uploads that both pass the check can together exceed the quota.
    pub fn step(self, event: UploadEvent) -> (r: (UploadSession, UploadAction))
        ensures
            self.wf() ==> r.0.wf(),
            r.0.kind == self.kind,
            r.0.size == self.size,
            r.0.owner == self.owner,
            r.0.owner_id == self.owner_id,
            r.0.temp_file_life == self.temp_file_life,
            // The quota check: content over the quota never reaches the provider.
            self.stage == UploadStage::AwaitingQuota ==> match event {
                UploadEvent::QuotaLoaded(Ok(u)) => if fits_quota(u, self.size) {
                    match self.content {
                        Some(c) => r.0.stage == UploadStage::AwaitingStorage && r.1
                            == UploadAction::Store(
                            FileData { content: c, filename: self.filename, mime_type: self.mime_type },
                        ),
                        None => r.0.stage == UploadStage::Finished,
                    }
                } else {
                    r.0.stage == UploadStage::Finished && r.1 == UploadAction::Respond(
                        Err(ApplicationError::InsufficientStorage),
                    )
                },
                UploadEvent::QuotaLoaded(Err(e)) => r.0.stage == UploadStage::Finished && r.1
                    == UploadAction::Respond(Err(e)),
                _ => r.0.stage == UploadStage::Finished,
            },
            self.stage == UploadStage::AwaitingStorage ==> match event {
                UploadEvent::Stored(Ok(stored), now) => r.0.stage == UploadStage::AwaitingRecord
                    && r.1 == UploadAction::Record(record_of(self, stored, now)) && r.0.record
                    == Some(record_of(self, stored, now)),
                UploadEvent::Stored(Err(e), _) => r.0.stage == UploadStage::Finished && r.1
                    == UploadAction::Respond(Err(e)),
                _ => r.0.stage == UploadStage::Finished,
            },
            self.stage == UploadStage::AwaitingRecord ==> match event {
                UploadEvent::Recorded(Ok(m)) => if self.kind == FileKind::Temporary {
                    r.0.stage == UploadStage::Finished && r.1 == UploadAction::Respond(Ok(m))
                } else {
                    r.0.stage == UploadStage::AwaitingQuotaReload && r.1
                        == UploadAction::ReloadQuota(self.owner_id) && r.0.record == Some(m)
                },
                UploadEvent::Recorded(Err(e)) => match self.record {
                    Some(m) => r.0.stage == UploadStage::AwaitingDiscard && r.1
                        == UploadAction::Discard(m.file_id) && r.0.failure == Some(e),
                    None => r.0.stage == UploadStage::Finished && r.1 == UploadAction::Respond(
                        Err(e),
                    ),
                },
                _ => r.0.stage == UploadStage::Finished,
            },
            self.stage == UploadStage::AwaitingDiscard ==> match event {
                UploadEvent::Discarded(_) => r.0.stage == UploadStage::Finished && match self.failure {
                    Some(f) => r.1 == UploadAction::Respond(Err(f)),
                    None => true,
                },
                _ => r.0.stage == UploadStage::Finished,
            },
            self.stage == UploadStage::AwaitingQuotaReload ==> match event {
                UploadEvent::QuotaReloaded(Ok(u)) => r.0.stage == UploadStage::AwaitingQuotaCommit
                    && r.0.record == self.record && r.1 == UploadAction::CommitQuota(
                    User {
                        uid: self.owner_id,
                        file_count: sat_add(u.file_count, 1),
                        total_space: u.total_space,
                        used_space: sat_add(u.used_space, self.size),
                    },
                ),
                UploadEvent::QuotaReloaded(Err(e)) => r.0.stage == UploadStage::Finished && r.1
                    == UploadAction::Respond(Err(e)),
                _ => r.0.stage == UploadStage::Finished,
            },
            self.stage == UploadStage::AwaitingQuotaCommit ==> match event {
                UploadEvent::QuotaCommitted(Ok(_)) => r.0.stage == UploadStage::Finished && match self.record {
                    Some(m) => r.1 == UploadAction::Respond(Ok(m)),
                    None => true,
                },
                UploadEvent::QuotaCommitted(Err(e)) => r.0.stage == UploadStage::Finished && r.1
                    == UploadAction::Respond(Err(e)),
                _ => r.0.stage == UploadStage::Finished,
            },
            self.stage == UploadStage::Finished ==> r.0.stage == UploadStage::Finished && r.1 matches UploadAction::Respond(Err(ApplicationError::InternalError(_))),
            r.0.stage == UploadStage::Finished <==> r.1 is Respond,
            // The provider is asked to store content only after the owner's
            // quota was read and found to have room for it.
            r.1 is Store ==> self.stage == UploadStage::AwaitingQuota && (event matches UploadEvent::QuotaLoaded(Ok(u)) && fits_quota(u, self.size)),
    {
        let UploadSession {
            stage,
            kind,
            owner,
            owner_id,
            size,
            content,
            filename,
            mime_type,
            description,
            server_id,
            temp_file_life,
            record,
            failure,
        } = self;
        let mut next = UploadSession {
            stage: UploadStage::Finished,
            kind,
            owner,
            owner_id,
            size,
            content: None,
            filename,
            mime_type,
            description,
            server_id,
            temp_file_life,
            record: None,
            failure: None,
        };
        match (stage, event) {
            (UploadStage::AwaitingQuota, UploadEvent::QuotaLoaded(Ok(u))) => {
                if u.has_room_for(size) {
                    match content {
                        Some(c) => {
                            next.stage = UploadStage::AwaitingStorage;
                            let data = FileData::new(c, next.filename.clone(), next.mime_type.clone());
                            (next, UploadAction::Store(data))
                        },
                        None => {
                            let e = ApplicationError::InternalError("Upload content missing".to_owned());
                            (next, UploadAction::Respond(Err(e)))
                        },
                    }
                } else {
                    (next, UploadAction::Respond(Err(ApplicationError::InsufficientStorage)))
                }
            },
            (UploadStage::AwaitingStorage, UploadEvent::Stored(Ok(stored), now)) => {
                let delete_at = match kind {
                    FileKind::Temporary => Some(deadline(now, temp_file_life)),
                    FileKind::Permanent => None,
                };
                let user_id = match kind {
                    FileKind::Permanent => clone_opt(&next.owner),
                    FileKind::Temporary => None,
                };
                let m = Metadata {
                    file_id: stored.file_id,
                    mime_type: stored.mime_type,
                    size: stored.size,
                    user_id,
                    description: clone_opt(&next.description),
                    file_name: next.filename.clone(),
                    server_id: next.server_id.clone(),
                    uploaded_at: now,
                    download_count: 0,
                    last_access: now,
                    delete_at,
                };
                next.stage = UploadStage::AwaitingRecord;
                let action = UploadAction::Record(m.duplicate());
                next.record = Some(m);
                (next, action)
            },
            (UploadStage::AwaitingRecord, UploadEvent::Recorded(Ok(m))) => {
                match kind {
                    FileKind::Temporary => (next, UploadAction::Respond(Ok(m))),
                    FileKind::Permanent => {
                        next.stage = UploadStage::AwaitingQuotaReload;
                        next.record = Some(m);
                        (next, UploadAction::ReloadQuota(owner_id))
                    },
                }
            },
            (UploadStage::AwaitingRecord, UploadEvent::Recorded(Err(e))) => {
                match record {
                    Some(m) => {
                        let file_id = m.file_id.clone();
                        next.stage = UploadStage::AwaitingDiscard;
                        next.record = Some(m);
                        next.failure = Some(e);
                        (next, UploadAction::Discard(file_id))
                    },
                    None => (next, UploadAction::Respond(Err(e))),
                }
            },
            (UploadStage::AwaitingDiscard, UploadEvent::Discarded(_)) => {
                let e = match failure {
                    Some(e) => e,
                    None => ApplicationError::InternalError("Upload failed".to_owned()),
                };
                (next, UploadAction::Respond(Err(e)))
            },
            (UploadStage::AwaitingQuotaReload, UploadEvent::QuotaReloaded(Ok(u))) => {
                let after = u.after_upload(size);
                let q = User {
                    uid: owner_id,
                    file_count: after.file_count,
                    total_space: after.total_space,
                    used_space: after.used_space,
                };
                next.stage = UploadStage::AwaitingQuotaCommit;
                next.record = record;
                (next, UploadAction::CommitQuota(q))
            },
            (UploadStage::AwaitingQuotaCommit, UploadEvent::QuotaCommitted(Ok(_))) => {
                match record {
                    Some(m) => (next, UploadAction::Respond(Ok(m))),
                    None => {
                        let e = ApplicationError::InternalError("Upload failed".to_owned());
                        (next, UploadAction::Respond(Err(e)))
                    },
                }
            },
            (UploadStage::AwaitingQuota, UploadEvent::QuotaLoaded(Err(e)))
            | (UploadStage::AwaitingStorage, UploadEvent::Stored(Err(e), _))
            | (UploadStage::AwaitingQuotaReload, UploadEvent::QuotaReloaded(Err(e)))
            | (UploadStage::AwaitingQuotaCommit, UploadEvent::QuotaCommitted(Err(e))) => {
                (next, UploadAction::Respond(Err(e)))
            },
            _ => {
                let e = ApplicationError::InternalError("Unexpected upload event".to_owned());
                (next, UploadAction::Respond(Err(e)))
            },
        }
    }
}

} // verus!
