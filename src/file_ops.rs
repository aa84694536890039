use vstd::prelude::*;
use crate::error::{concat3, ApplicationError};
use crate::ids::{parse_uuid, uuid_of};
use crate::model::{sat_sub, Metadata, User};

verus! {

/// The `Content-Disposition` header under which a file is downloaded.
pub fn content_disposition(file_name: &String) -> (r: String)
    ensures
        r@ == "attachment; filename=\""@ + file_name@ + "\""@,
{
    concat3("attachment; filename=\"", file_name.as_str(), "\"")
}

/// Checks that a file's metadata may be edited: a temporary file (one
/// without owner) is immutable once created.
pub fn check_metadata_update(current: &Metadata) -> (r: Result<(), ApplicationError>)
    ensures
        r is Ok <==> current.user_id is Some,
        r is Err ==> r->Err_0 matches ApplicationError::BadRequest(_),
{
    match current.user_id {
        Some(_) => Ok(()),
        None => Err(ApplicationError::BadRequest(
            "Cannot update metadata of temporary files".to_owned(),
        )),
    }
}

/// Where an explicit deletion stands.
#[derive(Debug, Clone, Copy, PartialEq, Eq, Structural)]
pub enum DeleteStage {
    LoadingRecord,
    DeletingObject,
    DeletingRecord,
    LoadingQuota,
    CommittingQuota,
    Finished,
}

/// An explicit deletion of one file in progress.
#[derive(Debug)]
pub struct DeleteSession {
    pub stage: DeleteStage,
    pub file_id: String,
    pub size: u64,
    pub owner_id: Option<u128>,
}

/// The outcome of the exchange that a deletion waited for.
#[derive(Debug)]
pub enum DeleteEvent {
    RecordLoaded(Result<Metadata, ApplicationError>),
    ObjectDeleted(Result<(), ApplicationError>),
    RecordDeleted(Result<(), ApplicationError>),
    QuotaLoaded(Result<User, ApplicationError>),
    QuotaCommitted(Result<User, ApplicationError>),
}

/// The exchange that a deletion asks for next, or its answer.
#[derive(Debug)]
pub enum DeleteAction {
    LoadRecord(String),
    DeleteObject(String),
    DeleteRecord(String),
    LoadQuota(u128),
    CommitQuota(User),
    Respond(Result<(), ApplicationError>),
}

/// The id of a record's owner, where it has one that is a UUID.
pub open spec fn owner_id_of(m: Metadata) -> Option<u128> {
    match m.user_id {
        Some(u) => uuid_of(u@),
        None => None,
    }
}

impl DeleteSession {
    pub open spec fn wf(&self) -> bool {
        (self.stage == DeleteStage::LoadingQuota || self.stage == DeleteStage::CommittingQuota)
            ==> self.owner_id is Some
    }

    /// Opens the deletion of `file_id`: its record is read first.
    pub fn start(file_id: String) -> (r: (DeleteSession, DeleteAction))
        ensures
            r.0.wf(),
            r.0.stage == DeleteStage::LoadingRecord,
            r.0.file_id == file_id,
            r.1 == DeleteAction::LoadRecord(file_id),
    {
        let action = DeleteAction::LoadRecord(file_id.clone());
        (DeleteSession { stage: DeleteStage::LoadingRecord, file_id, size: 0, owner_id: None }, action)
    }

    /// Advances the deletion: the object is deleted from the provider, then
    /// its record, then the owner's quota gets the file back (one file and
    /// its size fewer, never below zero). A failure ends it with that
    /// failure, except that a quota that cannot be read is left as it is.
    pub fn step(self, event: DeleteEvent) -> (r: (DeleteSession, DeleteAction))
        ensures
            self.wf() ==> r.0.wf(),
            r.0.file_id == self.file_id,
            r.0.stage == DeleteStage::Finished <==> r.1 is Respond,
            self.stage == DeleteStage::LoadingRecord ==> match event {
                DeleteEvent::RecordLoaded(Ok(m)) => r.0.stage == DeleteStage::DeletingObject
                    && r.0.size == m.size && r.0.owner_id == owner_id_of(m) && r.1
                    == DeleteAction::DeleteObject(self.file_id),
                DeleteEvent::RecordLoaded(Err(e)) => r.1 == DeleteAction::Respond(Err(e)),
                _ => r.0.stage == DeleteStage::Finished,
            },
            self.stage == DeleteStage::DeletingObject ==> match event {
                DeleteEvent::ObjectDeleted(Ok(_)) => r.0.stage == DeleteStage::DeletingRecord
                    && r.0.size == self.size && r.0.owner_id == self.owner_id && r.1
                    == DeleteAction::DeleteRecord(self.file_id),
                DeleteEvent::ObjectDeleted(Err(e)) => r.1 == DeleteAction::Respond(Err(e)),
                _ => r.0.stage == DeleteStage::Finished,
            },
            self.stage == DeleteStage::DeletingRecord ==> match event {
                DeleteEvent::RecordDeleted(Ok(_)) => match self.owner_id {
                    Some(id) => r.0.stage == DeleteStage::LoadingQuota && r.0.size == self.size
                        && r.0.owner_id == self.owner_id && r.1 == DeleteAction::LoadQuota(id),
                    None => r.1 == DeleteAction::Respond(Ok(())),
                },
                DeleteEvent::RecordDeleted(Err(e)) => r.1 == DeleteAction::Respond(Err(e)),
                _ => r.0.stage == DeleteStage::Finished,
            },
            self.stage == DeleteStage::LoadingQuota ==> match event {
                DeleteEvent::QuotaLoaded(Ok(u)) => r.0.stage == DeleteStage::CommittingQuota && r.1
                    == DeleteAction::CommitQuota(
                    User {
                        uid: match self.owner_id {
                            Some(id) => id,
                            None => u.uid,
                        },
                        file_count: sat_sub(u.file_count, 1),
                        total_space: u.total_space,
                        used_space: sat_sub(u.used_space, self.size),
                    },
                ),
                DeleteEvent::QuotaLoaded(Err(_)) => r.1 == DeleteAction::Respond(Ok(())),
                _ => r.0.stage == DeleteStage::Finished,
            },
            self.stage == DeleteStage::CommittingQuota ==> match event {
                DeleteEvent::QuotaCommitted(Ok(_)) => r.1 == DeleteAction::Respond(Ok(())),
                DeleteEvent::QuotaCommitted(Err(e)) => r.1 == DeleteAction::Respond(Err(e)),
                _ => r.0.stage == DeleteStage::Finished,
            },
            self.stage == DeleteStage::Finished ==> r.1 matches DeleteAction::Respond(
                Err(ApplicationError::InternalError(_)),
            ),
    {
        let DeleteSession { stage, file_id, size, owner_id } = self;
        let mut next = DeleteSession { stage: DeleteStage::Finished, file_id, size, owner_id };
        match (stage, event) {
            (DeleteStage::LoadingRecord, DeleteEvent::RecordLoaded(Ok(m))) => {
                next.size = m.size;
                next.owner_id = match &m.user_id {
                    Some(u) => parse_uuid(u.as_str()),
                    None => None,
                };
                next.stage = DeleteStage::DeletingObject;
                let id = next.file_id.clone();
                (next, DeleteAction::DeleteObject(id))
            },
            (DeleteStage::DeletingObject, DeleteEvent::ObjectDeleted(Ok(_))) => {
                next.stage = DeleteStage::DeletingRecord;
                let id = next.file_id.clone();
                (next, DeleteAction::DeleteRecord(id))
            },
            (DeleteStage::DeletingRecord, DeleteEvent::RecordDeleted(Ok(_))) => {
                match owner_id {
                    Some(id) => {
                        next.stage = DeleteStage::LoadingQuota;
                        (next, DeleteAction::LoadQuota(id))
                    },
                    None => (next, DeleteAction::Respond(Ok(()))),
                }
            },
            (DeleteStage::LoadingQuota, DeleteEvent::QuotaLoaded(Ok(u))) => {
                let after = u.after_removal(size);
                let uid = match owner_id {
                    Some(id) => id,
                    None => u.uid,
                };
                let q = User {
                    uid,
                    file_count: after.file_count,
                    total_space: after.total_space,
                    used_space: after.used_space,
                };
                next.stage = DeleteStage::CommittingQuota;
                (next, DeleteAction::CommitQuota(q))
            },
            (DeleteStage::LoadingQuota, DeleteEvent::QuotaLoaded(Err(_)))
            | (DeleteStage::CommittingQuota, DeleteEvent::QuotaCommitted(Ok(_))) => {
                (next, DeleteAction::Respond(Ok(())))
            },
            (DeleteStage::LoadingRecord, DeleteEvent::RecordLoaded(Err(e)))
            | (DeleteStage::DeletingObject, DeleteEvent::ObjectDeleted(Err(e)))
            | (DeleteStage::DeletingRecord, DeleteEvent::RecordDeleted(Err(e)))
            | (DeleteStage::CommittingQuota, DeleteEvent::QuotaCommitted(Err(e))) => {
                (next, DeleteAction::Respond(Err(e)))
            },
            _ => {
                let e = ApplicationError::InternalError("Unexpected delete event".to_owned());
                (next, DeleteAction::Respond(Err(e)))
            },
        }
    }
}

} // verus!
