use vstd::prelude::*;
use crate::config::{cap, capped, or_empty, or_zero, unwrap_or_empty, unwrap_or_zero};

verus! {

/// The content of a file as it is handed to a storage provider.
#[derive(Debug, Clone)]
pub struct FileData {
    pub content: Vec<u8>,
    pub filename: String,
    pub mime_type: String,
}

impl FileData {
    pub fn new(content: Vec<u8>, filename: String, mime_type: String) -> (r: Self)
        ensures
            r.content == content,
            r.filename == filename,
            r.mime_type == mime_type,
    {
        FileData { content, filename, mime_type }
    }

    /// Whether the content is no longer than `max_size` bytes.
    pub fn validate_size(&self, max_size: u64) -> (r: bool)
        ensures
            r == (self.content@.len() <= max_size),
    {
        (self.content.len() as u64) <= max_size
    }

    /// The length of the content in bytes.
    pub fn size(&self) -> (r: u64)
        ensures
            r == self.content@.len(),
    {
        self.content.len() as u64
    }
}

/// What a storage provider reports of an object it holds.
#[derive(Debug, Clone)]
pub struct FileMetadata {
    pub file_id: String,
    pub size: u64,
    pub mime_type: String,
    pub filename: Option<String>,
    pub provider: String,
}

/// The durable record of a stored file. Times are seconds since the Unix
/// epoch. A temporary file has no owner and a deletion time; a permanent
/// file has an owner and none.
#[derive(Debug, Clone)]
pub struct Metadata {
    pub file_id: String,
    pub mime_type: String,
    pub size: u64,
    pub user_id: Option<String>,
    pub description: Option<String>,
    pub file_name: String,
    pub server_id: String,
    pub uploaded_at: i64,
    pub download_count: u64,
    pub last_access: i64,
    pub delete_at: Option<i64>,
}

impl Metadata {
    /// An equal copy of this record.
    pub fn duplicate(&self) -> (r: Metadata)
        ensures
            r == *self,
    {
        Metadata {
            file_id: self.file_id.clone(),
            mime_type: self.mime_type.clone(),
            size: self.size,
            user_id: clone_opt(&self.user_id),
            description: clone_opt(&self.description),
            file_name: self.file_name.clone(),
            server_id: self.server_id.clone(),
            uploaded_at: self.uploaded_at,
            download_count: self.download_count,
            last_access: self.last_access,
            delete_at: self.delete_at,
        }
    }

    /// Exactly one of the two classes of file: temporary and anonymous, or
    /// permanent and owned.
    pub open spec fn wf(&self) -> bool {
        self.user_id.is_some() != self.delete_at.is_some()
    }
}

/// A user's storage quota: how many files they hold, how many bytes they may
/// hold and how many they use.
#[derive(Debug, Clone, Copy, PartialEq, Eq, Structural)]
pub struct User {
    pub uid: u128,
    pub file_count: u64,
    pub total_space: u64,
    pub used_space: u64,
}

/// Whether a file of `size` bytes more fits in the quota.
pub open spec fn fits_quota(u: User, size: u64) -> bool {
    u.used_space + size <= u.total_space
}

impl User {
    /// Whether a file of `size` bytes more fits in this quota.
    pub fn has_room_for(&self, size: u64) -> (r: bool)
        ensures
            r == fits_quota(*self, size),
    {
        self.used_space <= self.total_space && size <= self.total_space - self.used_space
    }

    /// The quota after a permanent file of `size` bytes was stored: one file
    /// more and `size` bytes more in use, both saturating at the type's bound.
    pub fn after_upload(&self, size: u64) -> (r: User)
        ensures
            r.uid == self.uid,
            r.total_space == self.total_space,
            r.file_count == sat_add(self.file_count, 1),
            r.used_space == sat_add(self.used_space, size),
    {
        User {
            uid: self.uid,
            file_count: self.file_count.saturating_add(1),
            total_space: self.total_space,
            used_space: self.used_space.saturating_add(size),
        }
    }

    /// The quota after a permanent file of `size` bytes was removed: one file
    /// fewer and `size` bytes fewer in use, neither below zero.
    pub fn after_removal(&self, size: u64) -> (r: User)
        ensures
            r.uid == self.uid,
            r.total_space == self.total_space,
            r.file_count == sat_sub(self.file_count, 1),
            r.used_space == sat_sub(self.used_space, size),
    {
        User {
            uid: self.uid,
            file_count: self.file_count.saturating_sub(1),
            total_space: self.total_space,
            used_space: self.used_space.saturating_sub(size),
        }
    }
}

/// A partial update of a user's quota: absent fields stay as they are.
#[derive(Debug, Clone, Copy, PartialEq, Eq, Structural)]
pub struct UserDTO {
    pub uid: u128,
    pub file_count: Option<u64>,
    pub total_space: Option<u64>,
    pub used_space: Option<u64>,
}

impl UserDTO {
    /// A lookup of the user `uid`.
    pub fn for_query(uid: u128) -> (r: UserDTO)
        ensures
            r == (UserDTO { uid, file_count: None, total_space: None, used_space: None }),
    {
        UserDTO { uid, file_count: None, total_space: None, used_space: None }
    }

    /// An update of the user `uid` that changes nothing yet.
    pub fn for_update(uid: u128) -> (r: UserDTO)
        ensures
            r == (UserDTO { uid, file_count: None, total_space: None, used_space: None }),
    {
        UserDTO { uid, file_count: None, total_space: None, used_space: None }
    }

    /// The update that writes the counters of `q`.
    pub fn quota_update(q: &User) -> (r: UserDTO)
        ensures
            r == (UserDTO {
                uid: q.uid,
                file_count: Some(q.file_count),
                total_space: None,
                used_space: Some(q.used_space),
            }),
    {
        UserDTO { uid: q.uid, file_count: Some(q.file_count), total_space: None, used_space: Some(q.used_space) }
    }

    /// Caps each counter at what the store holds.
    pub fn sanitize(&mut self)
        ensures
            final(self).uid == old(self).uid,
            final(self).file_count == capped(old(self).file_count),
            final(self).total_space == capped(old(self).total_space),
            final(self).used_space == capped(old(self).used_space),
    {
        self.file_count = cap(self.file_count);
        self.total_space = cap(self.total_space);
        self.used_space = cap(self.used_space);
    }

    pub fn from(value: User) -> (r: UserDTO)
        ensures
            r == (UserDTO {
                uid: value.uid,
                file_count: Some(value.file_count),
                total_space: Some(value.total_space),
                used_space: Some(value.used_space),
            }),
    {
        UserDTO {
            uid: value.uid,
            file_count: Some(value.file_count),
            total_space: Some(value.total_space),
            used_space: Some(value.used_space),
        }
    }
}

impl User {
    /// The quota that a stored row describes; absent counters are zero.
    pub fn from(value: UserDTO) -> (r: User)
        ensures
            r.uid == value.uid,
            r.file_count == or_zero(value.file_count),
            r.total_space == or_zero(value.total_space),
            r.used_space == or_zero(value.used_space),
    {
        User {
            uid: value.uid,
            file_count: unwrap_or_zero(value.file_count),
            total_space: unwrap_or_zero(value.total_space),
            used_space: unwrap_or_zero(value.used_space),
        }
    }
}

/// A partial update of a file's record: absent fields stay as they are.
#[derive(Debug, Clone, Default)]
pub struct MetadataDTO {
    pub file_id: String,
    pub mime_type: Option<String>,
    pub size: Option<u64>,
    pub user_id: Option<String>,
    pub description: Option<String>,
    pub file_name: Option<String>,
    pub server_id: Option<String>,
    pub uploaded_at: Option<i64>,
    pub download_count: Option<u64>,
    pub last_access: Option<i64>,
    pub delete_at: Option<i64>,
}

impl MetadataDTO {
    /// Caps the size and the download count at what the store holds.
    pub fn sanitize(&mut self)
        ensures
            final(self).size == capped(old(self).size),
            final(self).download_count == capped(old(self).download_count),
            final(self).file_id == old(self).file_id,
            final(self).mime_type == old(self).mime_type,
            final(self).user_id == old(self).user_id,
            final(self).description == old(self).description,
            final(self).file_name == old(self).file_name,
            final(self).server_id == old(self).server_id,
            final(self).uploaded_at == old(self).uploaded_at,
            final(self).last_access == old(self).last_access,
            final(self).delete_at == old(self).delete_at,
    {
        self.size = cap(self.size);
        self.download_count = cap(self.download_count);
    }

    /// The update that writes every field of `value`.
    pub fn from(value: Metadata) -> (r: MetadataDTO)
        ensures
            r.file_id == value.file_id,
            r.mime_type == Some(value.mime_type),
            r.size == Some(value.size),
            r.user_id == value.user_id,
            r.description == value.description,
            r.file_name == Some(value.file_name),
            r.server_id == Some(value.server_id),
            r.uploaded_at == Some(value.uploaded_at),
            r.download_count == Some(value.download_count),
            r.last_access == Some(value.last_access),
            r.delete_at == value.delete_at,
    {
        MetadataDTO {
            file_id: value.file_id,
            mime_type: Some(value.mime_type),
            size: Some(value.size),
            user_id: value.user_id,
            description: value.description,
            file_name: Some(value.file_name),
            server_id: Some(value.server_id),
            uploaded_at: Some(value.uploaded_at),
            download_count: Some(value.download_count),
            last_access: Some(value.last_access),
            delete_at: value.delete_at,
        }
    }
}

fn time_or(v: Option<i64>, now: i64) -> (r: i64)
    ensures
        r == (match v {
            Some(t) => t,
            None => now,
        }),
{
    match v {
        Some(t) => t,
        None => now,
    }
}

impl Metadata {
    /// The record that a stored row describes, read at `now`: absent texts
    /// are empty, absent counters zero, absent times `now`.
    pub fn from_dto(value: MetadataDTO, now: i64) -> (r: Metadata)
        ensures
            r.file_id == value.file_id,
            r.mime_type@ == or_empty(value.mime_type),
            r.size == or_zero(value.size),
            r.user_id == value.user_id,
            r.description == value.description,
            r.file_name@ == or_empty(value.file_name),
            r.server_id@ == or_empty(value.server_id),
            r.uploaded_at == (match value.uploaded_at {
                Some(t) => t,
                None => now,
            }),
            r.download_count == or_zero(value.download_count),
            r.last_access == (match value.last_access {
                Some(t) => t,
                None => now,
            }),
            r.delete_at == value.delete_at,
    {
        Metadata {
            file_id: value.file_id,
            mime_type: unwrap_or_empty(value.mime_type),
            size: unwrap_or_zero(value.size),
            user_id: value.user_id,
            description: value.description,
            file_name: unwrap_or_empty(value.file_name),
            server_id: unwrap_or_empty(value.server_id),
            uploaded_at: time_or(value.uploaded_at, now),
            download_count: unwrap_or_zero(value.download_count),
            last_access: time_or(value.last_access, now),
            delete_at: value.delete_at,
        }
    }
}

/// `a + b`, or the largest `u64` where the sum does not fit.
pub open spec fn sat_add(a: u64, b: u64) -> u64 {
    if a + b <= u64::MAX { (a + b) as u64 } else { u64::MAX }
}

/// `a - b`, or zero where `b` is the larger.
pub open spec fn sat_sub(a: u64, b: u64) -> u64 {
    if a >= b { (a - b) as u64 } else { 0 }
}

/// A copy of an optional text.
pub fn clone_opt(o: &Option<String>) -> (r: Option<String>)
    ensures
        r == *o,
{
    match o {
        Some(s) => Some(s.clone()),
        None => None,
    }
}

} // verus!
