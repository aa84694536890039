use vstd::prelude::*;
use crate::error::{describe_spec, ApplicationError};
use crate::ids::{parse_uuid, uuid_of};
use crate::model::{sat_sub, FileMetadata, Metadata, User};
use crate::upload::{deadline_of, record_of, FileKind, UploadSession};

verus! {

/// Whether a record's deletion time has come at `now`.
pub open spec fn is_expired(m: Metadata, now: i64) -> bool {
    m.delete_at matches Some(t) && t <= now
}

/// The records among `c` whose deletion time has come, in their order.
pub open spec fn select_expired(c: Seq<Metadata>, now: i64) -> Seq<Metadata>
    decreases c.len(),
{
    if c.len() == 0 {
        Seq::empty()
    } else {
        let rest = select_expired(c.drop_last(), now);
        if is_expired(c.last(), now) {
            rest.push(c.last())
        } else {
            rest
        }
    }
}

/// The records among `c` that a pass at `now` leaves in place: those whose
/// deletion time has not come.
pub open spec fn remaining_after(c: Seq<Metadata>, now: i64) -> Seq<Metadata>
    decreases c.len(),
{
    if c.len() == 0 {
        Seq::empty()
    } else {
        let rest = remaining_after(c.drop_last(), now);
        if is_expired(c.last(), now) {
            rest
        } else {
            rest.push(c.last())
        }
    }
}

/// A second pass finds nothing to do: once a pass at `now` has removed the
/// records it selected, none of those left is expired at `now`; and where
/// nothing is expired a pass removes nothing.
pub proof fn lemma_sweep_idempotent(c: Seq<Metadata>, now: i64)
    ensures
        select_expired(remaining_after(c, now), now).len() == 0,
        select_expired(c, now).len() == 0 ==> remaining_after(c, now) == c,
    decreases c.len(),
{
    if c.len() > 0 {
        lemma_sweep_idempotent(c.drop_last(), now);
        let rest = remaining_after(c.drop_last(), now);
        if !is_expired(c.last(), now) {
            assert(rest.push(c.last()).drop_last() == rest);
        }
        if select_expired(c, now).len() == 0 {
            if is_expired(c.last(), now) {
                assert(select_expired(c, now).len() > 0);
            }
            assert(c.drop_last().push(c.last()) == c);
        }
    }
}

/// A temporary file stays until its lifetime is over: the record that an
/// upload at `now` writes for it has no owner and the deletion time
/// `now + life`; a pass before that time leaves it, a pass at or after it
/// selects it.
pub proof fn lemma_temporary_expiry_round_trip(
    s: UploadSession,
    stored: FileMetadata,
    now: i64,
    t: i64,
)
    requires
        s.kind == FileKind::Temporary,
        now + s.temp_file_life <= i64::MAX,
    ensures
        record_of(s, stored, now).user_id is None,
        record_of(s, stored, now).delete_at == Some((now + s.temp_file_life) as i64),
        t < now + s.temp_file_life ==> select_expired(seq![record_of(s, stored, now)], t).len() == 0,
        t >= now + s.temp_file_life ==> select_expired(seq![record_of(s, stored, now)], t) == seq![
            record_of(s, stored, now),
        ],
{
    let m = record_of(s, stored, now);
    let one = seq![m];
    assert(one.drop_last() == Seq::<Metadata>::empty());
    assert(one.last() == m);
    assert(select_expired(one.drop_last(), t) == Seq::<Metadata>::empty());
    assert(Seq::<Metadata>::empty().push(m) == one);
    assert(deadline_of(now, s.temp_file_life) == now + s.temp_file_life);
    assert(is_expired(m, t) == (t >= now + s.temp_file_life));
}

/// Checks the shared secret that guards administrative calls: a request
/// without it, or with another text, is unauthorized.
pub fn check_shared_secret(provided: &Option<String>, expected: &String) -> (r: Result<(), ApplicationError>)
    ensures
        r is Ok <==> (provided matches Some(p) && p@ == expected@),
        r is Err ==> r == Err::<(), ApplicationError>(ApplicationError::Unauthorized),
{
    match provided {
        Some(p) => if *p == *expected { Ok(()) } else { Err(ApplicationError::Unauthorized) },
        None => Err(ApplicationError::Unauthorized),
    }
}

/// One line of a sweep report: what failed, for which file, and why.
pub fn report_line(what: &str, file_id: &String, e: &ApplicationError) -> (r: String)
    ensures
        r@ == what@ + file_id@ + ": "@ + describe_spec(*e),
{
    let mut s = what.to_owned();
    s.append(file_id.as_str());
    s.append(": ");
    let d = e.describe();
    s.append(d.as_str());
    s
}

/// Where a sweep stands with the file at `index`.
#[derive(Debug, Clone, Copy, PartialEq, Eq, Structural)]
pub enum SweepStage {
    DeletingObject,
    DeletingRecord,
    LoadingQuota,
    CommittingQuota,
    Done,
}

/// A pass over the expired temporary files.
#[derive(Debug)]
pub struct SweepRun {
    pub files: Vec<Metadata>,
    pub index: usize,
    pub stage: SweepStage,
    pub owner_id: u128,
    pub deleted_count: usize,
    pub errors: Vec<String>,
}

/// The outcome of the exchange that a sweep waited for.
#[derive(Debug)]
pub enum SweepEvent {
    ObjectDeleted(Result<(), ApplicationError>),
    RecordDeleted(Result<(), ApplicationError>),
    QuotaLoaded(Result<User, ApplicationError>),
    QuotaCommitted(Result<User, ApplicationError>),
}

/// The exchange that a sweep asks for next.
#[derive(Debug, PartialEq, Eq)]
pub enum SweepAction {
    DeleteObject(String),
    DeleteRecord(String),
    LoadQuota(u128),
    CommitQuota(User),
    Finish,
}

/// What a sweep reports: how many files it removed, and what failed.
#[derive(Debug, Clone)]
pub struct CleanupResponse {
    pub deleted_count: usize,
    pub errors: Vec<String>,
}

/// The action that opens the file at `index` of `files`, or ends the pass.
pub open spec fn opening_action(files: Seq<Metadata>, index: int) -> SweepAction {
    if index < files.len() {
        SweepAction::DeleteObject(files[index].file_id)
    } else {
        SweepAction::Finish
    }
}

impl SweepRun {
    pub open spec fn wf(&self) -> bool {
        &&& self.index <= self.files@.len()
        &&& (self.stage == SweepStage::Done <==> self.index == self.files@.len())
        &&& self.deleted_count <= self.index
    }

    /// A file is being worked on: the pass is not done, its index names a
    /// file, and the count is within the files seen.
    pub open spec fn in_progress(&self) -> bool {
        &&& self.stage != SweepStage::Done
        &&& self.index < self.files@.len()
        &&& self.deleted_count <= self.index
    }

    /// Opens a pass at `now` over the records that the metadata store
    /// reported as expired, keeping only those whose time has come.
    pub fn start(candidates: &Vec<Metadata>, now: i64) -> (r: (SweepRun, SweepAction))
        ensures
            r.0.wf(),
            r.0.files@ == select_expired(candidates@, now),
            r.0.index == 0,
            r.0.deleted_count == 0,
            r.0.errors@.len() == 0,
            r.1 == opening_action(r.0.files@, 0),
    {
        let mut files: Vec<Metadata> = Vec::new();
        let mut i: usize = 0;
        while i < candidates.len()
            invariant
                i <= candidates@.len(),
                files@ == select_expired(candidates@.subrange(0, i as int), now),
            decreases candidates.len() - i,
        {
            let ghost prefix = candidates@.subrange(0, i + 1);
            assert(prefix.drop_last() == candidates@.subrange(0, i as int));
            assert(prefix.last() == candidates@[i as int]);
            let expired = match candidates[i].delete_at {
                Some(t) => t <= now,
                None => false,
            };
            if expired {
                files.push(candidates[i].duplicate());
            }
            i = i + 1;
        }
        assert(candidates@.subrange(0, candidates@.len() as int) == candidates@);
        let action = if files.len() > 0 {
            SweepAction::DeleteObject(files[0].file_id.clone())
        } else {
            SweepAction::Finish
        };
        let stage = if files.len() > 0 { SweepStage::DeletingObject } else { SweepStage::Done };
        (SweepRun { files, index: 0, stage, owner_id: 0, deleted_count: 0, errors: Vec::new() }, action)
    }

    /// Moves on to the next file, or ends the pass.
    fn advance(self) -> (r: (SweepRun, SweepAction))
        requires
            self.index < self.files@.len(),
            self.deleted_count <= self.index + 1,
        ensures
            r.0.wf(),
            r.0.files == self.files,
            r.0.index == self.index + 1,
            r.0.deleted_count == self.deleted_count,
            r.0.errors == self.errors,
            r.1 == opening_action(self.files@, self.index + 1),
    {
        let SweepRun { files, index, stage, owner_id, deleted_count, errors } = self;
        let n = files.len();
        let next = index + 1;
        if next < n {
            let action = SweepAction::DeleteObject(files[next].file_id.clone());
            (SweepRun { files, index: next, stage: SweepStage::DeletingObject, owner_id, deleted_count, errors }, action)
        } else {
            (SweepRun { files, index: next, stage: SweepStage::Done, owner_id, deleted_count, errors }, SweepAction::Finish)
        }
    }

    /// Advances the pass by the outcome of the exchange it waited for. For
    /// each file: delete the object, then its record, then give its owner's
    /// quota back (one file and its size fewer, never below zero). A failed
    /// sub-step adds a line to the report and the pass goes on with the next
    /// file; it never stops early. A file counts as deleted once its object
    /// and its record are gone.
    pub fn step(self, event: SweepEvent) -> (r: (SweepRun, SweepAction))
        ensures
            self.wf() ==> r.0.wf(),
            r.0.files == self.files,
            !self.in_progress() ==> r.0 == self && r.1 == SweepAction::Finish,
            self.in_progress() && self.stage == SweepStage::DeletingObject ==> ({
                let f = self.files@[self.index as int];
                match event {
                    SweepEvent::ObjectDeleted(Ok(_)) => r.0.index == self.index && r.0.stage
                        == SweepStage::DeletingRecord && r.0.deleted_count == self.deleted_count
                        && r.0.errors == self.errors && r.1 == SweepAction::DeleteRecord(f.file_id),
                    SweepEvent::ObjectDeleted(Err(e)) => r.0.index == self.index + 1
                        && r.0.deleted_count == self.deleted_count && r.0.errors@.len()
                        == self.errors@.len() + 1 && r.0.errors@.last()@ == "Error deleting file "@
                        + f.file_id@ + ": "@ + describe_spec(e) && r.1 == opening_action(
                        self.files@,
                        self.index + 1,
                    ),
                    _ => r.0.index == self.index + 1 && r.0.deleted_count == self.deleted_count
                        && r.0.errors@.len() == self.errors@.len() + 1,
                }
            }),
            self.in_progress() && self.stage == SweepStage::DeletingRecord ==> ({
                let f = self.files@[self.index as int];
                match event {
                    SweepEvent::RecordDeleted(Ok(_)) => match f.user_id {
                        Some(u) => match uuid_of(u@) {
                            Some(id) => r.0.index == self.index && r.0.stage
                                == SweepStage::LoadingQuota && r.0.owner_id == id && r.0.deleted_count
                                == self.deleted_count && r.0.errors == self.errors && r.1
                                == SweepAction::LoadQuota(id),
                            None => r.0.index == self.index + 1 && r.0.deleted_count
                                == self.deleted_count + 1 && r.0.errors == self.errors && r.1
                                == opening_action(self.files@, self.index + 1),
                        },
                        None => r.0.index == self.index + 1 && r.0.deleted_count
                            == self.deleted_count + 1 && r.0.errors == self.errors && r.1
                            == opening_action(self.files@, self.index + 1),
                    },
                    SweepEvent::RecordDeleted(Err(e)) => r.0.index == self.index + 1
                        && r.0.deleted_count == self.deleted_count && r.0.errors@.len()
                        == self.errors@.len() + 1 && r.0.errors@.last()@
                        == "Error deleting metadata for file "@ + f.file_id@ + ": "@ + describe_spec(
                        e,
                    ) && r.1 == opening_action(self.files@, self.index + 1),
                    _ => r.0.index == self.index + 1 && r.0.deleted_count == self.deleted_count
                        && r.0.errors@.len() == self.errors@.len() + 1,
                }
            }),
            self.in_progress() && self.stage == SweepStage::LoadingQuota ==> ({
                let f = self.files@[self.index as int];
                match event {
                    SweepEvent::QuotaLoaded(Ok(u)) => r.0.index == self.index && r.0.stage
                        == SweepStage::CommittingQuota && r.0.deleted_count == self.deleted_count
                        && r.0.errors == self.errors && r.1 == SweepAction::CommitQuota(
                        User {
                            uid: self.owner_id,
                            file_count: sat_sub(u.file_count, 1),
                            total_space: u.total_space,
                            used_space: sat_sub(u.used_space, f.size),
                        },
                    ),
                    SweepEvent::QuotaLoaded(Err(e)) => r.0.index == self.index + 1
                        && r.0.deleted_count == self.deleted_count + 1 && r.0.errors@.len()
                        == self.errors@.len() + 1 && r.0.errors@.last()@
                        == "Error reading user quota for file "@ + f.file_id@ + ": "@
                        + describe_spec(e) && r.1 == opening_action(self.files@, self.index + 1),
                    _ => r.0.index == self.index + 1 && r.0.deleted_count == self.deleted_count + 1
                        && r.0.errors@.len() == self.errors@.len() + 1,
                }
            }),
            self.in_progress() && self.stage == SweepStage::CommittingQuota ==> ({
                let f = self.files@[self.index as int];
                match event {
                    SweepEvent::QuotaCommitted(Ok(_)) => r.0.index == self.index + 1
                        && r.0.deleted_count == self.deleted_count + 1 && r.0.errors == self.errors
                        && r.1 == opening_action(self.files@, self.index + 1),
                    SweepEvent::QuotaCommitted(Err(e)) => r.0.index == self.index + 1
                        && r.0.deleted_count == self.deleted_count + 1 && r.0.errors@.len()
                        == self.errors@.len() + 1 && r.0.errors@.last()@
                        == "Error updating user quota for file "@ + f.file_id@ + ": "@
                        + describe_spec(e) && r.1 == opening_action(self.files@, self.index + 1),
                    _ => r.0.index == self.index + 1 && r.0.deleted_count == self.deleted_count + 1
                        && r.0.errors@.len() == self.errors@.len() + 1,
                }
            }),
    {
        if self.stage == SweepStage::Done || self.index >= self.files.len() || self.deleted_count
            > self.index {
            return (self, SweepAction::Finish);
        }
        let mut run = self;
        let i = run.index;
        let stage = run.stage;
        let n = run.files.len();
        assert(run.deleted_count <= i && i < n);
        match (stage, event) {
            (SweepStage::DeletingObject, SweepEvent::ObjectDeleted(Ok(_))) => {
                let id = run.files[i].file_id.clone();
                run.stage = SweepStage::DeletingRecord;
                (run, SweepAction::DeleteRecord(id))
            },
            (SweepStage::DeletingObject, SweepEvent::ObjectDeleted(Err(e))) => {
                let line = report_line("Error deleting file ", &run.files[i].file_id, &e);
                run.errors.push(line);
                run.advance()
            },
            (SweepStage::DeletingRecord, SweepEvent::RecordDeleted(Ok(_))) => {
                let parsed = match &run.files[i].user_id {
                    Some(u) => parse_uuid(u.as_str()),
                    None => None,
                };
                match parsed {
                    Some(id) => {
                        run.owner_id = id;
                        run.stage = SweepStage::LoadingQuota;
                        (run, SweepAction::LoadQuota(id))
                    },
                    None => {
                        run.deleted_count = run.deleted_count + 1;
                        run.advance()
                    },
                }
            },
            (SweepStage::DeletingRecord, SweepEvent::RecordDeleted(Err(e))) => {
                let line = report_line("Error deleting metadata for file ", &run.files[i].file_id, &e);
                run.errors.push(line);
                run.advance()
            },
            (SweepStage::LoadingQuota, SweepEvent::QuotaLoaded(Ok(u))) => {
                let after = u.after_removal(run.files[i].size);
                let q = User {
                    uid: run.owner_id,
                    file_count: after.file_count,
                    total_space: after.total_space,
                    used_space: after.used_space,
                };
                run.stage = SweepStage::CommittingQuota;
                (run, SweepAction::CommitQuota(q))
            },
            (SweepStage::LoadingQuota, SweepEvent::QuotaLoaded(Err(e))) => {
                let line = report_line("Error reading user quota for file ", &run.files[i].file_id, &e);
                run.errors.push(line);
                run.deleted_count = run.deleted_count + 1;
                run.advance()
            },
            (SweepStage::CommittingQuota, SweepEvent::QuotaCommitted(Ok(_))) => {
                run.deleted_count = run.deleted_count + 1;
                run.advance()
            },
            (SweepStage::CommittingQuota, SweepEvent::QuotaCommitted(Err(e))) => {
                let line = report_line("Error updating user quota for file ", &run.files[i].file_id, &e);
                run.errors.push(line);
                run.deleted_count = run.deleted_count + 1;
                run.advance()
            },
            (SweepStage::LoadingQuota, _) | (SweepStage::CommittingQuota, _) => {
                run.errors.push("Unexpected sweep event".to_owned());
                run.deleted_count = run.deleted_count + 1;
                run.advance()
            },
            _ => {
                run.errors.push("Unexpected sweep event".to_owned());
                run.advance()
            },
        }
    }

    /// The report of a pass.
    pub fn finish(self) -> (r: CleanupResponse)
        ensures
            r.deleted_count == self.deleted_count,
            r.errors == self.errors,
    {
        CleanupResponse { deleted_count: self.deleted_count, errors: self.errors }
    }
}

} // verus!
