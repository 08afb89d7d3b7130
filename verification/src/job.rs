//! The job orchestrator: job identity, the job lifecycle and status queries.
//!
//! A job is created `Pending`, is dispatched to `Processing`, and ends
//! `Completed` or `Failed`. Nothing leaves a terminal state, and nothing moves
//! backward. The orchestrator's store is the only writer of job records.

use std::collections::HashMap;
use vstd::prelude::*;
use crate::command::optional_text;
use crate::error::{message_of, ErrorModel, MediaError};

verus! {

/// The identity of a job: 128 bits, opaque to callers.
#[derive(Clone, Copy, Debug, PartialEq, Eq, Hash, Structural)]
pub struct JobId(pub u128);

/// The kinds of operation that a job may ask for.
#[derive(Clone, Copy, Debug, PartialEq, Eq, Structural)]
pub enum Operation {
    TranscodeVideo,
    TranscodeImage,
    TranscodeAudio,
    Resize,
    Thumbnail,
    ExtractAudio,
    NormalizeAudio,
    ProbeAudio,
}

/// The three executors.
#[derive(Clone, Copy, Debug, PartialEq, Eq, Structural)]
pub enum ExecutorKind {
    /// In-process image transforms.
    Image,
    /// The external tool, on audio.
    Audio,
    /// The external tool, on video.
    Video,
}

impl Operation {
    /// The executor that performs an operation.
    pub open spec fn executor_of(self) -> ExecutorKind {
        match self {
            Operation::TranscodeImage | Operation::Resize | Operation::Thumbnail => {
                ExecutorKind::Image
            },
            Operation::TranscodeVideo => ExecutorKind::Video,
            Operation::TranscodeAudio
            | Operation::ExtractAudio
            | Operation::NormalizeAudio
            | Operation::ProbeAudio => ExecutorKind::Audio,
        }
    }

    /// The executor that performs the operation.
    pub fn executor(&self) -> (kind: ExecutorKind)
        ensures
            kind == self.executor_of(),
    {
        match self {
            Operation::TranscodeImage | Operation::Resize | Operation::Thumbnail => {
                ExecutorKind::Image
            },
            Operation::TranscodeVideo => ExecutorKind::Video,
            Operation::TranscodeAudio
            | Operation::ExtractAudio
            | Operation::NormalizeAudio
            | Operation::ProbeAudio => ExecutorKind::Audio,
        }
    }
}

/// Where a job stands in its lifecycle.
#[derive(Clone, Copy, Debug, PartialEq, Eq, Structural)]
pub enum JobStatus {
    Pending,
    Processing,
    Completed,
    Failed,
}

impl JobStatus {
    /// Whether the status is final.
    pub open spec fn terminal(self) -> bool {
        self == JobStatus::Completed || self == JobStatus::Failed
    }

    /// The transitions of the lifecycle: dispatch, success and failure.
    pub open spec fn steps_to(self, next: JobStatus) -> bool {
        ||| self == JobStatus::Pending && next == JobStatus::Processing
        ||| self == JobStatus::Processing && next == JobStatus::Completed
        ||| self == JobStatus::Processing && next == JobStatus::Failed
    }

    /// Whether `later` may be observed after `self`: it is the same status,
    /// or one that transitions lead to.
    pub open spec fn reaches(self, later: JobStatus) -> bool {
        ||| self == later
        ||| self == JobStatus::Pending
        ||| self == JobStatus::Processing && later.terminal()
    }

    /// How far a status stands in the lifecycle: 0 for `Pending`, 1 for
    /// `Processing`, 2 for the two final statuses.
    pub open spec fn rank(self) -> nat {
        match self {
            JobStatus::Pending => 0,
            JobStatus::Processing => 1,
            JobStatus::Completed | JobStatus::Failed => 2,
        }
    }

    /// The progress reported with a status: 0 until the job ends, 100 after.
    pub open spec fn progress_of(self) -> u8 {
        if self.terminal() {
            100
        } else {
            0
        }
    }

    /// Whether the status is final.
    pub fn is_terminal(&self) -> (terminal: bool)
        ensures
            terminal == self.terminal(),
    {
        match self {
            JobStatus::Completed | JobStatus::Failed => true,
            JobStatus::Pending | JobStatus::Processing => false,
        }
    }
}

/// The parameters that a request may carry. Each is optional.
#[derive(Clone, Debug, PartialEq, Eq)]
pub struct JobParams {
    pub format: Option<String>,
    pub codec: Option<String>,
    pub bitrate: Option<String>,
    pub sample_rate: Option<u32>,
    pub channels: Option<u8>,
    pub width: Option<u32>,
    pub height: Option<u32>,
    pub fit_mode: Option<String>,
    pub quality: Option<u8>,
}

/// Request parameters as plain values.
pub struct ParamsModel {
    pub format: Option<Seq<char>>,
    pub codec: Option<Seq<char>>,
    pub bitrate: Option<Seq<char>>,
    pub sample_rate: Option<u32>,
    pub channels: Option<u8>,
    pub width: Option<u32>,
    pub height: Option<u32>,
    pub fit_mode: Option<Seq<char>>,
    pub quality: Option<u8>,
}

impl View for JobParams {
    type V = ParamsModel;

    open spec fn view(&self) -> ParamsModel {
        ParamsModel {
            format: optional_text(self.format),
            codec: optional_text(self.codec),
            bitrate: optional_text(self.bitrate),
            sample_rate: self.sample_rate,
            channels: self.channels,
            width: self.width,
            height: self.height,
            fit_mode: optional_text(self.fit_mode),
            quality: self.quality,
        }
    }
}

/// The record of a job.
#[derive(Clone, Debug, PartialEq, Eq)]
pub struct Job {
    pub id: JobId,
    pub operation: Operation,
    pub input_path: String,
    pub output_path: String,
    pub params: JobParams,
    pub status: JobStatus,
    /// Percent done: 0 until the job ends, 100 after.
    pub progress: u8,
    pub error_message: Option<String>,
    /// Milliseconds since the Unix epoch.
    pub created_at: i64,
    /// Milliseconds since the Unix epoch.
    pub updated_at: i64,
}

/// A job record as plain values.
pub struct JobModel {
    pub id: JobId,
    pub operation: Operation,
    pub input_path: Seq<char>,
    pub output_path: Seq<char>,
    pub params: ParamsModel,
    pub status: JobStatus,
    pub progress: u8,
    pub error_message: Option<Seq<char>>,
    pub created_at: i64,
    pub updated_at: i64,
}

impl View for Job {
    type V = JobModel;

    open spec fn view(&self) -> JobModel {
        JobModel {
            id: self.id,
            operation: self.operation,
            input_path: self.input_path@,
            output_path: self.output_path@,
            params: self.params@,
            status: self.status,
            progress: self.progress,
            error_message: optional_text(self.error_message),
            created_at: self.created_at,
            updated_at: self.updated_at,
        }
    }
}

impl JobModel {
    /// What holds of every record: the progress is that of the status, and a
    /// message is recorded exactly for a failed job.
    pub open spec fn well_formed(self) -> bool {
        &&& self.progress == self.status.progress_of()
        &&& self.error_message is Some <==> self.status == JobStatus::Failed
    }

    /// The record of a job as it is created.
    pub open spec fn created(
        id: JobId,
        now: i64,
        operation: Operation,
        input_path: Seq<char>,
        output_path: Seq<char>,
        params: ParamsModel,
    ) -> JobModel {
        JobModel {
            id,
            operation,
            input_path,
            output_path,
            params,
            status: JobStatus::Pending,
            progress: 0,
            error_message: None,
            created_at: now,
            updated_at: now,
        }
    }

    /// The record after dispatch.
    pub open spec fn dispatched(self, now: i64) -> JobModel {
        JobModel { status: JobStatus::Processing, progress: 0, updated_at: now, ..self }
    }

    /// The record after the executor has reported: completed on success,
    /// failed with the message of the error otherwise.
    pub open spec fn finished(self, outcome: Result<(), ErrorModel>, now: i64) -> JobModel {
        match outcome {
            Ok(_) => JobModel {
                status: JobStatus::Completed,
                progress: 100,
                error_message: None,
                updated_at: now,
                ..self
            },
            Err(error) => JobModel {
                status: JobStatus::Failed,
                progress: 100,
                error_message: Some(message_of(error)),
                updated_at: now,
                ..self
            },
        }
    }

    /// What a status query shows of the record.
    pub open spec fn snapshot(self) -> SnapshotModel {
        SnapshotModel {
            id: self.id,
            status: self.status,
            progress: self.progress,
            output_path: if self.status == JobStatus::Completed {
                Some(self.output_path)
            } else {
                None
            },
            error_message: self.error_message,
        }
    }
}

/// What a status query returns: the status and progress of a job and, once
/// it has ended, its output path or its error message.
#[derive(Clone, Debug, PartialEq, Eq)]
pub struct JobView {
    pub id: JobId,
    pub status: JobStatus,
    pub progress: u8,
    pub output_path: Option<String>,
    pub error_message: Option<String>,
}

/// A status answer as plain values.
pub struct SnapshotModel {
    pub id: JobId,
    pub status: JobStatus,
    pub progress: u8,
    pub output_path: Option<Seq<char>>,
    pub error_message: Option<Seq<char>>,
}

impl View for JobView {
    type V = SnapshotModel;

    open spec fn view(&self) -> SnapshotModel {
        SnapshotModel {
            id: self.id,
            status: self.status,
            progress: self.progress,
            output_path: optional_text(self.output_path),
            error_message: optional_text(self.error_message),
        }
    }
}

/// The outcome of an executor as plain values.
pub open spec fn outcome_model(outcome: Result<(), MediaError>) -> Result<(), ErrorModel> {
    match outcome {
        Ok(_) => Ok(()),
        Err(error) => Err(error@),
    }
}

/// Whether every job of `before` is still there in `after`, the same but for
/// its status, progress, message and update time, with a status that the
/// earlier one reaches.
pub open spec fn never_backward(before: Map<JobId, JobModel>, after: Map<JobId, JobModel>) -> bool {
    forall|id: JobId| #[trigger]
        before.contains_key(id) ==> after.contains_key(id) && before[id].status.reaches(
            after[id].status,
        ) && after[id].id == before[id].id && after[id].operation == before[id].operation
            && after[id].input_path == before[id].input_path && after[id].output_path
            == before[id].output_path && after[id].params == before[id].params
            && after[id].created_at == before[id].created_at
}

/// One operation on the store of jobs.
pub enum Event {
    /// A job is created under an identifier.
    Enroll {
        id: JobId,
        now: i64,
        operation: Operation,
        input_path: Seq<char>,
        output_path: Seq<char>,
        params: ParamsModel,
    },
    /// A job is handed to its executor.
    Dispatch { id: JobId, now: i64 },
    /// An executor reports the end of a job.
    Complete { id: JobId, outcome: Result<(), ErrorModel>, now: i64 },
}

/// The store after one operation. An operation that does not apply leaves
/// the store as it is: creating under an identifier that is taken,
/// dispatching a job that is not `Pending`, ending a job that is not
/// `Processing`, and anything on a job that does not exist.
pub open spec fn step(store: Map<JobId, JobModel>, event: Event) -> Map<JobId, JobModel> {
    match event {
        Event::Enroll { id, now, operation, input_path, output_path, params } => {
            if store.contains_key(id) {
                store
            } else {
                store.insert(
                    id,
                    JobModel::created(id, now, operation, input_path, output_path, params),
                )
            }
        },
        Event::Dispatch { id, now } => {
            if store.contains_key(id) && store[id].status == JobStatus::Pending {
                store.insert(id, store[id].dispatched(now))
            } else {
                store
            }
        },
        Event::Complete { id, outcome, now } => {
            if store.contains_key(id) && store[id].status == JobStatus::Processing {
                store.insert(id, store[id].finished(outcome, now))
            } else {
                store
            }
        },
    }
}

/// The store after a history of operations, applied in order.
pub open spec fn after(store: Map<JobId, JobModel>, history: Seq<Event>) -> Map<JobId, JobModel>
    decreases history.len(),
{
    if history.len() == 0 {
        store
    } else {
        step(after(store, history.drop_last()), history.last())
    }
}

/// The store of job records, and the only writer of them.
pub struct Orchestrator {
    jobs: HashMap<u128, Job>,
}

impl View for Orchestrator {
    type V = Map<JobId, JobModel>;

    closed spec fn view(&self) -> Map<JobId, JobModel> {
        Map::new(|id: JobId| self.jobs@.contains_key(id.0), |id: JobId| self.jobs@[id.0]@)
    }
}

impl Orchestrator {
    /// The invariant of the store: every record is filed under its own
    /// identifier and is well formed.
    pub closed spec fn well_formed(&self) -> bool {
        forall|key: u128| #[trigger]
            self.jobs@.contains_key(key) ==> self.jobs@[key]@.id == JobId(key)
                && self.jobs@[key]@.well_formed()
    }

    /// Every record of a store is filed under its own identifier, reports
    /// the progress of its status, and carries a message exactly where it
    /// has failed.
    pub proof fn law_records_well_formed(&self, id: JobId)
        requires
            self.well_formed(),
            self@.contains_key(id),
        ensures
            self@[id].id == id,
            self@[id].well_formed(),
            self@[id].snapshot().progress == self@[id].status.progress_of(),
            self@[id].snapshot().output_path is Some <==> self@[id].status == JobStatus::Completed,
            self@[id].snapshot().error_message is Some <==> self@[id].status == JobStatus::Failed,
    {
        assert(self.jobs@.contains_key(id.0));
    }

    /// An empty store.
    pub fn new() -> (store: Self)
        ensures
            store.well_formed(),
            store@ == Map::<JobId, JobModel>::empty(),
    {
        let store = Orchestrator { jobs: HashMap::new() };
        assert(store@ =~= Map::<JobId, JobModel>::empty());
        store
    }

    /// The smallest number that is the identifier of no job.
    fn first_free(&self) -> (free: u128)
        ensures
            !self@.contains_key(JobId(free)),
            forall|k: u128| k < free ==> self@.contains_key(JobId(k)),
    {
        let count = self.jobs.len();
        assert(self.jobs@.dom().len() == count);
        let mut free: u128 = 0;
        while self.jobs.contains_key(&free)
            invariant
                forall|k: u128| k < free ==> #[trigger] self.jobs@.contains_key(k),
                free <= self.jobs@.dom().len(),
                self.jobs@.dom().len() <= usize::MAX,
            decreases self.jobs@.dom().len() - free,
        {
            proof {
                lemma_prefix_bounded(self.jobs@.dom(), free);
            }
            free = free + 1;
        }
        free
    }

    /// Files a new job under `candidate`, or, where a job has that identifier
    /// already, under the smallest number that no job has. The job starts
    /// `Pending` with no progress, created and updated at `now`.
    pub fn enroll(
        &mut self,
        candidate: JobId,
        now: i64,
        operation: Operation,
        input_path: String,
        output_path: String,
        params: JobParams,
    ) -> (id: JobId)
        requires
            old(self).well_formed(),
        ensures
            final(self).well_formed(),
            !old(self)@.contains_key(id),
            !old(self)@.contains_key(candidate) ==> id == candidate,
            old(self)@.contains_key(candidate) ==> forall|k: u128|
                k < id.0 ==> old(self)@.contains_key(JobId(k)),
            final(self)@ == old(self)@.insert(
                id,
                JobModel::created(id, now, operation, input_path@, output_path@, params@),
            ),
            final(self)@ == step(
                old(self)@,
                Event::Enroll {
                    id,
                    now,
                    operation,
                    input_path: input_path@,
                    output_path: output_path@,
                    params: params@,
                },
            ),
            never_backward(old(self)@, final(self)@),
    {
        let key = if self.jobs.contains_key(&candidate.0) {
            self.first_free()
        } else {
            candidate.0
        };
        let id = JobId(key);
        let job = Job {
            id,
            operation,
            input_path,
            output_path,
            params,
            status: JobStatus::Pending,
            progress: 0,
            error_message: None,
            created_at: now,
            updated_at: now,
        };
        self.jobs.insert(key, job);
        assert(self@ =~= old(self)@.insert(
            id,
            JobModel::created(id, now, operation, input_path@, output_path@, params@),
        ));
        id
    }

    /// Creates a job for a request and returns its identifier at once. The
    /// job is `Pending`; nothing has run. This never fails.
    ///
    /// The identifier is a random UUID, or, should that be taken, the
    /// smallest number that no job has. Paths are taken as they come: two
    /// jobs may name the same output path, and the store does not arbitrate
    /// between them.
    pub fn submit(
        &mut self,
        operation: Operation,
        input_path: String,
        output_path: String,
        params: JobParams,
    ) -> (id: JobId)
        requires
            old(self).well_formed(),
        ensures
            final(self).well_formed(),
            !old(self)@.contains_key(id),
            final(self)@.contains_key(id),
            final(self)@ == old(self)@.insert(id, final(self)@[id]),
            final(self)@[id] == JobModel::created(
                id,
                final(self)@[id].created_at,
                operation,
                input_path@,
                output_path@,
                params@,
            ),
            final(self)@ == step(
                old(self)@,
                Event::Enroll {
                    id,
                    now: final(self)@[id].created_at,
                    operation,
                    input_path: input_path@,
                    output_path: output_path@,
                    params: params@,
                },
            ),
            is_random_uuid(id.0) || forall|k: u128| k < id.0 ==> old(self)@.contains_key(JobId(k)),
            never_backward(old(self)@, final(self)@),
    {
        let candidate = JobId(fresh_candidate());
        let now = current_millis();
        self.enroll(candidate, now, operation, input_path, output_path, params)
    }

    /// Moves a `Pending` job to `Processing` at time `now`.
    ///
    /// Fails with `JobNotFound` exactly when no job has the identifier.
    /// Returns whether the job moved: a job that is not `Pending` stays as it
    /// is.
    pub fn dispatch_at(&mut self, id: JobId, now: i64) -> (result: Result<bool, MediaError>)
        requires
            old(self).well_formed(),
        ensures
            final(self).well_formed(),
            never_backward(old(self)@, final(self)@),
            final(self)@ == step(old(self)@, Event::Dispatch { id, now }),
            !old(self)@.contains_key(id) ==> result == Err::<bool, MediaError>(
                MediaError::JobNotFound,
            ) && final(self)@ == old(self)@,
            old(self)@.contains_key(id) && old(self)@[id].status == JobStatus::Pending ==> result
                == Ok::<bool, MediaError>(true) && final(self)@ == old(self)@.insert(
                id,
                old(self)@[id].dispatched(now),
            ),
            old(self)@.contains_key(id) && old(self)@[id].status != JobStatus::Pending ==> result
                == Ok::<bool, MediaError>(false) && final(self)@ == old(self)@,
    {
        match self.jobs.remove(&id.0) {
            None => {
                assert(self@ =~= old(self)@);
                Err(MediaError::JobNotFound)
            },
            Some(job) => {
                let moved = match job.status {
                    JobStatus::Pending => true,
                    _ => false,
                };
                let ghost before = job@;
                let next = if moved {
                    Job { status: JobStatus::Processing, progress: 0, updated_at: now, ..job }
                } else {
                    job
                };
                self.jobs.insert(id.0, next);
                if moved {
                    assert(self@ =~= old(self)@.insert(id, before.dispatched(now)));
                } else {
                    assert(self@ =~= old(self)@);
                }
                Ok(moved)
            },
        }
    }

    /// Moves a `Pending` job to `Processing` now. See `dispatch_at`.
    pub fn dispatch(&mut self, id: JobId) -> (result: Result<bool, MediaError>)
        requires
            old(self).well_formed(),
        ensures
            final(self).well_formed(),
            never_backward(old(self)@, final(self)@),
            final(self)@ == step(
                old(self)@,
                Event::Dispatch { id, now: final(self)@[id].updated_at },
            ),
            !old(self)@.contains_key(id) ==> result == Err::<bool, MediaError>(
                MediaError::JobNotFound,
            ) && final(self)@ == old(self)@,
            old(self)@.contains_key(id) && old(self)@[id].status == JobStatus::Pending ==> result
                == Ok::<bool, MediaError>(true) && final(self)@ == old(self)@.insert(
                id,
                old(self)@[id].dispatched(final(self)@[id].updated_at),
            ),
            old(self)@.contains_key(id) && old(self)@[id].status != JobStatus::Pending ==> result
                == Ok::<bool, MediaError>(false) && final(self)@ == old(self)@,
    {
        let now = current_millis();
        self.dispatch_at(id, now)
    }

    /// Ends a `Processing` job at time `now`: `Completed` where the executor
    /// succeeded, `Failed` with the message of its error where it did not.
    ///
    /// Fails with `JobNotFound` exactly when no job has the identifier.
    /// Returns whether the job moved: a job that is not `Processing` stays as
    /// it is.
    pub fn complete_at(&mut self, id: JobId, outcome: Result<(), MediaError>, now: i64) -> (result:
        Result<bool, MediaError>)
        requires
            old(self).well_formed(),
        ensures
            final(self).well_formed(),
            never_backward(old(self)@, final(self)@),
            final(self)@ == step(
                old(self)@,
                Event::Complete { id, outcome: outcome_model(outcome), now },
            ),
            !old(self)@.contains_key(id) ==> result == Err::<bool, MediaError>(
                MediaError::JobNotFound,
            ) && final(self)@ == old(self)@,
            old(self)@.contains_key(id) && old(self)@[id].status == JobStatus::Processing
                ==> result == Ok::<bool, MediaError>(true) && final(self)@ == old(self)@.insert(
                id,
                old(self)@[id].finished(outcome_model(outcome), now),
            ),
            old(self)@.contains_key(id) && old(self)@[id].status != JobStatus::Processing
                ==> result == Ok::<bool, MediaError>(false) && final(self)@ == old(self)@,
    {
        match self.jobs.remove(&id.0) {
            None => {
                assert(self@ =~= old(self)@);
                Err(MediaError::JobNotFound)
            },
            Some(job) => {
                let moved = match job.status {
                    JobStatus::Processing => true,
                    _ => false,
                };
                let ghost before = job@;
                let next = if moved {
                    match outcome {
                        Ok(_) => Job {
                            status: JobStatus::Completed,
                            progress: 100,
                            error_message: None,
                            updated_at: now,
                            ..job
                        },
                        Err(error) => Job {
                            status: JobStatus::Failed,
                            progress: 100,
                            error_message: Some(error.message()),
                            updated_at: now,
                            ..job
                        },
                    }
                } else {
                    job
                };
                self.jobs.insert(id.0, next);
                if moved {
                    assert(self@ =~= old(self)@.insert(
                        id,
                        before.finished(outcome_model(outcome), now),
                    ));
                } else {
                    assert(self@ =~= old(self)@);
                }
                Ok(moved)
            },
        }
    }

    /// Ends a `Processing` job now. See `complete_at`.
    pub fn complete(&mut self, id: JobId, outcome: Result<(), MediaError>) -> (result: Result<
        bool,
        MediaError,
    >)
        requires
            old(self).well_formed(),
        ensures
            final(self).well_formed(),
            never_backward(old(self)@, final(self)@),
            final(self)@ == step(
                old(self)@,
                Event::Complete {
                    id,
                    outcome: outcome_model(outcome),
                    now: final(self)@[id].updated_at,
                },
            ),
            !old(self)@.contains_key(id) ==> result == Err::<bool, MediaError>(
                MediaError::JobNotFound,
            ) && final(self)@ == old(self)@,
            old(self)@.contains_key(id) && old(self)@[id].status == JobStatus::Processing
                ==> result == Ok::<bool, MediaError>(true) && final(self)@ == old(self)@.insert(
                id,
                old(self)@[id].finished(outcome_model(outcome), final(self)@[id].updated_at),
            ),
            old(self)@.contains_key(id) && old(self)@[id].status != JobStatus::Processing
                ==> result == Ok::<bool, MediaError>(false) && final(self)@ == old(self)@,
    {
        let now = current_millis();
        self.complete_at(id, outcome, now)
    }

    /// The record of a job, where there is one with the identifier.
    pub fn job(&self, id: JobId) -> (record: Option<&Job>)
        requires
            self.well_formed(),
        ensures
            match record {
                Some(job) => self@.contains_key(id) && job@ == self@[id] && job@.well_formed()
                    && job@.id == id,
                None => !self@.contains_key(id),
            },
    {
        self.jobs.get(&id.0)
    }

    /// The status of a job.
    ///
    /// Fails with `JobNotFound` exactly when no job has the identifier.
    pub fn get_status(&self, id: JobId) -> (result: Result<JobView, MediaError>)
        requires
            self.well_formed(),
        ensures
            match result {
                Ok(view) => self@.contains_key(id) && view@ == self@[id].snapshot(),
                Err(e) => !self@.contains_key(id) && e == MediaError::JobNotFound,
            },
    {
        match self.jobs.get(&id.0) {
            None => Err(MediaError::JobNotFound),
            Some(job) => {
                let output_path = match job.status {
                    JobStatus::Completed => Some(job.output_path.clone()),
                    _ => None,
                };
                let error_message = match &job.error_message {
                    Some(message) => Some(message.clone()),
                    None => None,
                };
                Ok(
                    JobView {
                        id: job.id,
                        status: job.status,
                        progress: job.progress,
                        output_path,
                        error_message,
                    },
                )
            },
        }
    }

    /// The status of the job whose identifier is written in `text`.
    ///
    /// Fails with `JobNotFound` exactly when the text is no identifier or no
    /// job has the identifier.
    pub fn find_status(&self, text: &str) -> (result: Result<JobView, MediaError>)
        requires
            self.well_formed(),
        ensures
            match result {
                Ok(view) => uuid_of(text@) matches Some(key) && self@.contains_key(JobId(key))
                    && view@ == self@[JobId(key)].snapshot(),
                Err(e) => e == MediaError::JobNotFound && (uuid_of(text@) matches Some(key)
                    ==> !self@.contains_key(JobId(key))),
            },
    {
        match JobId::parse(text) {
            Some(id) => self.get_status(id),
            None => Err(MediaError::JobNotFound),
        }
    }
}

impl JobId {
    /// Reads an identifier written as a UUID.
    pub fn parse(text: &str) -> (id: Option<JobId>)
        ensures
            id == match uuid_of(text@) {
                Some(key) => Some(JobId(key)),
                None => None,
            },
    {
        match parse_uuid(text) {
            Ok(key) => Some(JobId(key)),
            Err(_) => None,
        }
    }
}

/// Whether 128 bits have the version and variant of a random UUID.
pub open spec fn is_random_uuid(bits: u128) -> bool {
    bits & 0xF000_C000_0000_0000_0000 == 0x4000_8000_0000_0000_0000
}

/// Calls `uuid::Uuid::new_v4` and takes the bits of the result. Trusted: the
/// bits carry version 4 and the RFC variant, as `new_v4` sets them; the rest
/// is random, and two calls may differ. The call panics where the operating
/// system gives no random bytes.
#[verifier::external_body]
fn fresh_candidate() -> (bits: u128)
    ensures
        is_random_uuid(bits),
{
    uuid::Uuid::new_v4().as_u128()
}

/// Calls `chrono::Utc::now` and takes the milliseconds since the Unix epoch.
/// Nothing is claimed of the result. The call panics where the system clock
/// stands before the epoch.
#[verifier::external_body]
fn current_millis() -> i64 {
    chrono::Utc::now().timestamp_millis()
}

/// The error type of `uuid`.
#[verifier::external_type_specification]
#[verifier::external_body]
pub struct ExUuidError(uuid::Error);

/// The 128 bits that `uuid::Uuid::parse_str` reads from a text, or nothing
/// where it refuses the text.
pub uninterp spec fn uuid_of(text: Seq<char>) -> Option<u128>;

/// Calls `uuid::Uuid::parse_str` and takes the bits of the result. Trusted:
/// whether the text is accepted, and the bits read, depend on the text alone.
#[verifier::external_body]
fn parse_uuid(text: &str) -> (result: Result<u128, uuid::Error>)
    ensures
        match result {
            Ok(bits) => uuid_of(text@) == Some(bits),
            Err(_) => uuid_of(text@) is None,
        },
{
    uuid::Uuid::parse_str(text).map(|id| id.as_u128())
}

/// A finite set that holds every number up to `k` has more than `k` members.
proof fn lemma_prefix_bounded(numbers: Set<u128>, k: u128)
    requires
        numbers.finite(),
        forall|j: u128| j <= k ==> numbers.contains(j),
    ensures
        k < numbers.len(),
    decreases k,
{
    assert(numbers.contains(k));
    if k == 0 {
        if numbers.len() == 0 {
            assert(numbers =~= Set::empty());
        }
    } else {
        let rest = numbers.remove(k);
        assert forall|j: u128| j <= (k - 1) as u128 implies rest.contains(j) by {
            assert(numbers.contains(j));
        }
        lemma_prefix_bounded(rest, (k - 1) as u128);
    }
}

/// The statuses form an order under `reaches`: it is reflexive, transitive
/// and never turns back, it holds every transition, and a terminal status
/// reaches only itself.
pub proof fn law_status_order(a: JobStatus, b: JobStatus, c: JobStatus)
    ensures
        a.reaches(a),
        a.reaches(b) && b.reaches(c) ==> a.reaches(c),
        a.reaches(b) && b.reaches(a) ==> a == b,
        a.steps_to(b) ==> a.reaches(b) && a != b,
        a.terminal() && a.reaches(b) ==> a == b,
        JobStatus::Pending.reaches(a),
{
}

/// What two status queries show of one job, one after any number of
/// operations of the store, never goes backward: the relation that every
/// operation keeps is reflexive and transitive, and it forbids the return to
/// an earlier status.
pub proof fn law_never_backward(
    first: Map<JobId, JobModel>,
    second: Map<JobId, JobModel>,
    third: Map<JobId, JobModel>,
    id: JobId,
)
    ensures
        never_backward(first, first),
        never_backward(first, second) && never_backward(second, third) ==> never_backward(
            first,
            third,
        ),
        never_backward(first, second) && first.contains_key(id) ==> second.contains_key(id) && (
        second[id].status == first[id].status || !second[id].status.reaches(first[id].status)),
        never_backward(first, second) && first.contains_key(id) && first[id].status.terminal()
            ==> second[id].status == first[id].status,
{
    if never_backward(first, second) && never_backward(second, third) {
        assert forall|k: JobId| #[trigger] first.contains_key(k) implies third.contains_key(k)
            && first[k].status.reaches(third[k].status) && third[k].id == first[k].id
            && third[k].operation == first[k].operation && third[k].input_path
            == first[k].input_path && third[k].output_path == first[k].output_path
            && third[k].params == first[k].params && third[k].created_at
            == first[k].created_at by {
            assert(second.contains_key(k));
        }
    }
}

/// No operation moves a job backward: the store after one operation holds
/// every job that it held before, with a status that the earlier one
/// reaches.
pub proof fn law_step_never_backward(store: Map<JobId, JobModel>, event: Event)
    ensures
        never_backward(store, step(store, event)),
{
}

/// No history of operations moves a job backward.
pub proof fn law_history_never_backward(store: Map<JobId, JobModel>, history: Seq<Event>)
    ensures
        never_backward(store, after(store, history)),
    decreases history.len(),
{
    if history.len() > 0 {
        let earlier = after(store, history.drop_last());
        law_history_never_backward(store, history.drop_last());
        law_step_never_backward(earlier, history.last());
        law_never_backward(store, earlier, step(earlier, history.last()), JobId(0));
    }
}

/// Two status queries for one job, with any history of operations between
/// them, never show a step backward: the job is still there, the later
/// status stands no earlier in the lifecycle than the first, a final status
/// stays as it is, and a job never returns to `Pending`.
pub proof fn law_status_queries(store: Map<JobId, JobModel>, history: Seq<Event>, id: JobId)
    requires
        store.contains_key(id),
    ensures
        after(store, history).contains_key(id),
        after(store, history)[id].snapshot().status.rank() >= store[id].snapshot().status.rank(),
        store[id].snapshot().status.terminal() ==> after(store, history)[id].snapshot().status
            == store[id].snapshot().status,
        after(store, history)[id].snapshot().status == JobStatus::Pending
            ==> store[id].snapshot().status == JobStatus::Pending,
{
    law_history_never_backward(store, history);
}

/// A job that was created by an operation is `Pending` right after it, with
/// no progress and no message.
pub proof fn law_created_pending(
    store: Map<JobId, JobModel>,
    id: JobId,
    now: i64,
    operation: Operation,
    input_path: Seq<char>,
    output_path: Seq<char>,
    params: ParamsModel,
)
    requires
        !store.contains_key(id),
    ensures
        ({
            let next = step(
                store,
                Event::Enroll { id, now, operation, input_path, output_path, params },
            );
            &&& next.contains_key(id)
            &&& next[id].snapshot().status == JobStatus::Pending
            &&& next[id].snapshot().progress == 0
            &&& next[id].snapshot().output_path is None
            &&& next[id].snapshot().error_message is None
        }),
{
}

} // verus!
