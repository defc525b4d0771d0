//! The streaming transfer as a machine of three states, and the coordinator
//! that leads one attempt through its phases. Both decide; creating the
//! file, pulling the stream and asking for a path is the caller's part.

use crate::api::client::{
    bytes_content, is_success, success, ApiClient, ApiError, Exchange, Failure, Goal, Handshake,
    Request, Stage, REFERER,
};
use crate::domain::{AppError, DownloadPhase, DownloadPlan, Progress};
use crate::text::{from_chars, strip, strip_bounds, to_chars, trim, Margin};
use crate::utils::{
    extract_video_id, opt_view, parsed_url, sanitize_filename, sanitized, video_id,
};
use bytes::Bytes;
use std::path::PathBuf;
use vstd::prelude::*;
use vstd::string::StringExecFns;

verus! {

/// `std::path::PathBuf`: the destination of the file, carried through
/// unread.
#[verifier::external_type_specification]
#[verifier::external_body]
pub struct ExPathBuf(PathBuf);

/// `PathBuf::clone` gives a path equal to the one cloned.
pub assume_specification[ <PathBuf as Clone>::clone ](path: &PathBuf) -> (copy: PathBuf)
    ensures
        copy == *path,
;

/// What a transfer tells its caller.
#[derive(Debug, Clone, PartialEq, Eq)]
pub enum DownloadEvent {
    /// The fraction of the transfer that is done.
    Progress(Progress),
    /// The file is complete and synced, at this path.
    Completed(PathBuf),
    /// The transfer ended early. What was written stays on disk.
    Failed(AppError),
}

/// The outside work that an open transfer waits on.
#[derive(Debug, PartialEq, Eq)]
pub enum Work {
    /// The next chunk of the stream.
    Pull,
    /// The writing of this chunk to the end of the file.
    Append(Bytes),
    /// The syncing of the file to storage.
    Sync,
}

/// Where a transfer stands.
#[derive(Debug, PartialEq, Eq)]
pub enum DownloadRuntimeState {
    /// Nothing is open yet: first the file is created, then the stream is
    /// opened.
    Start { url: String, path: PathBuf, created: bool },
    /// The file and the stream are open.
    Downloading { downloaded: u64, total: Option<u64>, path: PathBuf, work: Work },
    /// The transfer is over; nothing more happens.
    Finished,
}

/// What the caller is to do for a transfer, one thing at a time.
#[derive(Debug, PartialEq, Eq)]
pub enum TransferAction<'a> {
    /// Create the file at this path, emptying it if it exists.
    Create(&'a PathBuf),
    /// Send the request for this address and open the stream of its body.
    Open(&'a String),
    /// Ask the stream for its next chunk.
    Pull,
    /// Write this chunk to the end of the file.
    Append(&'a Bytes),
    /// Sync the file to storage.
    Sync,
    /// Nothing: the transfer is over.
    Stop,
}

/// What came of the action that a transfer waited on.
#[derive(Debug, PartialEq, Eq)]
pub enum TransferReport {
    /// The file was created.
    Created,
    /// The file could not be created.
    CreateFailed(String),
    /// The request was answered, with this status; the length is what the
    /// `Content-Length` header gave, if there was one.
    Opened { status: u16, total: Option<u64> },
    /// No answer came; the text says what went wrong on the way.
    OpenFailed(String),
    /// The stream gave its next chunk.
    Pulled(Bytes),
    /// The stream has no more chunks.
    Ended,
    /// The stream broke off; the text says what went wrong on the way.
    StreamFailed(String),
    /// The chunk was written.
    Appended,
    /// The chunk could not be written.
    WriteFailed(String),
    /// The file was synced.
    Synced,
    /// The file could not be synced.
    SyncFailed(String),
}

/// The event is the failure of file handling described by `prefix` and
/// `detail`.
pub open spec fn is_io_failure(event: Option<DownloadEvent>, prefix: Seq<char>, detail: Seq<char>) -> bool {
    event matches Some(DownloadEvent::Failed(AppError::Io(text))) && text@ == prefix + detail
}

/// The event is the failure of the remote side described by `detail`.
pub open spec fn is_api_failure(event: Option<DownloadEvent>, detail: Seq<char>) -> bool {
    event matches Some(DownloadEvent::Failed(AppError::Api(text))) && text@ == detail
}

/// What a transfer that waits for the file to be created does with
/// `report`.
pub open spec fn after_create(
    url: String,
    path: PathBuf,
    report: TransferReport,
    next: DownloadRuntimeState,
    event: Option<DownloadEvent>,
) -> bool {
    match report {
        TransferReport::Created => next == (DownloadRuntimeState::Start {
            url,
            path,
            created: true,
        }) && event is None,
        TransferReport::CreateFailed(detail) => next is Finished && is_io_failure(
            event,
            "Failed to create file: "@,
            detail@,
        ),
        _ => next == (DownloadRuntimeState::Start { url, path, created: false }) && event is None,
    }
}

/// What a transfer that waits for the stream to be opened does with
/// `report`.
pub open spec fn after_open(
    url: String,
    path: PathBuf,
    report: TransferReport,
    next: DownloadRuntimeState,
    event: Option<DownloadEvent>,
) -> bool {
    match report {
        TransferReport::Opened { status, total } => if is_success(status) {
            next == (DownloadRuntimeState::Downloading {
                downloaded: 0,
                total,
                path,
                work: Work::Pull,
            }) && event == Some(
                DownloadEvent::Progress(Progress { numerator: 0, denominator: 1 }),
            )
        } else {
            next is Finished && is_api_failure(
                event,
                Failure::HttpStatus(status, Exchange::Download).message(),
            )
        },
        TransferReport::OpenFailed(detail) => next is Finished && is_api_failure(
            event,
            Failure::Transport(detail@).message(),
        ),
        _ => next == (DownloadRuntimeState::Start { url, path, created: true }) && event is None,
    }
}

/// What an open transfer does with `report`, by the work it waits on.
pub open spec fn after_work(
    downloaded: u64,
    total: Option<u64>,
    path: PathBuf,
    work: Work,
    report: TransferReport,
    next: DownloadRuntimeState,
    event: Option<DownloadEvent>,
) -> bool {
    let unchanged = next == (DownloadRuntimeState::Downloading { downloaded, total, path, work })
        && event is None;
    match work {
        Work::Pull => match report {
            TransferReport::Pulled(chunk) => next == (DownloadRuntimeState::Downloading {
                downloaded,
                total,
                path,
                work: Work::Append(chunk),
            }) && event is None,
            TransferReport::Ended => next == (DownloadRuntimeState::Downloading {
                downloaded,
                total,
                path,
                work: Work::Sync,
            }) && event is None,
            TransferReport::StreamFailed(detail) => next is Finished && is_api_failure(
                event,
                Failure::Transport(detail@).message(),
            ),
            _ => unchanged,
        },
        Work::Append(chunk) => match report {
            TransferReport::Appended => {
                let sum = (downloaded + bytes_content(chunk).len()) as u64;
                next == (DownloadRuntimeState::Downloading {
                    downloaded: sum,
                    total,
                    path,
                    work: Work::Pull,
                }) && event == Some(DownloadEvent::Progress(Progress::of(sum, total)))
            },
            TransferReport::WriteFailed(detail) => next is Finished && is_io_failure(
                event,
                "Write error: "@,
                detail@,
            ),
            _ => unchanged,
        },
        Work::Sync => match report {
            TransferReport::Synced => next is Finished && event == Some(
                DownloadEvent::Completed(path),
            ),
            TransferReport::SyncFailed(detail) => next is Finished && is_io_failure(
                event,
                "Failed to sync file: "@,
                detail@,
            ),
            _ => unchanged,
        },
    }
}

/// What a transfer in `state` does with `report`: the state it moves to and
/// the event it emits. A report of something that the state did not wait on
/// changes nothing.
pub open spec fn stepped(
    state: DownloadRuntimeState,
    report: TransferReport,
    next: DownloadRuntimeState,
    event: Option<DownloadEvent>,
) -> bool {
    match state {
        DownloadRuntimeState::Start { url, path, created } => if created {
            after_open(url, path, report, next, event)
        } else {
            after_create(url, path, report, next, event)
        },
        DownloadRuntimeState::Downloading { downloaded, total, path, work } => after_work(
            downloaded,
            total,
            path,
            work,
            report,
            next,
            event,
        ),
        DownloadRuntimeState::Finished => next is Finished && event is None,
    }
}

/// The count of bytes stays within 64 bits when `report` is taken in
/// `state`.
pub open spec fn countable(state: DownloadRuntimeState, report: TransferReport) -> bool {
    match (state, report) {
        (
            DownloadRuntimeState::Downloading { downloaded, work: Work::Append(chunk), .. },
            TransferReport::Appended,
        ) => downloaded + bytes_content(chunk).len() <= u64::MAX,
        _ => true,
    }
}

fn io_failure(prefix: &str, detail: &str) -> (event: Option<DownloadEvent>)
    ensures
        is_io_failure(event, prefix@, detail@),
{
    Some(DownloadEvent::Failed(AppError::Io(String::from_str(prefix).concat(detail))))
}

fn api_failure(error: ApiError) -> (event: Option<DownloadEvent>)
    ensures
        is_api_failure(event, error@.message()),
{
    Some(DownloadEvent::Failed(AppError::Api(error.to_string())))
}

impl DownloadRuntimeState {
    /// The action whose report the transfer waits for.
    pub open spec fn awaited(&self) -> TransferAction<'_> {
        match self {
            DownloadRuntimeState::Start { url, path, created } => if *created {
                TransferAction::Open(url)
            } else {
                TransferAction::Create(path)
            },
            DownloadRuntimeState::Downloading { work, .. } => match work {
                Work::Pull => TransferAction::Pull,
                Work::Append(chunk) => TransferAction::Append(chunk),
                Work::Sync => TransferAction::Sync,
            },
            DownloadRuntimeState::Finished => TransferAction::Stop,
        }
    }

    /// The bytes written so far.
    pub open spec fn count(self) -> nat {
        match self {
            DownloadRuntimeState::Downloading { downloaded, .. } => downloaded as nat,
            _ => 0,
        }
    }

    /// What the caller is to do next.
    pub fn pending(&self) -> (action: TransferAction<'_>)
        ensures
            action == self.awaited(),
    {
        match self {
            DownloadRuntimeState::Start { url, path, created } => {
                if *created {
                    TransferAction::Open(url)
                } else {
                    TransferAction::Create(path)
                }
            },
            DownloadRuntimeState::Downloading { work, .. } => match work {
                Work::Pull => TransferAction::Pull,
                Work::Append(chunk) => TransferAction::Append(chunk),
                Work::Sync => TransferAction::Sync,
            },
            DownloadRuntimeState::Finished => TransferAction::Stop,
        }
    }

    /// Whether the count of bytes stays within 64 bits when `report` is
    /// taken.
    pub fn can_take(&self, report: &TransferReport) -> (ok: bool)
        ensures
            ok == countable(*self, *report),
    {
        match (self, report) {
            (
                DownloadRuntimeState::Downloading { downloaded, work: Work::Append(chunk), .. },
                TransferReport::Appended,
            ) => {
                let n: usize = chunk.len();
                n as u64 <= u64::MAX - *downloaded
            },
            _ => true,
        }
    }

    fn on_create(url: String, path: PathBuf, report: TransferReport) -> (out: (
        DownloadRuntimeState,
        Option<DownloadEvent>,
    ))
        ensures
            after_create(url, path, report, out.0, out.1),
    {
        match report {
            TransferReport::Created => (
                DownloadRuntimeState::Start { url, path, created: true },
                None,
            ),
            TransferReport::CreateFailed(detail) => (
                DownloadRuntimeState::Finished,
                io_failure("Failed to create file: ", detail.as_str()),
            ),
            _ => (DownloadRuntimeState::Start { url, path, created: false }, None),
        }
    }

    fn on_open(url: String, path: PathBuf, report: TransferReport) -> (out: (
        DownloadRuntimeState,
        Option<DownloadEvent>,
    ))
        ensures
            after_open(url, path, report, out.0, out.1),
    {
        match report {
            TransferReport::Opened { status, total } => {
                if success(status) {
                    (
                        DownloadRuntimeState::Downloading {
                            downloaded: 0,
                            total,
                            path,
                            work: Work::Pull,
                        },
                        Some(DownloadEvent::Progress(Progress::zero())),
                    )
                } else {
                    (
                        DownloadRuntimeState::Finished,
                        api_failure(ApiError::HttpStatus(status, Exchange::Download)),
                    )
                }
            },
            TransferReport::OpenFailed(detail) => (
                DownloadRuntimeState::Finished,
                api_failure(ApiError::RequestError(detail)),
            ),
            _ => (DownloadRuntimeState::Start { url, path, created: true }, None),
        }
    }

    fn on_work(
        downloaded: u64,
        total: Option<u64>,
        path: PathBuf,
        work: Work,
        report: TransferReport,
    ) -> (out: (DownloadRuntimeState, Option<DownloadEvent>))
        requires
            countable(DownloadRuntimeState::Downloading { downloaded, total, path, work }, report),
        ensures
            after_work(downloaded, total, path, work, report, out.0, out.1),
    {
        match work {
            Work::Pull => match report {
                TransferReport::Pulled(chunk) => (
                    DownloadRuntimeState::Downloading {
                        downloaded,
                        total,
                        path,
                        work: Work::Append(chunk),
                    },
                    None,
                ),
                TransferReport::Ended => (
                    DownloadRuntimeState::Downloading { downloaded, total, path, work: Work::Sync },
                    None,
                ),
                TransferReport::StreamFailed(detail) => (
                    DownloadRuntimeState::Finished,
                    api_failure(ApiError::RequestError(detail)),
                ),
                _ => (
                    DownloadRuntimeState::Downloading { downloaded, total, path, work: Work::Pull },
                    None,
                ),
            },
            Work::Append(chunk) => match report {
                TransferReport::Appended => {
                    let n: usize = chunk.len();
                    let sum: u64 = downloaded + n as u64;
                    (
                        DownloadRuntimeState::Downloading {
                            downloaded: sum,
                            total,
                            path,
                            work: Work::Pull,
                        },
                        Some(DownloadEvent::Progress(Progress::new(sum, total))),
                    )
                },
                TransferReport::WriteFailed(detail) => (
                    DownloadRuntimeState::Finished,
                    io_failure("Write error: ", detail.as_str()),
                ),
                _ => (
                    DownloadRuntimeState::Downloading {
                        downloaded,
                        total,
                        path,
                        work: Work::Append(chunk),
                    },
                    None,
                ),
            },
            Work::Sync => match report {
                TransferReport::Synced => (
                    DownloadRuntimeState::Finished,
                    Some(DownloadEvent::Completed(path)),
                ),
                TransferReport::SyncFailed(detail) => (
                    DownloadRuntimeState::Finished,
                    io_failure("Failed to sync file: ", detail.as_str()),
                ),
                _ => (
                    DownloadRuntimeState::Downloading { downloaded, total, path, work: Work::Sync },
                    None,
                ),
            },
        }
    }

    /// Takes the report of the action that the transfer waited on: moves to
    /// the next state and says what to tell the caller.
    pub fn step(self, report: TransferReport) -> (out: (DownloadRuntimeState, Option<DownloadEvent>))
        requires
            countable(self, report),
        ensures
            stepped(self, report, out.0, out.1),
    {
        match self {
            DownloadRuntimeState::Start { url, path, created } => {
                if created {
                    DownloadRuntimeState::on_open(url, path, report)
                } else {
                    DownloadRuntimeState::on_create(url, path, report)
                }
            },
            DownloadRuntimeState::Downloading {
                downloaded,
                total,
                path,
                work,
            } => DownloadRuntimeState::on_work(downloaded, total, path, work, report),
            DownloadRuntimeState::Finished => (DownloadRuntimeState::Finished, None),
        }
    }
}

/// The file name offered for a title: the sanitized title without full
/// stops and spaces at its ends, with the extension `.mp3`.
pub open spec fn suggested_name(title: Seq<char>) -> Seq<char> {
    strip(Margin::DotsAndSpaces, sanitized(title)) + ".mp3"@
}

/// The plan for a title and a download address.
pub open spec fn is_plan_for(plan: DownloadPlan, title: Seq<char>, url: Seq<char>) -> bool {
    plan.title@ == title && plan.download_url@ == url && plan.suggested_filename@
        == suggested_name(title)
}

/// The plan for a title and a download address.
pub fn plan_for(title: String, download_url: String) -> (plan: DownloadPlan)
    ensures
        is_plan_for(plan, title@, download_url@),
{
    let safe: String = sanitize_filename(title.as_str());
    let chars: Vec<char> = to_chars(safe.as_str());
    let (lo, hi) = strip_bounds(Margin::DotsAndSpaces, &chars);
    let mut suggested_filename: String = from_chars(&chars, lo, hi);
    suggested_filename.append(".mp3");
    DownloadPlan { title, download_url, suggested_filename }
}

/// What the handshake's outcome means for the attempt: the plan, or the
/// failure with the handshake's own message.
pub open spec fn prepared(
    outcome: Result<(String, String), ApiError>,
    result: Result<DownloadPlan, AppError>,
) -> bool {
    match outcome {
        Ok((title, url)) => result matches Ok(plan) && is_plan_for(plan, title@, url@),
        Err(e) => result matches Err(AppError::Api(text)) && text@ == e@.message(),
    }
}

/// Where an attempt stands, with the plan where one is kept.
#[derive(Debug, PartialEq, Eq)]
enum Position {
    Idle,
    Preparing,
    AwaitingSavePath(DownloadPlan),
    Downloading,
    Completed,
    Failed,
}

/// Leads one attempt through its phases and keeps the plan between the
/// handshake and the transfer.
#[derive(Debug, PartialEq, Eq)]
pub struct DownloadCoordinator {
    api_client: ApiClient,
    position: Position,
}

impl DownloadCoordinator {
    /// The client that the handshakes are started with.
    pub closed spec fn client(&self) -> ApiClient {
        self.api_client
    }

    /// The phase of the attempt.
    pub closed spec fn current_phase(&self) -> DownloadPhase {
        match self.position {
            Position::Idle => DownloadPhase::Idle,
            Position::Preparing => DownloadPhase::Preparing,
            Position::AwaitingSavePath(_) => DownloadPhase::AwaitingSavePath,
            Position::Downloading => DownloadPhase::Downloading,
            Position::Completed => DownloadPhase::Completed,
            Position::Failed => DownloadPhase::Failed,
        }
    }

    /// The plan that waits for a destination.
    pub closed spec fn stored_plan(&self) -> Option<DownloadPlan> {
        match self.position {
            Position::AwaitingSavePath(plan) => Some(plan),
            _ => None,
        }
    }

    /// A plan is kept exactly while a destination is awaited.
    pub proof fn lemma_plan_is_kept_while_awaited(self)
        ensures
            self.stored_plan() is Some <==> self.current_phase()
                == DownloadPhase::AwaitingSavePath,
    {
    }

    /// The coordinator in `phase`, with the same client and no plan.
    pub open spec fn moved_to(&self, pre: DownloadCoordinator, phase: DownloadPhase) -> bool {
        self.client() == pre.client() && self.current_phase() == phase && self.stored_plan() is None
    }

    /// What a request for the video `id` does to a coordinator: nothing
    /// while an attempt is under way; else the attempt fails where there is
    /// no identifier, and starts with the request for the landing page where
    /// there is one.
    pub open spec fn admitted(
        &self,
        pre: DownloadCoordinator,
        id: Option<Seq<char>>,
        out: Option<Result<(Handshake, Request), AppError>>,
    ) -> bool {
        if pre.current_phase().busy() {
            out is None && *self == pre
        } else {
            match id {
                Some(id) => self.moved_to(pre, DownloadPhase::Preparing) && (out matches Some(
                    Ok(first),
                ) && pre.client().started(Goal::Info, Stage::Page, id, REFERER@, first)),
                None => self.moved_to(pre, DownloadPhase::Failed) && out == Some(
                    Err::<(Handshake, Request), AppError>(AppError::InvalidInput),
                ),
            }
        }
    }

    /// What the handshake's outcome does to a coordinator that prepares an
    /// attempt; in any other phase, nothing.
    pub open spec fn settled(
        &self,
        pre: DownloadCoordinator,
        result: Result<DownloadPlan, AppError>,
    ) -> bool {
        if pre.current_phase() == DownloadPhase::Preparing {
            match result {
                Ok(plan) => self.client() == pre.client() && self.current_phase()
                    == DownloadPhase::AwaitingSavePath && self.stored_plan() == Some(plan),
                Err(_) => self.moved_to(pre, DownloadPhase::Failed),
            }
        } else {
            *self == pre
        }
    }

    /// What the answer of the path selection does to a coordinator that
    /// awaits it; in any other phase, nothing.
    pub open spec fn routed(
        &self,
        pre: DownloadCoordinator,
        answer: Option<PathBuf>,
        out: Option<DownloadRuntimeState>,
    ) -> bool {
        match (pre.current_phase(), pre.stored_plan()) {
            (DownloadPhase::AwaitingSavePath, Some(plan)) => match answer {
                Some(path) => self.moved_to(pre, DownloadPhase::Downloading) && out == Some(
                    DownloadRuntimeState::Start { url: plan.download_url, path, created: false },
                ),
                None => self.moved_to(pre, DownloadPhase::Idle) && out is None,
            },
            _ => *self == pre && out is None,
        }
    }

    /// What an event of the transfer does to a coordinator that downloads;
    /// in any other phase, nothing.
    pub open spec fn relayed(&self, pre: DownloadCoordinator, event: DownloadEvent) -> bool {
        if pre.current_phase() == DownloadPhase::Downloading {
            match event {
                DownloadEvent::Progress(_) => *self == pre,
                DownloadEvent::Completed(_) => self.moved_to(pre, DownloadPhase::Completed),
                DownloadEvent::Failed(_) => self.moved_to(pre, DownloadPhase::Failed),
            }
        } else {
            *self == pre
        }
    }

    /// A coordinator with no attempt under way.
    pub fn new(api_client: ApiClient) -> (coordinator: DownloadCoordinator)
        ensures
            coordinator.client() == api_client,
            coordinator.current_phase() == DownloadPhase::Idle,
            coordinator.stored_plan() is None,
    {
        DownloadCoordinator { api_client, position: Position::Idle }
    }

    /// The phase of the attempt.
    pub fn phase(&self) -> (phase: DownloadPhase)
        ensures
            phase == self.current_phase(),
    {
        match &self.position {
            Position::Idle => DownloadPhase::Idle,
            Position::Preparing => DownloadPhase::Preparing,
            Position::AwaitingSavePath(_) => DownloadPhase::AwaitingSavePath,
            Position::Downloading => DownloadPhase::Downloading,
            Position::Completed => DownloadPhase::Completed,
            Position::Failed => DownloadPhase::Failed,
        }
    }

    /// The plan that waits for a destination.
    pub fn plan(&self) -> (plan: Option<&DownloadPlan>)
        ensures
            match plan {
                Some(p) => self.stored_plan() == Some(*p),
                None => self.stored_plan() is None,
            },
    {
        match &self.position {
            Position::AwaitingSavePath(plan) => Some(plan),
            _ => None,
        }
    }

    /// Takes a request for the video that the input named, if it named one.
    pub fn prepare_with(&mut self, id: Option<String>) -> (out: Option<
        Result<(Handshake, Request), AppError>,
    >)
        ensures
            final(self).admitted(*old(self), opt_view(id), out),
    {
        if self.phase().is_busy() {
            return None;
        }
        match id {
            Some(id) => {
                self.position = Position::Preparing;
                Some(Ok(self.api_client.get_download_info(id.as_str())))
            },
            None => {
                self.position = Position::Failed;
                Some(Err(AppError::InvalidInput))
            },
        }
    }

    /// Takes a request for the video that `youtube_url` names: a bare
    /// identifier, a short link or a watch link.
    pub fn prepare_download(&mut self, youtube_url: &str) -> (out: Option<
        Result<(Handshake, Request), AppError>,
    >)
        ensures
            final(self).admitted(
                *old(self),
                video_id(trim(youtube_url@), parsed_url(trim(youtube_url@))),
                out,
            ),
    {
        let id: Option<String> = extract_video_id(youtube_url);
        self.prepare_with(id)
    }

    /// Takes the outcome of the handshake: the plan for the save dialog and
    /// the transfer, or the failure of the attempt.
    pub fn finish_prepare(&mut self, outcome: Result<(String, String), ApiError>) -> (result: Result<
        DownloadPlan,
        AppError,
    >)
        ensures
            prepared(outcome, result),
            final(self).settled(*old(self), result),
    {
        let result: Result<DownloadPlan, AppError> = match outcome {
            Ok((title, url)) => Ok(plan_for(title, url)),
            Err(e) => Err(AppError::Api(e.to_string())),
        };
        if self.phase() == DownloadPhase::Preparing {
            match &result {
                Ok(plan) => {
                    self.position = Position::AwaitingSavePath(plan.duplicate());
                },
                Err(_) => {
                    self.position = Position::Failed;
                },
            }
        }
        result
    }

    /// Takes the answer of the path selection: with a path the transfer
    /// starts and the plan is used up; without one the attempt is over and
    /// nothing has happened.
    pub fn choose_save_path(&mut self, answer: Option<PathBuf>) -> (out: Option<
        DownloadRuntimeState,
    >)
        ensures
            final(self).routed(*old(self), answer, out),
    {
        let url: String = match &self.position {
            Position::AwaitingSavePath(plan) => plan.download_url.clone(),
            _ => {
                return None;
            },
        };
        match answer {
            Some(path) => {
                self.position = Position::Downloading;
                Some(self.download_stream(url, path))
            },
            None => {
                self.position = Position::Idle;
                None
            },
        }
    }

    /// The transfer of `url` to `path`, before its first step.
    pub fn download_stream(&self, url: String, path: PathBuf) -> (state: DownloadRuntimeState)
        ensures
            state == (DownloadRuntimeState::Start { url, path, created: false }),
    {
        DownloadRuntimeState::Start { url, path, created: false }
    }

    /// Takes an event of the transfer: the attempt ends with the transfer.
    pub fn relay(&mut self, event: &DownloadEvent)
        ensures
            final(self).relayed(*old(self), *event),
    {
        if self.phase() == DownloadPhase::Downloading {
            match event {
                DownloadEvent::Progress(_) => {},
                DownloadEvent::Completed(_) => {
                    self.position = Position::Completed;
                },
                DownloadEvent::Failed(_) => {
                    self.position = Position::Failed;
                },
            }
        }
    }
}

/// A transfer from `states[0]` on: each report leads from one state to the
/// next and emits one event, or none.
pub open spec fn is_run(
    states: Seq<DownloadRuntimeState>,
    reports: Seq<TransferReport>,
    events: Seq<Option<DownloadEvent>>,
) -> bool {
    &&& states.len() == reports.len() + 1
    &&& events.len() == reports.len()
    &&& forall|i: int|
        0 <= i < reports.len() ==> countable(states[i], #[trigger] reports[i]) && stepped(
            states[i],
            reports[i],
            states[i + 1],
            events[i],
        )
}

/// The bytes of the chunks whose writing the first `k` reports confirm.
pub open spec fn written(
    states: Seq<DownloadRuntimeState>,
    reports: Seq<TransferReport>,
    k: int,
) -> nat
    decreases k,
{
    if k <= 0 {
        0
    } else {
        written(states, reports, k - 1) + match (states[k - 1], reports[k - 1]) {
            (
                DownloadRuntimeState::Downloading { work: Work::Append(chunk), .. },
                TransferReport::Appended,
            ) => bytes_content(chunk).len(),
            _ => 0,
        }
    }
}

/// The state is open, with this total and this path.
pub open spec fn is_open(state: DownloadRuntimeState, total: Option<u64>, path: PathBuf) -> bool {
    state matches DownloadRuntimeState::Downloading { total: t, path: p, .. } && t == total && p
        == path
}

proof fn lemma_run_counts(
    states: Seq<DownloadRuntimeState>,
    reports: Seq<TransferReport>,
    events: Seq<Option<DownloadEvent>>,
    total: Option<u64>,
    path: PathBuf,
    k: int,
)
    requires
        is_run(states, reports, events),
        states[0] == (DownloadRuntimeState::Downloading {
            downloaded: 0,
            total,
            path,
            work: Work::Pull,
        }),
        0 <= k <= reports.len(),
    ensures
        states[k] is Finished || is_open(states[k], total, path),
        is_open(states[k], total, path) ==> states[k].count() == written(states, reports, k),
        k > 0 ==> match events[k - 1] {
            Some(DownloadEvent::Progress(p)) => is_open(states[k], total, path) && p
                == Progress::of(written(states, reports, k) as u64, total) && written(
                states,
                reports,
                k,
            ) <= u64::MAX,
            Some(DownloadEvent::Completed(p)) => states[k] is Finished && reports[k - 1] is Synced
                && p == path && written(states, reports, k) == written(states, reports, k - 1),
            _ => true,
        },
    decreases k,
{
    if k > 0 {
        lemma_run_counts(states, reports, events, total, path, k - 1);
        assert(countable(states[k - 1], reports[k - 1]));
        assert(stepped(states[k - 1], reports[k - 1], states[k], events[k - 1]));
    }
}

proof fn lemma_written_grows(
    states: Seq<DownloadRuntimeState>,
    reports: Seq<TransferReport>,
    i: int,
    j: int,
)
    requires
        i <= j,
    ensures
        written(states, reports, i) <= written(states, reports, j),
    decreases j - i,
{
    if i < j {
        lemma_written_grows(states, reports, i, j - 1);
    }
}

/// Of a transfer whose total is known and positive, from the opening of the
/// stream on: each fraction that it emits is the bytes written so far over
/// the total; the fractions never decrease; and the fraction emitted when
/// the bytes written reach the total is one.
pub proof fn lemma_progress_with_total(
    states: Seq<DownloadRuntimeState>,
    reports: Seq<TransferReport>,
    events: Seq<Option<DownloadEvent>>,
    total: u64,
    path: PathBuf,
)
    requires
        is_run(states, reports, events),
        total > 0,
        states[0] == (DownloadRuntimeState::Downloading {
            downloaded: 0,
            total: Some(total),
            path,
            work: Work::Pull,
        }),
    ensures
        forall|k: int|
            0 <= k < events.len() ==> (#[trigger] events[k] matches Some(
                DownloadEvent::Progress(p),
            ) ==> p == (Progress {
                numerator: written(states, reports, k + 1) as u64,
                denominator: total,
            }) && written(states, reports, k + 1) <= u64::MAX),
        forall|i: int, j: int|
            0 <= i <= j < events.len() ==> (#[trigger] events[i] matches Some(
                DownloadEvent::Progress(p),
            ) ==> (#[trigger] events[j] matches Some(DownloadEvent::Progress(q)) ==> p.at_most(
                q,
            ))),
        forall|k: int|
            0 <= k < events.len() && written(states, reports, k + 1) == total ==> (
            #[trigger] events[k] matches Some(DownloadEvent::Progress(p)) ==> p.numerator
                == p.denominator && p.is_full()),
{
    assert forall|k: int| 0 <= k < events.len() implies (#[trigger] events[k] matches Some(
        DownloadEvent::Progress(p),
    ) ==> p == (Progress {
        numerator: written(states, reports, k + 1) as u64,
        denominator: total,
    }) && written(states, reports, k + 1) <= u64::MAX) by {
        lemma_run_counts(states, reports, events, Some(total), path, k + 1);
    }
    assert forall|i: int, j: int| 0 <= i <= j < events.len() implies (
    #[trigger] events[i] matches Some(DownloadEvent::Progress(p)) ==> (
    #[trigger] events[j] matches Some(DownloadEvent::Progress(q)) ==> p.at_most(q))) by {
        lemma_written_grows(states, reports, i + 1, j + 1);
        let a = written(states, reports, i + 1) as int;
        let b = written(states, reports, j + 1) as int;
        let n = total as int;
        assert(a * n <= b * n) by (nonlinear_arith)
            requires
                a <= b,
                n >= 0,
        ;
    }
}

/// Of a transfer whose total is unknown, from the opening of the stream on:
/// every fraction that it emits is zero. Only the path, emitted once the
/// stream has ended and the file is synced, tells that it is complete.
pub proof fn lemma_progress_without_total(
    states: Seq<DownloadRuntimeState>,
    reports: Seq<TransferReport>,
    events: Seq<Option<DownloadEvent>>,
    path: PathBuf,
)
    requires
        is_run(states, reports, events),
        states[0] == (DownloadRuntimeState::Downloading {
            downloaded: 0,
            total: None,
            path,
            work: Work::Pull,
        }),
    ensures
        forall|k: int|
            0 <= k < events.len() ==> (#[trigger] events[k] matches Some(
                DownloadEvent::Progress(p),
            ) ==> p.is_zero()),
        forall|k: int|
            0 <= k < events.len() ==> (#[trigger] events[k] matches Some(
                DownloadEvent::Completed(p),
            ) ==> p == path && reports[k] is Synced && states[k + 1] is Finished),
{
    assert forall|k: int| 0 <= k < events.len() implies (#[trigger] events[k] matches Some(
        DownloadEvent::Progress(p),
    ) ==> p.is_zero()) && (events[k] matches Some(DownloadEvent::Completed(p)) ==> p == path
        && reports[k] is Synced && states[k + 1] is Finished) by {
        lemma_run_counts(states, reports, events, None, path, k + 1);
    }
}

/// A chunk is written before the next is asked for, and the file is synced
/// before the transfer completes: after a chunk has come the transfer
/// waits on its writing, after the writing on the next chunk, after the end
/// of the stream on the syncing, and only the syncing completes it.
pub proof fn lemma_one_chunk_in_flight(
    state: DownloadRuntimeState,
    report: TransferReport,
    next: DownloadRuntimeState,
    event: Option<DownloadEvent>,
)
    requires
        state is Downloading,
        stepped(state, report, next, event),
    ensures
        state.awaited() is Pull ==> (report matches TransferReport::Pulled(chunk)
            ==> next.awaited() == TransferAction::Append(&chunk)),
        state.awaited() is Pull && report is Ended ==> next.awaited() is Sync,
        state.awaited() is Append && report is Appended ==> next.awaited() is Pull,
        (event matches Some(DownloadEvent::Completed(_))) ==> state.awaited() is Sync && report
            is Synced,
        next is Finished ==> event is Some,
{
}

/// A finished transfer stays finished and emits nothing.
pub proof fn lemma_finished_is_silent(
    report: TransferReport,
    next: DownloadRuntimeState,
    event: Option<DownloadEvent>,
)
    requires
        stepped(DownloadRuntimeState::Finished, report, next, event),
    ensures
        next is Finished,
        event is None,
{
}

/// A plan serves one transfer: the transfer starts only from a stored plan,
/// with the address in it, and the plan is gone once the transfer has
/// started or the dialog was declined.
pub proof fn lemma_plan_is_used_once(
    pre: DownloadCoordinator,
    answer: Option<PathBuf>,
    post: DownloadCoordinator,
    out: Option<DownloadRuntimeState>,
)
    requires
        post.routed(pre, answer, out),
    ensures
        out matches Some(state) ==> (pre.stored_plan() matches Some(plan) && answer matches Some(
            path,
        ) && state == (DownloadRuntimeState::Start {
            url: plan.download_url,
            path,
            created: false,
        })),
        pre.current_phase() == DownloadPhase::AwaitingSavePath ==> post.stored_plan() is None,
        post.current_phase() == DownloadPhase::Downloading ==> post.stored_plan() is None,
{
}

/// While a transfer is under way, and in the two phases that lead to it, a
/// new request changes nothing and starts nothing.
pub proof fn lemma_busy_rejects(
    pre: DownloadCoordinator,
    id: Option<Seq<char>>,
    post: DownloadCoordinator,
    out: Option<Result<(Handshake, Request), AppError>>,
)
    requires
        pre.current_phase() == DownloadPhase::Downloading || pre.current_phase()
            == DownloadPhase::Preparing || pre.current_phase() == DownloadPhase::AwaitingSavePath,
        post.admitted(pre, id, out),
    ensures
        out is None,
        post == pre,
{
}

} // verus!
