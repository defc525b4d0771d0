//! The application's state and its reaction to each message. The reaction
//! is a change of state and a command; running the command and sending the
//! message that reports its result is the caller's part.

use crate::api::client::ApiClient;
use crate::api::models::ApiConfig;
use crate::application::download_coordinator::{plan_for, suggested_name, DownloadRuntimeState};
use crate::domain::{DownloadPlan, Progress};
use crate::text::trim;
use crate::ui::{DownloadMessage, DownloadView, Status};
use crate::utils::{extract_video_id, opt_view, parsed_url, video_id};
use std::path::PathBuf;
use vstd::prelude::*;

verus! {

/// The state of the application.
#[derive(Debug, PartialEq, Eq)]
pub struct DownloadApp {
    pub view: DownloadView,
    pub api_client: ApiClient,
    /// The address and the destination of the transfer under way.
    pub pending_download: Option<(String, PathBuf)>,
}

/// What reaches the application.
#[derive(Debug, PartialEq, Eq)]
pub enum Message {
    /// The person at the window did something.
    UiMessage(DownloadMessage),
    /// The handshake ended: with the title and the download address, or with
    /// the message of its failure.
    DownloadInfoReceived(Result<(String, String), String>),
    /// The dialog closed: with the destination or without, and the download
    /// address that was waiting for it.
    FileSaveSelected(Option<PathBuf>, String),
    /// The transfer has come this far.
    DownloadProgress(Progress),
    /// The transfer ended: with the path of the file, or with the message of
    /// its failure.
    DownloadCompleted(Result<PathBuf, String>),
}

/// What the caller is to do next.
#[derive(Debug, PartialEq, Eq)]
pub enum Command {
    /// Nothing.
    Idle,
    /// Run the handshake for this video and report with
    /// [`Message::DownloadInfoReceived`].
    FetchInfo(String),
    /// Ask for a destination, offering the file name, and report with
    /// [`Message::FileSaveSelected`] and the address.
    ChooseSavePath { suggested_filename: String, url: String },
    /// Run this transfer and report its events with
    /// [`Message::DownloadProgress`] and [`Message::DownloadCompleted`].
    Download(DownloadRuntimeState),
}

impl DownloadApp {
    /// The application as it starts: the default service, an empty window,
    /// nothing under way.
    pub fn new() -> (app: DownloadApp)
        ensures
            app.view.youtube_url@.len() == 0,
            app.view.status == Status::Prompt,
            !app.view.is_downloading,
            app.view.download_progress == (Progress { numerator: 0, denominator: 1 }),
            app.api_client.base() == "https://eta.etacloud.org/api/v1"@,
            app.api_client.user() == "uLYHx4FToXeloU3RJEEliN"@,
            app.pending_download is None,
    {
        DownloadApp {
            view: DownloadView::default(),
            api_client: ApiClient::new(ApiConfig::default()),
            pending_download: None,
        }
    }
}

impl Default for DownloadApp {
    fn default() -> (app: DownloadApp)
        ensures
            !app.view.is_downloading,
            app.pending_download is None,
    {
        DownloadApp::new()
    }
}

/// The button is pressed and does something: there is text in the input
/// field and nothing is under way.
pub open spec fn accepts_press(app: DownloadApp) -> bool {
    app.view.youtube_url@.len() > 0 && !app.view.is_downloading
}

/// The input field, the progress and the client are as before.
pub open spec fn keeps_input(pre: DownloadApp, post: DownloadApp) -> bool {
    post.view.youtube_url == pre.view.youtube_url && post.view.download_progress
        == pre.view.download_progress && post.api_client == pre.api_client
}

/// The reaction to a press of the button, given the video that the input
/// names, if it names one.
pub open spec fn pressed(
    pre: DownloadApp,
    id: Option<Seq<char>>,
    post: DownloadApp,
    command: Command,
) -> bool {
    if !accepts_press(pre) {
        post == pre && command is Idle
    } else {
        &&& keeps_input(pre, post)
        &&& post.pending_download == pre.pending_download
        &&& match id {
            Some(id) => {
                &&& post.view.is_downloading
                &&& post.view.status matches Status::FetchingInfo(shown) && shown@ == id
                &&& command matches Command::FetchInfo(asked) && asked@ == id
            },
            None => {
                &&& !post.view.is_downloading
                &&& post.view.status == Status::InvalidInput
                &&& command is Idle
            },
        }
    }
}

/// The reaction to the end of the handshake.
pub open spec fn informed(
    pre: DownloadApp,
    result: Result<(String, String), String>,
    post: DownloadApp,
    command: Command,
) -> bool {
    &&& keeps_input(pre, post)
    &&& post.pending_download == pre.pending_download
    &&& match result {
        Ok((title, url)) => {
            &&& post.view.is_downloading == pre.view.is_downloading
            &&& post.view.status == Status::SelectSaveLocation
            &&& command matches Command::ChooseSavePath { suggested_filename, url: address }
                && suggested_filename@ == suggested_name(title@) && address@ == url@
        },
        Err(e) => {
            &&& !post.view.is_downloading
            &&& post.view.status == Status::InfoFailed(e)
            &&& command is Idle
        },
    }
}

/// The reaction to the end of the dialog.
pub open spec fn selected(
    pre: DownloadApp,
    answer: Option<PathBuf>,
    url: String,
    post: DownloadApp,
    command: Command,
) -> bool {
    &&& keeps_input(pre, post)
    &&& match answer {
        Some(path) => {
            &&& post.view.is_downloading == pre.view.is_downloading
            &&& post.view.status == Status::DownloadingTo(path)
            &&& post.pending_download == Some((url, path))
            &&& command == Command::Download(DownloadRuntimeState::Start { url, path, created: false })
        },
        None => {
            &&& !post.view.is_downloading
            &&& post.view.status == Status::Cancelled
            &&& post.pending_download == pre.pending_download
            &&& command is Idle
        },
    }
}

/// The reaction to the progress of the transfer.
pub open spec fn progressed(pre: DownloadApp, progress: Progress, post: DownloadApp, command: Command) -> bool {
    post.view.download_progress == progress && post.view.status == (if progress.is_full() {
        Status::Finalizing
    } else {
        Status::Downloading(progress)
    }) && post.view.is_downloading == pre.view.is_downloading && post.view.youtube_url
        == pre.view.youtube_url && post.api_client == pre.api_client && post.pending_download
        == pre.pending_download && command is Idle
}

/// The reaction to the end of the transfer.
pub open spec fn completed(
    pre: DownloadApp,
    result: Result<PathBuf, String>,
    post: DownloadApp,
    command: Command,
) -> bool {
    !post.view.is_downloading && post.pending_download is None && post.view.download_progress == (
    Progress { numerator: 0, denominator: 1 }) && post.view.status == (match result {
        Ok(path) => Status::Saved(path),
        Err(e) => Status::DownloadFailed(e),
    }) && post.view.youtube_url == pre.view.youtube_url && post.api_client == pre.api_client
        && command is Idle
}

/// The reaction of the application `pre` to `message`: the state `post`
/// and the command.
pub open spec fn updated(pre: DownloadApp, message: Message, post: DownloadApp, command: Command) -> bool {
    match message {
        Message::UiMessage(DownloadMessage::YoutubeUrlChanged(text)) => post == (DownloadApp {
            view: DownloadView { youtube_url: text, ..pre.view },
            ..pre
        }) && command is Idle,
        Message::UiMessage(DownloadMessage::DownloadPressed) => pressed(
            pre,
            video_id(trim(pre.view.youtube_url@), parsed_url(trim(pre.view.youtube_url@))),
            post,
            command,
        ),
        Message::DownloadInfoReceived(result) => informed(pre, result, post, command),
        Message::FileSaveSelected(answer, url) => selected(pre, answer, url, post, command),
        Message::DownloadProgress(progress) => progressed(pre, progress, post, command),
        Message::DownloadCompleted(result) => completed(pre, result, post, command),
    }
}

/// Reacts to a press of the button, given the video that the input names.
pub fn press(app: &mut DownloadApp, id: Option<String>) -> (command: Command)
    ensures
        pressed(*old(app), opt_view(id), *final(app), command),
{
    if app.view.youtube_url.as_str().is_empty() || app.view.is_downloading {
        return Command::Idle;
    }
    match id {
        Some(id) => {
            app.view.is_downloading = true;
            app.view.status = Status::FetchingInfo(id.clone());
            Command::FetchInfo(id)
        },
        None => {
            app.view.status = Status::InvalidInput;
            Command::Idle
        },
    }
}

/// Reacts to `message`: changes the state and says what to do next.
pub fn update(app: &mut DownloadApp, message: Message) -> (command: Command)
    ensures
        updated(*old(app), message, *final(app), command),
{
    match message {
        Message::UiMessage(ui_message) => match ui_message {
            DownloadMessage::YoutubeUrlChanged(text) => {
                app.view.update(DownloadMessage::YoutubeUrlChanged(text));
                Command::Idle
            },
            DownloadMessage::DownloadPressed => {
                app.view.update(DownloadMessage::DownloadPressed);
                let id: Option<String> = extract_video_id(app.view.youtube_url.as_str());
                press(app, id)
            },
        },
        Message::DownloadInfoReceived(result) => match result {
            Ok((title, url)) => {
                app.view.status = Status::SelectSaveLocation;
                let plan: DownloadPlan = plan_for(title, url);
                Command::ChooseSavePath {
                    suggested_filename: plan.suggested_filename,
                    url: plan.download_url,
                }
            },
            Err(e) => {
                app.view.is_downloading = false;
                app.view.status = Status::InfoFailed(e);
                Command::Idle
            },
        },
        Message::FileSaveSelected(answer, url) => match answer {
            Some(path) => {
                app.view.status = Status::DownloadingTo(path.clone());
                app.pending_download = Some((url.clone(), path.clone()));
                Command::Download(DownloadRuntimeState::Start { url, path, created: false })
            },
            None => {
                app.view.is_downloading = false;
                app.view.status = Status::Cancelled;
                Command::Idle
            },
        },
        Message::DownloadProgress(progress) => {
            app.view.download_progress = progress;
            if progress.is_complete() {
                app.view.status = Status::Finalizing;
            } else {
                app.view.status = Status::Downloading(progress);
            }
            Command::Idle
        },
        Message::DownloadCompleted(result) => {
            app.view.is_downloading = false;
            app.pending_download = None;
            app.view.download_progress = Progress::zero();
            match result {
                Ok(path) => {
                    app.view.status = Status::Saved(path);
                },
                Err(e) => {
                    app.view.status = Status::DownloadFailed(e);
                },
            }
            Command::Idle
        },
    }
}

/// While an attempt is under way a press of the button changes nothing and
/// commands nothing: no second handshake or transfer is started.
pub proof fn lemma_press_is_ignored_while_downloading(
    pre: DownloadApp,
    post: DownloadApp,
    command: Command,
)
    requires
        pre.view.is_downloading,
        updated(pre, Message::UiMessage(DownloadMessage::DownloadPressed), post, command),
    ensures
        post == pre,
        command is Idle,
{
}

} // verus!
