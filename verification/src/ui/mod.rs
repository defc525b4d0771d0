//! What the window shows, as plain values; drawing it is the caller's part.

use crate::domain::Progress;
use std::path::PathBuf;
use vstd::prelude::*;

verus! {

/// The line of text under the input field, before it is worded.
#[derive(Debug, Clone, PartialEq, Eq)]
pub enum Status {
    /// Nothing has been asked for yet.
    Prompt,
    /// The handshake for this video is under way.
    FetchingInfo(String),
    /// The input names no video.
    InvalidInput,
    /// The dialog for the destination is open.
    SelectSaveLocation,
    /// The handshake failed, with this message.
    InfoFailed(String),
    /// The transfer to this path has started.
    DownloadingTo(PathBuf),
    /// The dialog was closed without a destination.
    Cancelled,
    /// The transfer has come this far.
    Downloading(Progress),
    /// Every byte has arrived; the file is being synced.
    Finalizing,
    /// The file is complete, at this path.
    Saved(PathBuf),
    /// The transfer failed, with this message.
    DownloadFailed(String),
}

/// The state of the window.
#[derive(Debug, PartialEq, Eq)]
pub struct DownloadView {
    pub youtube_url: String,
    pub status: Status,
    pub is_downloading: bool,
    pub download_progress: Progress,
}

impl Default for DownloadView {
    fn default() -> (view: DownloadView)
        ensures
            view.youtube_url@.len() == 0,
            view.status == Status::Prompt,
            !view.is_downloading,
            view.download_progress == (Progress { numerator: 0, denominator: 1 }),
    {
        DownloadView {
            youtube_url: String::new(),
            status: Status::Prompt,
            is_downloading: false,
            download_progress: Progress::zero(),
        }
    }
}

/// What the person at the window did.
#[derive(Debug, Clone, PartialEq, Eq)]
pub enum DownloadMessage {
    YoutubeUrlChanged(String),
    DownloadPressed,
}

impl DownloadView {
    /// The view after `message`: new text in the input field replaces the
    /// old; a press of the button changes nothing here.
    pub open spec fn after(self, message: DownloadMessage) -> DownloadView {
        match message {
            DownloadMessage::YoutubeUrlChanged(text) => DownloadView { youtube_url: text, ..self },
            DownloadMessage::DownloadPressed => self,
        }
    }

    /// Takes what the person at the window did.
    pub fn update(&mut self, message: DownloadMessage)
        ensures
            *final(self) == old(self).after(message),
    {
        match message {
            DownloadMessage::YoutubeUrlChanged(text) => {
                self.youtube_url = text;
            },
            DownloadMessage::DownloadPressed => {},
        }
    }
}

} // verus!
