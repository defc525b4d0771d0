use mp3_downloader::app::{press, update, Command, DownloadApp, Message};
use mp3_downloader::application::download_coordinator::DownloadRuntimeState;
use mp3_downloader::domain::Progress;
use mp3_downloader::ui::{DownloadMessage, DownloadView, Status};
use std::path::PathBuf;

fn typed(text: &str) -> DownloadApp {
    let mut app = DownloadApp::new();
    let command = update(
        &mut app,
        Message::UiMessage(DownloadMessage::YoutubeUrlChanged(text.to_string())),
    );
    assert_eq!(command, Command::Idle);
    app
}

fn fetching() -> DownloadApp {
    let mut app = typed("https://youtu.be/z0vCwGUZe1I");
    let command = update(&mut app, Message::UiMessage(DownloadMessage::DownloadPressed));
    assert_eq!(command, Command::FetchInfo("z0vCwGUZe1I".to_string()));
    app
}

fn downloading() -> DownloadApp {
    let mut app = fetching();
    update(
        &mut app,
        Message::DownloadInfoReceived(Ok(("Song".to_string(), "https://example.com/a".to_string()))),
    );
    update(
        &mut app,
        Message::FileSaveSelected(Some(PathBuf::from("/tmp/a.mp3")), "https://example.com/a".to_string()),
    );
    app
}

#[test]
fn new_application_is_idle() {
    let app = DownloadApp::new();
    assert_eq!(app.view.youtube_url, "");
    assert_eq!(app.view.status, Status::Prompt);
    assert!(!app.view.is_downloading);
    assert_eq!(app.view.download_progress, Progress { numerator: 0, denominator: 1 });
    assert_eq!(app.pending_download, None);
    assert_eq!(app.api_client.config().user_id, "uLYHx4FToXeloU3RJEEliN");
    assert_eq!(app.api_client.config().base_init_url, "https://eta.etacloud.org/api/v1");
    assert_eq!(DownloadApp::default(), DownloadApp::new());
}

#[test]
fn typing_changes_the_input_only() {
    let app = typed("abc");
    assert_eq!(app.view.youtube_url, "abc");
    assert_eq!(app.view.status, Status::Prompt);
    assert!(!app.view.is_downloading);
}

#[test]
fn press_with_empty_input_does_nothing() {
    let mut app = DownloadApp::new();
    let command = update(&mut app, Message::UiMessage(DownloadMessage::DownloadPressed));
    assert_eq!(command, Command::Idle);
    assert_eq!(app, DownloadApp::new());
}

#[test]
fn press_with_a_video_starts_the_handshake() {
    let app = fetching();
    assert!(app.view.is_downloading);
    assert_eq!(app.view.status, Status::FetchingInfo("z0vCwGUZe1I".to_string()));
    assert_eq!(app.view.youtube_url, "https://youtu.be/z0vCwGUZe1I");
}

#[test]
fn press_with_invalid_input_says_so() {
    let mut app = typed("not a url");
    let command = update(&mut app, Message::UiMessage(DownloadMessage::DownloadPressed));
    assert_eq!(command, Command::Idle);
    assert!(!app.view.is_downloading);
    assert_eq!(app.view.status, Status::InvalidInput);
}

#[test]
fn press_is_ignored_while_an_attempt_is_under_way() {
    let mut app = fetching();
    let command = update(&mut app, Message::UiMessage(DownloadMessage::DownloadPressed));
    assert_eq!(command, Command::Idle);
    assert_eq!(app, fetching());
    let mut app = downloading();
    let command = update(&mut app, Message::UiMessage(DownloadMessage::DownloadPressed));
    assert_eq!(command, Command::Idle);
    assert_eq!(app, downloading());
    let mut app = downloading();
    assert_eq!(press(&mut app, Some("z0vCwGUZe1I".to_string())), Command::Idle);
    assert_eq!(app, downloading());
}

#[test]
fn info_opens_the_dialog_with_a_clean_name() {
    let mut app = fetching();
    let command = update(
        &mut app,
        Message::DownloadInfoReceived(Ok((
            " My/Song. ".to_string(),
            "https://example.com/a".to_string(),
        ))),
    );
    assert_eq!(
        command,
        Command::ChooseSavePath {
            suggested_filename: "My_Song.mp3".to_string(),
            url: "https://example.com/a".to_string(),
        }
    );
    assert_eq!(app.view.status, Status::SelectSaveLocation);
    assert!(app.view.is_downloading);
}

#[test]
fn failed_info_ends_the_attempt() {
    let mut app = fetching();
    let command = update(
        &mut app,
        Message::DownloadInfoReceived(Err("Download URL not found".to_string())),
    );
    assert_eq!(command, Command::Idle);
    assert!(!app.view.is_downloading);
    assert_eq!(app.view.status, Status::InfoFailed("Download URL not found".to_string()));
}

#[test]
fn chosen_path_starts_the_transfer() {
    let mut app = fetching();
    update(
        &mut app,
        Message::DownloadInfoReceived(Ok(("Song".to_string(), "https://example.com/a".to_string()))),
    );
    let command = update(
        &mut app,
        Message::FileSaveSelected(Some(PathBuf::from("/tmp/a.mp3")), "https://example.com/a".to_string()),
    );
    assert_eq!(
        command,
        Command::Download(DownloadRuntimeState::Start {
            url: "https://example.com/a".to_string(),
            path: PathBuf::from("/tmp/a.mp3"),
            created: false,
        })
    );
    assert_eq!(app.view.status, Status::DownloadingTo(PathBuf::from("/tmp/a.mp3")));
    assert_eq!(
        app.pending_download,
        Some(("https://example.com/a".to_string(), PathBuf::from("/tmp/a.mp3")))
    );
    assert!(app.view.is_downloading);
}

#[test]
fn closed_dialog_cancels_the_attempt() {
    let mut app = fetching();
    let command = update(&mut app, Message::FileSaveSelected(None, "https://example.com/a".to_string()));
    assert_eq!(command, Command::Idle);
    assert!(!app.view.is_downloading);
    assert_eq!(app.view.status, Status::Cancelled);
    assert_eq!(app.pending_download, None);
}

#[test]
fn progress_is_shown_until_it_is_full() {
    let mut app = downloading();
    let half = Progress { numerator: 1, denominator: 2 };
    assert_eq!(update(&mut app, Message::DownloadProgress(half)), Command::Idle);
    assert_eq!(app.view.download_progress, half);
    assert_eq!(app.view.status, Status::Downloading(half));
    let full = Progress { numerator: 2, denominator: 2 };
    update(&mut app, Message::DownloadProgress(full));
    assert_eq!(app.view.download_progress, full);
    assert_eq!(app.view.status, Status::Finalizing);
    assert!(app.view.is_downloading);
}

#[test]
fn completion_resets_the_attempt() {
    let mut app = downloading();
    update(&mut app, Message::DownloadProgress(Progress { numerator: 1, denominator: 2 }));
    let command = update(&mut app, Message::DownloadCompleted(Ok(PathBuf::from("/tmp/a.mp3"))));
    assert_eq!(command, Command::Idle);
    assert!(!app.view.is_downloading);
    assert_eq!(app.pending_download, None);
    assert_eq!(app.view.download_progress, Progress { numerator: 0, denominator: 1 });
    assert_eq!(app.view.status, Status::Saved(PathBuf::from("/tmp/a.mp3")));
    let command = update(&mut app, Message::UiMessage(DownloadMessage::DownloadPressed));
    assert_eq!(command, Command::FetchInfo("z0vCwGUZe1I".to_string()));
}

#[test]
fn failure_resets_the_attempt() {
    let mut app = downloading();
    update(&mut app, Message::DownloadCompleted(Err("Write error: disk full".to_string())));
    assert!(!app.view.is_downloading);
    assert_eq!(app.pending_download, None);
    assert_eq!(app.view.status, Status::DownloadFailed("Write error: disk full".to_string()));
}

#[test]
fn view_takes_the_text_typed() {
    let mut view = DownloadView::default();
    assert_eq!(view.status, Status::Prompt);
    view.update(DownloadMessage::YoutubeUrlChanged("abc".to_string()));
    assert_eq!(view.youtube_url, "abc");
    view.update(DownloadMessage::DownloadPressed);
    assert_eq!(view.youtube_url, "abc");
    assert!(!view.is_downloading);
    assert_eq!(view.download_progress, Progress { numerator: 0, denominator: 1 });
}
