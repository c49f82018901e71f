use keiyoushi_clone::download::{
    download_bin, download_icon, is_success, AssetKind, Download, DownloadAction, DownloadEvent,
    Phase,
};
use keiyoushi_clone::error::{DownloadFailure, MirrorError, Outcome};

const URL: &str = "https://example.net/repo/apk/en.mangadex.apk";

fn failure(failure: DownloadFailure) -> Outcome {
    Outcome::Failed(MirrorError::AssetDownload { url: URL.to_string(), failure })
}

fn after(events: Vec<DownloadEvent>) -> Download {
    let mut d = download_bin(URL);
    for e in events {
        d.record(e);
    }
    d
}

#[test]
fn statuses_from_200_to_299_are_a_success() {
    assert!(!is_success(0));
    assert!(!is_success(199));
    assert!(is_success(200));
    assert!(is_success(204));
    assert!(is_success(299));
    assert!(!is_success(300));
    assert!(!is_success(404));
    assert!(!is_success(500));
    assert!(!is_success(u16::MAX));
}

#[test]
fn binaries_go_to_apk_and_icons_to_icon() {
    assert_eq!(AssetKind::Binary.directory(), "apk");
    assert_eq!(AssetKind::Icon.directory(), "icon");
    let b = download_bin(URL);
    assert_eq!(b.kind, AssetKind::Binary);
    let i = download_icon("https://example.net/repo/icon/a.b.c.png");
    assert_eq!(i.kind, AssetKind::Icon);
    assert_eq!(i.file_name, Some("a.b.c.png".to_string()));
    assert_eq!(i.url, "https://example.net/repo/icon/a.b.c.png");
}

#[test]
fn the_destination_is_the_directory_and_the_file_name() {
    assert_eq!(download_bin(URL).destination(), Some("apk/en.mangadex.apk".to_string()));
    assert_eq!(
        download_icon("https://example.net/repo/icon/a.b.c.png").destination(),
        Some("icon/a.b.c.png".to_string())
    );
    assert_eq!(download_bin("https://example.net/repo/apk/").destination(), Some("apk/".to_string()));
    assert_eq!(download_bin("data:text/plain,hello").destination(), None);
}

#[test]
fn a_download_begins_with_its_request() {
    let d = download_bin(URL);
    assert_eq!(d.url, URL);
    assert_eq!(d.file_name, Some("en.mangadex.apk".to_string()));
    assert_eq!(d.phase, Phase::Requesting);
    assert_eq!(d.action(), DownloadAction::Request);
    assert!(!d.is_settled());
    assert_eq!(d.outcome(), None);
    assert_eq!(d, Download::begin(URL, AssetKind::Binary));
}

#[test]
fn a_url_without_a_file_name_fails_before_any_request() {
    let d = download_icon("data:text/plain,hello");
    assert_eq!(d.file_name, None);
    assert!(d.is_settled());
    assert_eq!(d.action(), DownloadAction::Finish);
    assert_eq!(
        d.outcome(),
        Some(&Outcome::Failed(MirrorError::MissingFilename {
            url: "data:text/plain,hello".to_string()
        }))
    );
}

#[test]
fn a_download_goes_from_request_to_flush() {
    let mut d = download_bin(URL);
    assert_eq!(d.action(), DownloadAction::Request);
    d.record(DownloadEvent::Responded { status: 200 });
    assert_eq!(d.action(), DownloadAction::CreateFile);
    d.record(DownloadEvent::FileCreated);
    assert_eq!(d.action(), DownloadAction::AwaitChunk);
    for _ in 0..3 {
        d.record(DownloadEvent::ChunkArrived);
        assert_eq!(d.action(), DownloadAction::WriteChunk);
        d.record(DownloadEvent::ChunkWritten);
        assert_eq!(d.action(), DownloadAction::AwaitChunk);
    }
    d.record(DownloadEvent::BodyEnded);
    assert_eq!(d.action(), DownloadAction::Flush);
    assert!(!d.is_settled());
    d.record(DownloadEvent::Flushed);
    assert_eq!(d.action(), DownloadAction::Finish);
    assert_eq!(d.outcome(), Some(&Outcome::Succeeded));
    assert_eq!(d.file_name, Some("en.mangadex.apk".to_string()));
}

#[test]
fn an_empty_body_is_flushed_at_once() {
    let d = after(vec![
        DownloadEvent::Responded { status: 204 },
        DownloadEvent::FileCreated,
        DownloadEvent::BodyEnded,
    ]);
    assert_eq!(d.action(), DownloadAction::Flush);
}

#[test]
fn a_bad_status_fails_with_the_status_and_the_url() {
    for status in [199u16, 300, 301, 404, 500, 503] {
        let d = after(vec![DownloadEvent::Responded { status }]);
        assert_eq!(d.action(), DownloadAction::Finish);
        assert_eq!(d.outcome(), Some(&failure(DownloadFailure::Status(status))));
    }
}

#[test]
fn a_failed_request_fails_the_download() {
    let d = after(vec![DownloadEvent::TransportFailed { reason: "connection refused".to_string() }]);
    assert_eq!(d.action(), DownloadAction::Finish);
    assert_eq!(
        d.outcome(),
        Some(&failure(DownloadFailure::Transport("connection refused".to_string())))
    );
}

#[test]
fn a_broken_stream_fails_the_download_and_leaves_the_file() {
    let d = after(vec![
        DownloadEvent::Responded { status: 200 },
        DownloadEvent::FileCreated,
        DownloadEvent::ChunkArrived,
        DownloadEvent::ChunkWritten,
        DownloadEvent::TransportFailed { reason: "reset".to_string() },
    ]);
    assert_eq!(d.action(), DownloadAction::Finish);
    assert_eq!(d.outcome(), Some(&failure(DownloadFailure::Transport("reset".to_string()))));
}

#[test]
fn a_file_that_cannot_be_created_written_or_flushed_fails_the_download() {
    let create = after(vec![
        DownloadEvent::Responded { status: 200 },
        DownloadEvent::StorageFailed { reason: "no such directory".to_string() },
    ]);
    assert_eq!(
        create.outcome(),
        Some(&failure(DownloadFailure::Storage("no such directory".to_string())))
    );
    let write = after(vec![
        DownloadEvent::Responded { status: 200 },
        DownloadEvent::FileCreated,
        DownloadEvent::ChunkArrived,
        DownloadEvent::StorageFailed { reason: "disk full".to_string() },
    ]);
    assert_eq!(write.outcome(), Some(&failure(DownloadFailure::Storage("disk full".to_string()))));
    let flush = after(vec![
        DownloadEvent::Responded { status: 200 },
        DownloadEvent::FileCreated,
        DownloadEvent::BodyEnded,
        DownloadEvent::StorageFailed { reason: "io".to_string() },
    ]);
    assert_eq!(flush.outcome(), Some(&failure(DownloadFailure::Storage("io".to_string()))));
    assert_eq!(flush.action(), DownloadAction::Finish);
}

#[test]
fn an_event_out_of_turn_fails_the_download() {
    let early = after(vec![DownloadEvent::FileCreated]);
    assert_eq!(early.outcome(), Some(&failure(DownloadFailure::OutOfTurn)));
    let twice = after(vec![
        DownloadEvent::Responded { status: 200 },
        DownloadEvent::Responded { status: 200 },
    ]);
    assert_eq!(twice.outcome(), Some(&failure(DownloadFailure::OutOfTurn)));
    let flushed_early = after(vec![
        DownloadEvent::Responded { status: 200 },
        DownloadEvent::FileCreated,
        DownloadEvent::ChunkArrived,
        DownloadEvent::BodyEnded,
    ]);
    assert_eq!(flushed_early.outcome(), Some(&failure(DownloadFailure::OutOfTurn)));
    let storage_while_waiting = after(vec![
        DownloadEvent::Responded { status: 200 },
        DownloadEvent::FileCreated,
        DownloadEvent::StorageFailed { reason: "x".to_string() },
    ]);
    assert_eq!(storage_while_waiting.outcome(), Some(&failure(DownloadFailure::OutOfTurn)));
}

#[test]
fn a_settled_download_stays_as_it_is() {
    let mut done = after(vec![
        DownloadEvent::Responded { status: 200 },
        DownloadEvent::FileCreated,
        DownloadEvent::BodyEnded,
        DownloadEvent::Flushed,
    ]);
    let before = done.clone();
    done.record(DownloadEvent::Responded { status: 500 });
    done.record(DownloadEvent::StorageFailed { reason: "late".to_string() });
    done.record(DownloadEvent::Flushed);
    assert_eq!(done, before);
    assert_eq!(done.outcome(), Some(&Outcome::Succeeded));

    let mut failed = after(vec![DownloadEvent::Responded { status: 404 }]);
    failed.record(DownloadEvent::Responded { status: 200 });
    failed.record(DownloadEvent::FileCreated);
    assert_eq!(failed.outcome(), Some(&failure(DownloadFailure::Status(404))));
    assert_eq!(failed.action(), DownloadAction::Finish);
}

#[test]
fn one_download_knows_nothing_of_another() {
    let mut a = download_bin("https://example.net/apk/a.apk");
    let mut b = download_bin("https://example.net/apk/b.apk");
    a.record(DownloadEvent::Responded { status: 404 });
    b.record(DownloadEvent::Responded { status: 200 });
    assert!(a.is_settled());
    assert_eq!(b.action(), DownloadAction::CreateFile);
    assert_eq!(b.file_name, Some("b.apk".to_string()));
}
