use keiyoushi_clone::download::AssetKind;
use keiyoushi_clone::error::{DecodeError, DownloadFailure, Flaw, Member, MirrorError, Outcome};
use keiyoushi_clone::filter::AllowLists;
use keiyoushi_clone::manifest::{Source, TachiyomiPkg};
use keiyoushi_clone::pipeline::{
    derive_urls, plan, Action, Event, Plan, Run, Settings, Stage, INDEX_FILE_PATH,
    KEIYOUSHI_SOURCE_BIN_URL, KEIYOUSHI_SOURCE_ICON_URL, KEIYOUSHI_SOURCE_URL,
};

const BODY: &str = r#"[
  {"name":"Tachiyomi: MangaDex","pkg":"eu.kanade.tachiyomi.extension.all.mangadex",
   "apk":"tachiyomi-all.mangadex-v1.4.204.apk","lang":"all","code":204,"version":"1.4.204","nsfw":1,
   "sources":[{"name":"MangaDex","lang":"en","id":"1","baseUrl":"https://mangadex.org"},
              {"name":"MangaDex","lang":"fr","id":"2","baseUrl":"https://mangadex.org"},
              {"name":"MangaDex","lang":"pt-BR","id":"3","baseUrl":"https://mangadex.org"}]},
  {"name":"Tachiyomi: Comick","pkg":"eu.kanade.tachiyomi.extension.all.comick",
   "apk":"tachiyomi-all.comick-v1.4.1.apk","lang":"all","code":1,"version":"1.4.1","nsfw":0,
   "sources":[{"name":"Comick","lang":"en","id":"4","baseUrl":"https://comick.io"}]},
  {"name":"MangaDex Legacy","pkg":"legacy.mangadex","apk":"legacy.apk","lang":"en","code":2,
   "version":"0.2","nsfw":0,"sources":[]}
]"#;

const WRITTEN: &str = "[{\"name\":\"Tachiyomi: MangaDex\",\"pkg\":\"eu.kanade.tachiyomi.extension.all.mangadex\",\"apk\":\"tachiyomi-all.mangadex-v1.4.204.apk\",\"lang\":\"all\",\"code\":204,\"version\":\"1.4.204\",\"nsfw\":1,\"sources\":[{\"name\":\"MangaDex\",\"lang\":\"en\",\"id\":\"1\",\"baseUrl\":\"https://mangadex.org\"},{\"name\":\"MangaDex\",\"lang\":\"pt-BR\",\"id\":\"3\",\"baseUrl\":\"https://mangadex.org\"}]},{\"name\":\"MangaDex Legacy\",\"pkg\":\"legacy.mangadex\",\"apk\":\"legacy.apk\",\"lang\":\"en\",\"code\":2,\"version\":\"0.2\",\"nsfw\":0,\"sources\":[]}]";

fn binaries() -> Vec<String> {
    vec![
        "https://raw.githubusercontent.com/keiyoushi/extensions/refs/heads/repo/apk/tachiyomi-all.mangadex-v1.4.204.apk".to_string(),
        "https://raw.githubusercontent.com/keiyoushi/extensions/refs/heads/repo/apk/legacy.apk".to_string(),
    ]
}

fn icons() -> Vec<String> {
    vec![
        "https://raw.githubusercontent.com/keiyoushi/extensions/refs/heads/repo/icon/eu.kanade.tachiyomi.extension.all.mangadex.png".to_string(),
        "https://raw.githubusercontent.com/keiyoushi/extensions/refs/heads/repo/icon/legacy.mangadex.png".to_string(),
    ]
}

fn failure(url: &str, status: u16) -> Outcome {
    Outcome::Failed(MirrorError::AssetDownload {
        url: url.to_string(),
        failure: DownloadFailure::Status(status),
    })
}

fn reading() -> Run {
    let (mut run, _) = Run::start(Settings::keiyoushi());
    assert_eq!(run.step(Event::ManifestStatus { status: 200 }), Action::ReadBody);
    run
}

fn downloading() -> Run {
    let mut run = reading();
    run.step(Event::ManifestBody { text: BODY.to_string() });
    run
}

#[test]
fn the_keiyoushi_settings_are_the_catalogs() {
    let s = Settings::keiyoushi();
    assert_eq!(
        s.manifest_url,
        "https://raw.githubusercontent.com/keiyoushi/extensions/refs/heads/repo/index.json"
    );
    assert_eq!(
        s.binary_base,
        "https://raw.githubusercontent.com/keiyoushi/extensions/refs/heads/repo/apk/"
    );
    assert_eq!(
        s.icon_base,
        "https://raw.githubusercontent.com/keiyoushi/extensions/refs/heads/repo/icon/"
    );
    assert_eq!(s.lists.names, vec!["MangaDex".to_string()]);
    assert_eq!(s.lists.langs, vec!["pt-BR".to_string(), "en".to_string()]);
    assert_eq!(s.manifest_url, KEIYOUSHI_SOURCE_URL);
    assert_eq!(s.binary_base, KEIYOUSHI_SOURCE_BIN_URL);
    assert_eq!(s.icon_base, KEIYOUSHI_SOURCE_ICON_URL);
    assert_eq!(INDEX_FILE_PATH, "index.json");
}

#[test]
fn a_run_begins_by_asking_for_the_manifest() {
    let (run, action) = Run::start(Settings::keiyoushi());
    assert_eq!(action, Action::FetchManifest { url: KEIYOUSHI_SOURCE_URL.to_string() });
    assert_eq!(run.stage, Stage::Fetching);
    assert!(!run.is_over());
    assert_eq!(run.error(), None);
    assert!(run.packages.is_empty() && run.binaries.is_empty() && run.icons.is_empty());
}

#[test]
fn a_manifest_url_that_is_none_ends_the_run_at_once() {
    let mut settings = Settings::keiyoushi();
    settings.manifest_url = "index.json".to_string();
    let (run, action) = Run::start(settings);
    assert_eq!(action, Action::Finish);
    assert!(run.is_over());
    assert_eq!(
        run.error(),
        Some(&MirrorError::InvalidUrl {
            url: "index.json".to_string(),
            reason: "relative URL without a base".to_string(),
        })
    );
}

#[test]
fn a_whole_run_fetches_downloads_and_writes() {
    let (mut run, _) = Run::start(Settings::keiyoushi());
    assert_eq!(run.step(Event::ManifestStatus { status: 200 }), Action::ReadBody);
    assert_eq!(run.stage, Stage::Reading);
    assert_eq!(
        run.step(Event::ManifestBody { text: BODY.to_string() }),
        Action::Download { kind: AssetKind::Binary, urls: binaries() }
    );
    assert_eq!(run.stage, Stage::Binaries);
    assert_eq!(run.packages.len(), 2);
    assert_eq!(run.packages[0].sources.len(), 2);
    assert_eq!(run.binaries, binaries());
    assert_eq!(run.icons, icons());
    assert_eq!(
        run.step(Event::BatchSettled { outcomes: vec![Outcome::Succeeded, Outcome::Succeeded] }),
        Action::Download { kind: AssetKind::Icon, urls: icons() }
    );
    assert_eq!(run.stage, Stage::Icons);
    assert_eq!(
        run.step(Event::BatchSettled { outcomes: vec![Outcome::Succeeded, Outcome::Succeeded] }),
        Action::WriteManifest { text: WRITTEN.to_string() }
    );
    assert_eq!(run.stage, Stage::Writing);
    assert!(!run.is_over());
    assert_eq!(run.step(Event::ManifestWritten), Action::Finish);
    assert_eq!(run.stage, Stage::Done);
    assert!(run.is_over());
    assert_eq!(run.error(), None);
}

#[test]
fn a_bad_manifest_status_is_fatal_and_nothing_is_written() {
    for status in [199u16, 301, 403, 404, 500] {
        let (mut run, _) = Run::start(Settings::keiyoushi());
        assert_eq!(run.step(Event::ManifestStatus { status }), Action::Finish);
        assert_eq!(run.error(), Some(&MirrorError::RemoteManifest { status }));
        let later = vec![
            Event::ManifestBody { text: BODY.to_string() },
            Event::ManifestStatus { status: 200 },
            Event::BatchSettled { outcomes: vec![] },
            Event::BatchSettled { outcomes: vec![] },
            Event::ManifestWritten,
        ];
        for event in later {
            assert_eq!(run.step(event), Action::Finish);
            assert_eq!(run.stage, Stage::Failed(MirrorError::RemoteManifest { status }));
        }
        assert!(run.packages.is_empty());
    }
}

#[test]
fn failed_downloads_stop_neither_the_next_batch_nor_the_write() {
    let mut run = downloading();
    let first = vec![failure(&binaries()[0], 404), Outcome::Succeeded];
    assert_eq!(
        run.step(Event::BatchSettled { outcomes: first.clone() }),
        Action::Download { kind: AssetKind::Icon, urls: icons() }
    );
    let second = vec![
        failure(&icons()[0], 500),
        Outcome::Failed(MirrorError::AssetDownload {
            url: icons()[1].clone(),
            failure: DownloadFailure::Transport("timed out".to_string()),
        }),
    ];
    assert_eq!(
        run.step(Event::BatchSettled { outcomes: second.clone() }),
        Action::WriteManifest { text: WRITTEN.to_string() }
    );
    assert_eq!(run.binary_outcomes, first);
    assert_eq!(run.icon_outcomes, second);
    assert_eq!(run.step(Event::ManifestWritten), Action::Finish);
    assert_eq!(run.stage, Stage::Done);
}

#[test]
fn a_manifest_with_nothing_wanted_is_still_written() {
    let mut run = reading();
    let body = r#"[{"name":"Comick","pkg":"c","apk":"c.apk","lang":"en","code":1,"version":"1",
                    "nsfw":0,"sources":[{"name":"MangaDex","lang":"en","id":"1","baseUrl":"u"}]}]"#;
    assert_eq!(
        run.step(Event::ManifestBody { text: body.to_string() }),
        Action::Download { kind: AssetKind::Binary, urls: vec![] }
    );
    assert_eq!(
        run.step(Event::BatchSettled { outcomes: vec![] }),
        Action::Download { kind: AssetKind::Icon, urls: vec![] }
    );
    assert_eq!(
        run.step(Event::BatchSettled { outcomes: vec![] }),
        Action::WriteManifest { text: "[]".to_string() }
    );
    assert_eq!(run.step(Event::ManifestWritten), Action::Finish);
    assert_eq!(run.stage, Stage::Done);
}

#[test]
fn a_failed_request_for_the_manifest_is_fatal() {
    let (mut run, _) = Run::start(Settings::keiyoushi());
    assert_eq!(
        run.step(Event::TransportFailed { reason: "dns".to_string() }),
        Action::Finish
    );
    assert_eq!(run.error(), Some(&MirrorError::ManifestTransport { reason: "dns".to_string() }));
    let mut run = reading();
    assert_eq!(
        run.step(Event::TransportFailed { reason: "reset".to_string() }),
        Action::Finish
    );
    assert_eq!(run.error(), Some(&MirrorError::ManifestTransport { reason: "reset".to_string() }));
}

#[test]
fn a_body_that_is_no_manifest_is_fatal() {
    let mut run = reading();
    assert_eq!(run.step(Event::ManifestBody { text: "<html>".to_string() }), Action::Finish);
    assert_eq!(
        run.error(),
        Some(&MirrorError::ManifestSyntax {
            reason: "expected value at line 1 column 1".to_string()
        })
    );
    let mut run = reading();
    assert_eq!(
        run.step(Event::ManifestBody { text: "[{\"name\":\"MangaDex\"}]".to_string() }),
        Action::Finish
    );
    assert_eq!(
        run.error(),
        Some(&MirrorError::ManifestDecode {
            cause: DecodeError::Package { index: 0, flaw: Flaw::Missing(Member::Pkg) }
        })
    );
    assert_eq!(run.step(Event::BatchSettled { outcomes: vec![] }), Action::Finish);
}

#[test]
fn a_base_url_that_is_none_is_fatal_once_the_manifest_is_read() {
    let mut settings = Settings::keiyoushi();
    settings.binary_base = "apk/".to_string();
    settings.icon_base = "icon/".to_string();
    let (mut run, action) = Run::start(settings);
    assert_eq!(action, Action::FetchManifest { url: KEIYOUSHI_SOURCE_URL.to_string() });
    run.step(Event::ManifestStatus { status: 200 });
    assert_eq!(run.step(Event::ManifestBody { text: BODY.to_string() }), Action::Finish);
    assert_eq!(
        run.error(),
        Some(&MirrorError::InvalidUrl {
            url: "apk/".to_string(),
            reason: "relative URL without a base".to_string(),
        })
    );

    let mut settings = Settings::keiyoushi();
    settings.icon_base = "icon/".to_string();
    assert_eq!(
        plan(&settings, BODY),
        Err(MirrorError::InvalidUrl {
            url: "icon/".to_string(),
            reason: "relative URL without a base".to_string(),
        })
    );
    assert_eq!(
        plan(&settings, "{"),
        Err(MirrorError::ManifestSyntax {
            reason: "EOF while parsing an object at line 1 column 1".to_string()
        })
    );
}

#[test]
fn a_package_without_a_url_is_fatal() {
    let body = r#"[{"name":"MangaDex","pkg":"p","apk":"http://[:::1]/x.apk","lang":"en","code":1,
                    "version":"1","nsfw":0,"sources":[]}]"#;
    let mut run = reading();
    assert_eq!(run.step(Event::ManifestBody { text: body.to_string() }), Action::Finish);
    assert_eq!(
        run.error(),
        Some(&MirrorError::MalformedUrl {
            base: KEIYOUSHI_SOURCE_BIN_URL.to_string(),
            reference: "http://[:::1]/x.apk".to_string(),
            reason: "invalid IPv6 address".to_string(),
        })
    );
}

#[test]
fn a_plan_has_one_binary_and_one_icon_for_each_package() {
    let made = plan(&Settings::keiyoushi(), BODY).unwrap();
    assert_eq!(made.packages.len(), 2);
    assert_eq!(made.binaries, binaries());
    assert_eq!(made.icons, icons());
    assert_eq!(made.packages[1].name, "MangaDex Legacy");
    let empty = plan(&Settings::keiyoushi(), "[]").unwrap();
    assert_eq!(empty, Plan { packages: vec![], binaries: vec![], icons: vec![] });
}

#[test]
fn urls_are_derived_in_the_packages_order() {
    let package = |pkg: &str, apk: &str| TachiyomiPkg {
        name: "n".to_string(),
        pkg: pkg.to_string(),
        apk: apk.to_string(),
        lang: "en".to_string(),
        code: 0,
        version: "v".to_string(),
        nsfw: 0,
        sources: vec![Source::default()],
    };
    let packages = vec![package("b", "b.apk"), package("a", "a.apk")];
    assert_eq!(
        derive_urls(AssetKind::Binary, "https://example.net/apk/", &packages),
        Ok(vec![
            "https://example.net/apk/b.apk".to_string(),
            "https://example.net/apk/a.apk".to_string()
        ])
    );
    assert_eq!(
        derive_urls(AssetKind::Icon, "https://example.net/icon/", &packages),
        Ok(vec![
            "https://example.net/icon/b.png".to_string(),
            "https://example.net/icon/a.png".to_string()
        ])
    );
    assert_eq!(derive_urls(AssetKind::Icon, "nonsense", &vec![]), Ok(vec![]));
    assert!(derive_urls(AssetKind::Icon, "nonsense", &packages).is_err());
}

#[test]
fn a_manifest_that_cannot_be_written_is_fatal() {
    let mut run = downloading();
    run.step(Event::BatchSettled { outcomes: vec![] });
    run.step(Event::BatchSettled { outcomes: vec![] });
    assert_eq!(
        run.step(Event::WriteFailed { reason: "read-only file system".to_string() }),
        Action::Finish
    );
    assert_eq!(
        run.error(),
        Some(&MirrorError::ManifestWrite { reason: "read-only file system".to_string() })
    );
    assert!(run.is_over());
}

#[test]
fn an_event_out_of_turn_ends_the_run() {
    let (mut run, _) = Run::start(Settings::keiyoushi());
    assert_eq!(run.step(Event::ManifestBody { text: "[]".to_string() }), Action::Finish);
    assert_eq!(run.error(), Some(&MirrorError::OutOfTurn));

    let mut run = downloading();
    assert_eq!(run.step(Event::ManifestWritten), Action::Finish);
    assert_eq!(run.error(), Some(&MirrorError::OutOfTurn));

    let mut run = reading();
    assert_eq!(run.step(Event::ManifestStatus { status: 200 }), Action::Finish);
    assert_eq!(run.error(), Some(&MirrorError::OutOfTurn));
}

#[test]
fn a_finished_run_stays_finished() {
    let mut run = downloading();
    run.step(Event::BatchSettled { outcomes: vec![] });
    run.step(Event::BatchSettled { outcomes: vec![] });
    run.step(Event::ManifestWritten);
    let done = run.clone();
    assert_eq!(run.step(Event::ManifestStatus { status: 500 }), Action::Finish);
    assert_eq!(run.step(Event::WriteFailed { reason: "late".to_string() }), Action::Finish);
    assert_eq!(run, done);
}

#[test]
fn other_settings_give_other_runs() {
    let settings = Settings {
        manifest_url: "HTTP://Example.org/index.json".to_string(),
        binary_base: "http://example.org/files/apk/".to_string(),
        icon_base: "http://example.org/files/icon/".to_string(),
        lists: AllowLists { names: vec!["Comick".to_string()], langs: vec!["en".to_string()] },
    };
    let (mut run, action) = Run::start(settings);
    assert_eq!(action, Action::FetchManifest { url: "http://example.org/index.json".to_string() });
    run.step(Event::ManifestStatus { status: 299 });
    assert_eq!(
        run.step(Event::ManifestBody { text: BODY.to_string() }),
        Action::Download {
            kind: AssetKind::Binary,
            urls: vec!["http://example.org/files/apk/tachiyomi-all.comick-v1.4.1.apk".to_string()]
        }
    );
    assert_eq!(
        run.icons,
        vec!["http://example.org/files/icon/eu.kanade.tachiyomi.extension.all.comick.png".to_string()]
    );
    assert_eq!(run.packages[0].sources.len(), 1);
}
