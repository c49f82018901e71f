use keiyoushi_clone::error::MirrorError;
use keiyoushi_clone::locate::{
    check_url, configured_url, derive_binary_url, derive_icon_url, derived_url, file_name,
    file_name_from, last_segment, resolve,
};
use keiyoushi_clone::manifest::TachiyomiPkg;

const BIN: &str = "https://raw.githubusercontent.com/keiyoushi/extensions/refs/heads/repo/apk/";
const ICON: &str = "https://raw.githubusercontent.com/keiyoushi/extensions/refs/heads/repo/icon/";

fn package(pkg: &str, apk: &str) -> TachiyomiPkg {
    TachiyomiPkg {
        name: "MangaDex EN".to_string(),
        pkg: pkg.to_string(),
        apk: apk.to_string(),
        lang: "en".to_string(),
        code: 1,
        version: "1".to_string(),
        nsfw: 0,
        sources: vec![],
    }
}

#[test]
fn binary_url_is_the_base_with_the_artifact_name() {
    let p = package("eu.kanade.tachiyomi.extension.en.mangadex", "tachiyomi-en.mangadex-v1.4.7.apk");
    assert_eq!(
        derive_binary_url(BIN, &p),
        Ok("https://raw.githubusercontent.com/keiyoushi/extensions/refs/heads/repo/apk/tachiyomi-en.mangadex-v1.4.7.apk".to_string())
    );
}

#[test]
fn icon_url_is_the_base_with_the_identifier_and_png() {
    let p = package("eu.kanade.tachiyomi.extension.en.mangadex", "x.apk");
    assert_eq!(
        derive_icon_url(ICON, &p),
        Ok("https://raw.githubusercontent.com/keiyoushi/extensions/refs/heads/repo/icon/eu.kanade.tachiyomi.extension.en.mangadex.png".to_string())
    );
}

#[test]
fn the_reference_replaces_the_last_segment_of_the_base() {
    assert_eq!(
        resolve("https://example.net/a/b.html", "c.png"),
        Ok("https://example.net/a/c.png".to_string())
    );
    assert_eq!(
        resolve("https://example.net/a/b/", "c.png"),
        Ok("https://example.net/a/b/c.png".to_string())
    );
    assert_eq!(
        resolve("https://example.net/a/b", "/v1/meta"),
        Ok("https://example.net/v1/meta".to_string())
    );
    assert_eq!(
        resolve("https://alice.com/a", "http://eve.com/b"),
        Ok("http://eve.com/b".to_string())
    );
}

#[test]
fn derivation_gives_the_same_url_every_time() {
    let p = package("a.b.c", "a.apk");
    let first = (derive_binary_url(BIN, &p), derive_icon_url(ICON, &p));
    let second = (derive_binary_url(BIN, &p.clone()), derive_icon_url(ICON, &p.clone()));
    assert_eq!(first, second);
    assert!(first.0.is_ok() && first.1.is_ok());
}

#[test]
fn a_reference_is_percent_encoded_where_the_url_needs_it() {
    let p = package("a b", "việt nam.apk");
    assert_eq!(
        derive_binary_url("https://example.com/apk/", &p),
        Ok("https://example.com/apk/vi%E1%BB%87t%20nam.apk".to_string())
    );
    assert_eq!(
        derive_icon_url("https://example.com/icon/", &p),
        Ok("https://example.com/icon/a%20b.png".to_string())
    );
}

#[test]
fn a_malformed_reference_is_an_error_of_that_package() {
    let p = package("x", "http://[:::1]/x.apk");
    assert_eq!(
        derive_binary_url(BIN, &p),
        Err(MirrorError::MalformedUrl {
            base: BIN.to_string(),
            reference: "http://[:::1]/x.apk".to_string(),
            reason: "invalid IPv6 address".to_string(),
        })
    );
}

#[test]
fn a_base_that_cannot_be_a_base_resolves_nothing() {
    assert_eq!(
        resolve("data:text/plain,hello", "a.apk"),
        Err(MirrorError::MalformedUrl {
            base: "data:text/plain,hello".to_string(),
            reference: "a.apk".to_string(),
            reason: "relative URL with a cannot-be-a-base base".to_string(),
        })
    );
    assert_eq!(
        resolve("not a url", "a.apk"),
        Err(MirrorError::MalformedUrl {
            base: "not a url".to_string(),
            reference: "a.apk".to_string(),
            reason: "relative URL without a base".to_string(),
        })
    );
}

#[test]
fn a_configured_url_is_checked_and_normalized() {
    assert_eq!(check_url("HTTPS://Example.NET"), Ok("https://example.net/".to_string()));
    assert_eq!(check_url(BIN), Ok(BIN.to_string()));
    assert_eq!(
        check_url("repo/index.json"),
        Err(MirrorError::InvalidUrl {
            url: "repo/index.json".to_string(),
            reason: "relative URL without a base".to_string(),
        })
    );
    assert_eq!(
        check_url("https://"),
        Err(MirrorError::InvalidUrl { url: "https://".to_string(), reason: "empty host".to_string() })
    );
}

#[test]
fn what_a_parse_or_a_join_gave_is_told_as_it_is() {
    assert_eq!(configured_url("a", Ok("b".to_string())), Ok("b".to_string()));
    assert_eq!(
        configured_url("a", Err("why".to_string())),
        Err(MirrorError::InvalidUrl { url: "a".to_string(), reason: "why".to_string() })
    );
    assert_eq!(derived_url("a", "b", Ok("c".to_string())), Ok("c".to_string()));
    assert_eq!(
        derived_url("a", "b", Err("why".to_string())),
        Err(MirrorError::MalformedUrl {
            base: "a".to_string(),
            reference: "b".to_string(),
            reason: "why".to_string(),
        })
    );
}

#[test]
fn the_file_name_is_the_last_path_segment() {
    assert_eq!(
        file_name("https://example.net/repo/apk/en.mangadex.apk"),
        Some("en.mangadex.apk".to_string())
    );
    assert_eq!(file_name("https://example.net/a/b/c.png?x=1#top"), Some("c.png".to_string()));
    assert_eq!(
        file_name("https://example.com/countries/việt nam"),
        Some("vi%E1%BB%87t%20nam".to_string())
    );
}

#[test]
fn a_url_that_ends_in_a_slash_has_an_empty_file_name() {
    assert_eq!(file_name("https://example.net/repo/apk/"), Some(String::new()));
    assert_eq!(file_name("https://example.net"), Some(String::new()));
}

#[test]
fn a_url_without_path_segments_has_no_file_name() {
    assert_eq!(file_name("data:text/plain,HelloWorld"), None);
    assert_eq!(file_name("mailto:someone@example.net"), None);
    assert_eq!(file_name("no url at all"), None);
}

#[test]
fn the_last_segment_is_what_follows_the_last_slash() {
    assert_eq!(last_segment("/repo/apk/en.mangadex.apk"), Some("en.mangadex.apk".to_string()));
    assert_eq!(last_segment("/a"), Some("a".to_string()));
    assert_eq!(last_segment("/"), Some(String::new()));
    assert_eq!(last_segment("/a/b/"), Some(String::new()));
    assert_eq!(last_segment("//"), Some(String::new()));
    assert_eq!(last_segment("/漫画/ポ.png"), Some("ポ.png".to_string()));
}

#[test]
fn a_path_without_a_leading_slash_has_no_segments() {
    assert_eq!(last_segment(""), None);
    assert_eq!(last_segment("text/plain,HelloWorld"), None);
    assert_eq!(last_segment("someone@example.net"), None);
    assert_eq!(last_segment("a/"), None);
}

#[test]
fn a_file_name_comes_from_a_path_or_not_at_all() {
    assert_eq!(file_name_from(None), None);
    assert_eq!(file_name_from(Some("/x/y.apk".to_string())), Some("y.apk".to_string()));
    assert_eq!(file_name_from(Some("opaque".to_string())), None);
}

#[test]
fn the_last_segment_agrees_with_the_url_crate() {
    let urls = [
        "https://example.com/foo/bar",
        "https://example.com",
        "https://example.com/",
        "https://example.com/a/b/../c/./d.png",
        "https://example.com/countries/việt nam",
        "https://example.com/a%2Fb/c",
        "https://example.com/a/b?x=/y/z#/frag/ment",
        "file:///tmp/x.apk",
        "data:text/plain,HelloWorld",
        "mailto:a@b.c",
        "ftp://host/dir/",
    ];
    for text in urls {
        let parsed = url::Url::parse(text).unwrap();
        let expected = parsed.path_segments().and_then(|s| s.last()).map(|s| s.to_string());
        assert_eq!(file_name(text), expected, "{}", text);
    }
}
