//! Where assets are fetched from, and what they are called. URLs are kept as
//! text; the `url` crate parses and resolves them and tells their paths.

use crate::error::{MirrorError, MirrorErrorView};
use crate::manifest::{PackageView, TachiyomiPkg};
use crate::text::characters;
use crate::views::{result_view, some_view};
use vstd::prelude::*;
use vstd::string::{StrSliceExecFns, StringExecFns};

verus! {

/// What `Url::parse` makes of a text: the URL's serialization, or the parse
/// error's message.
pub uninterp spec fn url_parse(text: Seq<char>) -> Result<Seq<char>, Seq<char>>;

/// What `Url::join` makes of a reference against the URL that a base text
/// parses to: the resolved URL's serialization, or the message of the error
/// that parsing the base or resolving the reference gave.
pub uninterp spec fn url_join(base: Seq<char>, reference: Seq<char>) -> Result<
    Seq<char>,
    Seq<char>,
>;

/// What `Url::path` gives for the URL that a text parses to: its path, or
/// nothing where the text is no URL.
pub uninterp spec fn url_path(url: Seq<char>) -> Option<Seq<char>>;

/// Calls `url::Url::parse`. Trusted: the result is what [`url_parse`] names
/// for the text.
#[verifier::external_body]
fn parse_url(text: &str) -> (parsed: Result<String, String>)
    ensures
        result_view(parsed) == url_parse(text@),
{
    match url::Url::parse(text) {
        Ok(url) => Ok(url.into()),
        Err(e) => Err(e.to_string()),
    }
}

/// Calls `url::Url::join` on the URL that `base` parses to. Trusted: the
/// result is what [`url_join`] names for the two texts.
#[verifier::external_body]
fn join_url(base: &str, reference: &str) -> (joined: Result<String, String>)
    ensures
        result_view(joined) == url_join(base@, reference@),
{
    match url::Url::parse(base).and_then(|b| b.join(reference)) {
        Ok(url) => Ok(url.into()),
        Err(e) => Err(e.to_string()),
    }
}

/// Calls `url::Url::path` on the URL that `url` parses to. Trusted: the
/// result is what [`url_path`] names for the text.
#[verifier::external_body]
fn path_of(url: &str) -> (path: Option<String>)
    ensures
        some_view(path) == url_path(url@),
{
    match url::Url::parse(url) {
        Ok(parsed) => Some(parsed.path().to_owned()),
        Err(_) => None,
    }
}

/// A configured URL, checked: its serialization, or why it is none.
pub open spec fn checked_url(text: Seq<char>) -> Result<Seq<char>, MirrorErrorView> {
    match url_parse(text) {
        Ok(url) => Ok(url),
        Err(reason) => Err(MirrorErrorView::InvalidUrl { url: text, reason }),
    }
}

/// A reference resolved against a base: the URL, or why there is none.
pub open spec fn resolved_url(base: Seq<char>, reference: Seq<char>) -> Result<
    Seq<char>,
    MirrorErrorView,
> {
    match url_join(base, reference) {
        Ok(url) => Ok(url),
        Err(reason) => Err(MirrorErrorView::MalformedUrl { base, reference, reason }),
    }
}

/// What a package's icon is called at the icon endpoint.
pub open spec fn icon_reference(package: PackageView) -> Seq<char> {
    package.pkg + ".png"@
}

/// Where a package's binary is fetched from: its artifact file name resolved
/// against the base for binaries.
pub open spec fn binary_url(base: Seq<char>, package: PackageView) -> Result<
    Seq<char>,
    MirrorErrorView,
> {
    resolved_url(base, package.apk)
}

/// Where a package's icon is fetched from: its identifier with `.png`
/// resolved against the base for icons.
pub open spec fn icon_url(base: Seq<char>, package: PackageView) -> Result<
    Seq<char>,
    MirrorErrorView,
> {
    resolved_url(base, icon_reference(package))
}

/// The position of the last slash of a text, and -1 for a text without one.
pub open spec fn last_slash(text: Seq<char>) -> int
    decreases text.len(),
{
    if text.len() == 0 {
        -1
    } else if text.last() == '/' {
        text.len() - 1
    } else {
        last_slash(text.drop_last())
    }
}

/// The last segment of a path. A path that begins with a slash is a list of
/// segments, each led by a slash; its last segment is what follows its last
/// slash, and may be empty. Any other path, that of a URL that cannot be a
/// base, has no segments.
pub open spec fn last_segment_of(path: Seq<char>) -> Option<Seq<char>> {
    if path.len() > 0 && path[0] == '/' {
        Some(path.subrange(last_slash(path) + 1, path.len() as int))
    } else {
        None
    }
}

/// The file name that a path gives, if there is a path.
pub open spec fn file_name_in(path: Option<Seq<char>>) -> Option<Seq<char>> {
    match path {
        Some(path) => last_segment_of(path),
        None => None,
    }
}

/// The file name that a download URL gives: the last segment of its path.
pub open spec fn file_name_of(url: Seq<char>) -> Option<Seq<char>> {
    file_name_in(url_path(url))
}

/// The configured URL `text`, given what parsing it came to.
pub fn configured_url(text: &str, parsed: Result<String, String>) -> (url: Result<
    String,
    MirrorError,
>)
    ensures
        result_view(url) == (match result_view(parsed) {
            Ok(u) => Ok(u),
            Err(reason) => Err(MirrorErrorView::InvalidUrl { url: text@, reason }),
        }),
{
    match parsed {
        Ok(url) => Ok(url),
        Err(reason) => Err(MirrorError::InvalidUrl { url: text.to_owned(), reason }),
    }
}

/// Checks a configured URL.
pub fn check_url(text: &str) -> (url: Result<String, MirrorError>)
    ensures
        result_view(url) == checked_url(text@),
{
    configured_url(text, parse_url(text))
}

/// The URL of `reference` against `base`, given what joining them came to.
pub fn derived_url(base: &str, reference: &str, joined: Result<String, String>) -> (url: Result<
    String,
    MirrorError,
>)
    ensures
        result_view(url) == (match result_view(joined) {
            Ok(u) => Ok(u),
            Err(reason) => Err(
                MirrorErrorView::MalformedUrl { base: base@, reference: reference@, reason },
            ),
        }),
{
    match joined {
        Ok(url) => Ok(url),
        Err(reason) => Err(
            MirrorError::MalformedUrl {
                base: base.to_owned(),
                reference: reference.to_owned(),
                reason,
            },
        ),
    }
}

/// Resolves a reference against a base URL, as a browser resolves a link: the
/// reference takes the place of the base's last path segment.
pub fn resolve(base: &str, reference: &str) -> (url: Result<String, MirrorError>)
    ensures
        result_view(url) == resolved_url(base@, reference@),
{
    derived_url(base, reference, join_url(base, reference))
}

/// Derives the URL of a package's binary.
pub fn derive_binary_url(base: &str, package: &TachiyomiPkg) -> (url: Result<String, MirrorError>)
    ensures
        result_view(url) == binary_url(base@, package@),
{
    resolve(base, package.apk.as_str())
}

/// Derives the URL of a package's icon.
pub fn derive_icon_url(base: &str, package: &TachiyomiPkg) -> (url: Result<String, MirrorError>)
    ensures
        result_view(url) == icon_url(base@, package@),
{
    let mut reference = package.pkg.clone();
    reference.append(".png");
    resolve(base, reference.as_str())
}

/// The last slash of a text is a slash, nothing after it is one, and a text
/// without a slash has none.
pub proof fn lemma_last_slash(text: Seq<char>)
    ensures
        -1 <= last_slash(text) < text.len(),
        last_slash(text) >= 0 ==> text[last_slash(text)] == '/',
        forall|i: int| last_slash(text) < i < text.len() ==> text[i] != '/',
    decreases text.len(),
{
    if text.len() > 0 && text.last() != '/' {
        let before = text.drop_last();
        lemma_last_slash(before);
        assert forall|i: int| last_slash(text) < i < text.len() implies text[i] != '/' by {
            if i < before.len() {
                assert(before[i] == text[i]);
            }
        }
    }
}

/// The last segment of a path: what follows its last slash.
pub fn last_segment(path: &str) -> (name: Option<String>)
    ensures
        some_view(name) == last_segment_of(path@),
{
    let chars = characters(path);
    if chars.len() == 0 || chars[0] != '/' {
        return None;
    }
    let mut start: usize = chars.len();
    assert(path@.take(start as int) =~= path@);
    while start > 0 && chars[start - 1] != '/'
        invariant
            start <= chars.len(),
            chars@ == path@,
            forall|i: int| start <= i < chars.len() ==> chars@[i] != '/',
            last_slash(path@) == last_slash(path@.take(start as int)),
        decreases start,
    {
        assert(path@.take(start as int).drop_last() =~= path@.take(start - 1));
        start -= 1;
    }
    Some(path.substring_char(start, chars.len()).to_owned())
}

/// The file name that a path gives, if there is a path.
pub fn file_name_from(path: Option<String>) -> (name: Option<String>)
    ensures
        some_view(name) == file_name_in(some_view(path)),
{
    match path {
        Some(path) => last_segment(path.as_str()),
        None => None,
    }
}

/// The file name under which the asset at `url` is stored: the last segment
/// of the URL's path, and nothing for a URL without path segments.
pub fn file_name(url: &str) -> (name: Option<String>)
    ensures
        some_view(name) == file_name_of(url@),
{
    file_name_from(path_of(url))
}

/// A file name holds no slash.
pub proof fn lemma_file_name_has_no_slash(url: Seq<char>)
    ensures
        file_name_of(url) matches Some(name) ==> !name.contains('/'),
{
    if let Some(path) = url_path(url) {
        lemma_last_slash(path);
    }
}

/// Derivation is deterministic: the same base and the same package give the
/// same binary URL and the same icon URL, however often they are derived. Of
/// the package only its artifact name counts for the binary URL, and only its
/// identifier for the icon URL.
pub proof fn lemma_derivation_is_deterministic(
    base: Seq<char>,
    package: PackageView,
    again: PackageView,
)
    ensures
        package == again ==> binary_url(base, package) == binary_url(base, again) && icon_url(
            base,
            package,
        ) == icon_url(base, again),
        package.apk == again.apk ==> binary_url(base, package) == binary_url(base, again),
        package.pkg == again.pkg ==> icon_url(base, package) == icon_url(base, again),
{
}

} // verus!
