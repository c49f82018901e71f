//! What can go wrong in a mirror run, and the outcome of one download.

use vstd::prelude::*;

verus! {

/// A member of a package or source object in the manifest.
#[derive(Debug, Clone, Copy, PartialEq, Eq, Structural)]
pub enum Member {
    Name,
    Pkg,
    Apk,
    Lang,
    Code,
    Version,
    Nsfw,
    Sources,
    Id,
    BaseUrl,
}

/// What is wrong with one object of the manifest.
#[derive(Debug, Clone, Copy, PartialEq, Eq, Structural)]
pub enum Flaw {
    /// The value is not an object.
    NotAnObject,
    /// A required member is absent.
    Missing(Member),
    /// A member is present with a value of the wrong type.
    Mistyped(Member),
}

/// Why a JSON document is not a manifest: its first flaw, taking the packages
/// in their order, of each package its own members before its sources, and the
/// sources in their order.
#[derive(Debug, Clone, Copy, PartialEq, Eq)]
pub enum DecodeError {
    /// The document is not an array.
    NotAnArray,
    /// The package at `index` is flawed.
    Package { index: usize, flaw: Flaw },
    /// Source `index` of package `package` is flawed.
    Source { package: usize, index: usize, flaw: Flaw },
}

/// Why one asset was not downloaded.
#[derive(Debug, Clone, PartialEq, Eq)]
pub enum DownloadFailure {
    /// The server answered with a status outside 200..=299.
    Status(u16),
    /// The request or the body stream failed.
    Transport(String),
    /// The destination file could not be created, written or flushed.
    Storage(String),
    /// The caller reported something the download was not waiting for.
    OutOfTurn,
}

/// An error of a mirror run or of one of its downloads.
#[derive(Debug, Clone, PartialEq, Eq)]
pub enum MirrorError {
    /// A configured URL is not a URL.
    InvalidUrl { url: String, reason: String },
    /// A package's reference cannot be resolved against its base URL.
    MalformedUrl { base: String, reference: String, reason: String },
    /// The manifest request failed before a complete response arrived.
    ManifestTransport { reason: String },
    /// The manifest endpoint answered with a status outside 200..=299.
    RemoteManifest { status: u16 },
    /// The manifest body is not JSON.
    ManifestSyntax { reason: String },
    /// The manifest body is JSON of the wrong shape.
    ManifestDecode { cause: DecodeError },
    /// A download URL has no path segments to take a file name from.
    MissingFilename { url: String },
    /// One asset could not be downloaded.
    AssetDownload { url: String, failure: DownloadFailure },
    /// The filtered manifest could not be serialized or written.
    ManifestWrite { reason: String },
    /// The caller reported something the run was not waiting for.
    OutOfTurn,
}

/// How one download ended.
#[derive(Debug, Clone, PartialEq, Eq)]
pub enum Outcome {
    Succeeded,
    Failed(MirrorError),
}

/// A [`DownloadFailure`] as a mathematical value.
pub enum DownloadFailureView {
    Status(u16),
    Transport(Seq<char>),
    Storage(Seq<char>),
    OutOfTurn,
}

/// A [`MirrorError`] as a mathematical value.
pub enum MirrorErrorView {
    InvalidUrl { url: Seq<char>, reason: Seq<char> },
    MalformedUrl { base: Seq<char>, reference: Seq<char>, reason: Seq<char> },
    ManifestTransport { reason: Seq<char> },
    RemoteManifest { status: u16 },
    ManifestSyntax { reason: Seq<char> },
    ManifestDecode { cause: DecodeError },
    MissingFilename { url: Seq<char> },
    AssetDownload { url: Seq<char>, failure: DownloadFailureView },
    ManifestWrite { reason: Seq<char> },
    OutOfTurn,
}

/// An [`Outcome`] as a mathematical value.
pub enum OutcomeView {
    Succeeded,
    Failed(MirrorErrorView),
}

impl View for DownloadFailure {
    type V = DownloadFailureView;

    open spec fn view(&self) -> DownloadFailureView {
        match self {
            DownloadFailure::Status(status) => DownloadFailureView::Status(*status),
            DownloadFailure::Transport(reason) => DownloadFailureView::Transport(reason@),
            DownloadFailure::Storage(reason) => DownloadFailureView::Storage(reason@),
            DownloadFailure::OutOfTurn => DownloadFailureView::OutOfTurn,
        }
    }
}

impl View for MirrorError {
    type V = MirrorErrorView;

    open spec fn view(&self) -> MirrorErrorView {
        match self {
            MirrorError::InvalidUrl { url, reason } => MirrorErrorView::InvalidUrl {
                url: url@,
                reason: reason@,
            },
            MirrorError::MalformedUrl { base, reference, reason } => MirrorErrorView::MalformedUrl {
                base: base@,
                reference: reference@,
                reason: reason@,
            },
            MirrorError::ManifestTransport { reason } => MirrorErrorView::ManifestTransport {
                reason: reason@,
            },
            MirrorError::RemoteManifest { status } => MirrorErrorView::RemoteManifest {
                status: *status,
            },
            MirrorError::ManifestSyntax { reason } => MirrorErrorView::ManifestSyntax {
                reason: reason@,
            },
            MirrorError::ManifestDecode { cause } => MirrorErrorView::ManifestDecode {
                cause: *cause,
            },
            MirrorError::MissingFilename { url } => MirrorErrorView::MissingFilename { url: url@ },
            MirrorError::AssetDownload { url, failure } => MirrorErrorView::AssetDownload {
                url: url@,
                failure: failure@,
            },
            MirrorError::ManifestWrite { reason } => MirrorErrorView::ManifestWrite {
                reason: reason@,
            },
            MirrorError::OutOfTurn => MirrorErrorView::OutOfTurn,
        }
    }
}

impl DeepView for MirrorError {
    type V = MirrorErrorView;

    open spec fn deep_view(&self) -> MirrorErrorView {
        self.view()
    }
}

impl View for Outcome {
    type V = OutcomeView;

    open spec fn view(&self) -> OutcomeView {
        match self {
            Outcome::Succeeded => OutcomeView::Succeeded,
            Outcome::Failed(error) => OutcomeView::Failed(error@),
        }
    }
}

impl DeepView for Outcome {
    type V = OutcomeView;

    open spec fn deep_view(&self) -> OutcomeView {
        self.view()
    }
}

} // verus!
