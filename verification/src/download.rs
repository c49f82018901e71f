//! One asset download, decided step by step.
//!
//! A [`Download`] never touches the network or a file. It names the next
//! thing to do, the caller does it and records what happened, and so on until
//! the download has settled. One request is sent, the body is written chunk by
//! chunk as it arrives, and the file is flushed once the body has ended. A
//! download that fails after its file was created leaves that file as it is.

use crate::error::{
    DownloadFailure, DownloadFailureView, MirrorError, MirrorErrorView, Outcome, OutcomeView,
};
use crate::locate::{file_name, file_name_of, lemma_file_name_has_no_slash};
use crate::views::some_view;
use vstd::prelude::*;
use vstd::string::StringExecFns;

verus! {

/// Which of a package's two assets a download is for.
#[derive(Debug, Clone, Copy, PartialEq, Eq, Structural)]
pub enum AssetKind {
    Binary,
    Icon,
}

/// The directory that holds the assets of a kind.
pub open spec fn directory_of(kind: AssetKind) -> Seq<char> {
    match kind {
        AssetKind::Binary => "apk"@,
        AssetKind::Icon => "icon"@,
    }
}

/// Where an asset of a kind with a file name is stored: the directory of the
/// kind, a slash, and the file name.
pub open spec fn destination_of(kind: AssetKind, file_name: Seq<char>) -> Seq<char> {
    directory_of(kind) + "/"@ + file_name
}

/// Whether an HTTP status says that the request succeeded.
pub open spec fn success_status(status: u16) -> bool {
    200 <= status < 300
}

/// Whether an HTTP status says that the request succeeded.
pub fn is_success(status: u16) -> (ok: bool)
    ensures
        ok == success_status(status),
{
    200 <= status && status < 300
}

impl AssetKind {
    /// The directory that holds the assets of this kind.
    pub fn directory(&self) -> (name: &'static str)
        ensures
            name@ == directory_of(*self),
    {
        match self {
            AssetKind::Binary => "apk",
            AssetKind::Icon => "icon",
        }
    }
}

/// Where a download stands.
#[derive(Debug, Clone, PartialEq, Eq)]
pub enum Phase {
    /// The request is to be sent; no response has arrived.
    Requesting,
    /// The response was good; the destination file is to be created.
    Opening,
    /// The file stands; the next chunk of the body is awaited.
    Receiving,
    /// A chunk has arrived and is to be written.
    Writing,
    /// The body has ended; the file is to be flushed.
    Flushing,
    /// Nothing is left to do.
    Settled(Outcome),
}

/// A [`Phase`] as a mathematical value.
pub enum PhaseView {
    Requesting,
    Opening,
    Receiving,
    Writing,
    Flushing,
    Settled(OutcomeView),
}

impl View for Phase {
    type V = PhaseView;

    open spec fn view(&self) -> PhaseView {
        match self {
            Phase::Requesting => PhaseView::Requesting,
            Phase::Opening => PhaseView::Opening,
            Phase::Receiving => PhaseView::Receiving,
            Phase::Writing => PhaseView::Writing,
            Phase::Flushing => PhaseView::Flushing,
            Phase::Settled(outcome) => PhaseView::Settled(outcome@),
        }
    }
}

/// What the caller is to do next for a download.
#[derive(Debug, Clone, Copy, PartialEq, Eq, Structural)]
pub enum DownloadAction {
    /// Send one GET request for the URL.
    Request,
    /// Create the destination file, emptying it if it exists.
    CreateFile,
    /// Wait for the next chunk of the body.
    AwaitChunk,
    /// Write the chunk that arrived to the file.
    WriteChunk,
    /// Flush the file and close it.
    Flush,
    /// Stop: the download has settled.
    Finish,
}

/// What the caller reports back.
#[derive(Debug, Clone, PartialEq, Eq)]
pub enum DownloadEvent {
    /// The response arrived, with this status.
    Responded { status: u16 },
    /// The request or the body stream failed.
    TransportFailed { reason: String },
    /// The destination file stands, empty.
    FileCreated,
    /// A chunk of the body arrived.
    ChunkArrived,
    /// The body has ended.
    BodyEnded,
    /// The chunk at hand is written.
    ChunkWritten,
    /// The file is flushed.
    Flushed,
    /// Creating, writing or flushing the file failed.
    StorageFailed { reason: String },
}

/// A [`DownloadEvent`] as a mathematical value.
pub enum DownloadEventView {
    Responded { status: u16 },
    TransportFailed { reason: Seq<char> },
    FileCreated,
    ChunkArrived,
    BodyEnded,
    ChunkWritten,
    Flushed,
    StorageFailed { reason: Seq<char> },
}

impl View for DownloadEvent {
    type V = DownloadEventView;

    open spec fn view(&self) -> DownloadEventView {
        match self {
            DownloadEvent::Responded { status } => DownloadEventView::Responded { status: *status },
            DownloadEvent::TransportFailed { reason } => DownloadEventView::TransportFailed {
                reason: reason@,
            },
            DownloadEvent::FileCreated => DownloadEventView::FileCreated,
            DownloadEvent::ChunkArrived => DownloadEventView::ChunkArrived,
            DownloadEvent::BodyEnded => DownloadEventView::BodyEnded,
            DownloadEvent::ChunkWritten => DownloadEventView::ChunkWritten,
            DownloadEvent::Flushed => DownloadEventView::Flushed,
            DownloadEvent::StorageFailed { reason } => DownloadEventView::StorageFailed {
                reason: reason@,
            },
        }
    }
}

/// One asset download: what is fetched, where it goes, and how far it is.
#[derive(Debug, Clone, PartialEq, Eq)]
pub struct Download {
    /// The URL that is fetched.
    pub url: String,
    /// Which directory the asset goes to.
    pub kind: AssetKind,
    /// The name of the destination file in that directory.
    pub file_name: Option<String>,
    /// How far the download is.
    pub phase: Phase,
}

/// A [`Download`] as a mathematical value.
pub struct DownloadView {
    pub url: Seq<char>,
    pub kind: AssetKind,
    pub file_name: Option<Seq<char>>,
    pub phase: PhaseView,
}

impl View for Download {
    type V = DownloadView;

    open spec fn view(&self) -> DownloadView {
        DownloadView {
            url: self.url@,
            kind: self.kind,
            file_name: some_view(self.file_name),
            phase: self.phase@,
        }
    }
}

/// The download of `url`, failed.
pub open spec fn failed(url: Seq<char>, failure: DownloadFailureView) -> PhaseView {
    PhaseView::Settled(OutcomeView::Failed(MirrorErrorView::AssetDownload { url, failure }))
}

/// A download of `url` before anything was done: without a file name it has
/// failed already, and no request is sent.
pub open spec fn fresh(url: Seq<char>, kind: AssetKind) -> DownloadView {
    DownloadView {
        url,
        kind,
        file_name: file_name_of(url),
        phase: match file_name_of(url) {
            Some(_) => PhaseView::Requesting,
            None => PhaseView::Settled(
                OutcomeView::Failed(MirrorErrorView::MissingFilename { url }),
            ),
        },
    }
}

/// What is to be done in a phase.
pub open spec fn action_in(phase: PhaseView) -> DownloadAction {
    match phase {
        PhaseView::Requesting => DownloadAction::Request,
        PhaseView::Opening => DownloadAction::CreateFile,
        PhaseView::Receiving => DownloadAction::AwaitChunk,
        PhaseView::Writing => DownloadAction::WriteChunk,
        PhaseView::Flushing => DownloadAction::Flush,
        PhaseView::Settled(_) => DownloadAction::Finish,
    }
}

/// The phase that follows `phase` of the download of `url` on `event`.
///
/// A settled download stays as it is. Elsewhere an event that the phase was
/// not waiting for fails the download.
pub open spec fn phase_after(
    url: Seq<char>,
    phase: PhaseView,
    event: DownloadEventView,
) -> PhaseView {
    match (phase, event) {
        (PhaseView::Settled(outcome), _) => PhaseView::Settled(outcome),
        (PhaseView::Requesting, DownloadEventView::Responded { status }) => if success_status(
            status,
        ) {
            PhaseView::Opening
        } else {
            failed(url, DownloadFailureView::Status(status))
        },
        (PhaseView::Requesting, DownloadEventView::TransportFailed { reason }) => failed(
            url,
            DownloadFailureView::Transport(reason),
        ),
        (PhaseView::Opening, DownloadEventView::FileCreated) => PhaseView::Receiving,
        (PhaseView::Opening, DownloadEventView::StorageFailed { reason }) => failed(
            url,
            DownloadFailureView::Storage(reason),
        ),
        (PhaseView::Receiving, DownloadEventView::ChunkArrived) => PhaseView::Writing,
        (PhaseView::Receiving, DownloadEventView::BodyEnded) => PhaseView::Flushing,
        (PhaseView::Receiving, DownloadEventView::TransportFailed { reason }) => failed(
            url,
            DownloadFailureView::Transport(reason),
        ),
        (PhaseView::Writing, DownloadEventView::ChunkWritten) => PhaseView::Receiving,
        (PhaseView::Writing, DownloadEventView::StorageFailed { reason }) => failed(
            url,
            DownloadFailureView::Storage(reason),
        ),
        (PhaseView::Flushing, DownloadEventView::Flushed) => PhaseView::Settled(
            OutcomeView::Succeeded,
        ),
        (PhaseView::Flushing, DownloadEventView::StorageFailed { reason }) => failed(
            url,
            DownloadFailureView::Storage(reason),
        ),
        _ => failed(url, DownloadFailureView::OutOfTurn),
    }
}

/// The download after `event`.
pub open spec fn advanced(download: DownloadView, event: DownloadEventView) -> DownloadView {
    DownloadView { phase: phase_after(download.url, download.phase, event), ..download }
}

/// The download after each of `events` in turn.
pub open spec fn advanced_through(
    download: DownloadView,
    events: Seq<DownloadEventView>,
) -> DownloadView
    decreases events.len(),
{
    if events.len() == 0 {
        download
    } else {
        advanced(advanced_through(download, events.drop_last()), events.last())
    }
}

impl Download {
    /// A download of `url` into the directory of `kind`, before anything was
    /// done.
    pub fn begin(url: &str, kind: AssetKind) -> (download: Download)
        ensures
            download@ == fresh(url@, kind),
    {
        let name = file_name(url);
        let phase = match &name {
            Some(_) => Phase::Requesting,
            None => Phase::Settled(
                Outcome::Failed(MirrorError::MissingFilename { url: url.to_owned() }),
            ),
        };
        Download { url: url.to_owned(), kind, file_name: name, phase }
    }

    /// The path of the destination file, relative to where the two asset
    /// directories stand. A download without a file name has none.
    pub fn destination(&self) -> (path: Option<String>)
        ensures
            some_view(path) == (match self@.file_name {
                Some(name) => Some(destination_of(self@.kind, name)),
                None => None,
            }),
    {
        match &self.file_name {
            Some(name) => {
                let mut path = self.kind.directory().to_owned();
                path.append("/");
                path.append(name.as_str());
                Some(path)
            },
            None => None,
        }
    }

    /// What the caller is to do next.
    pub fn action(&self) -> (action: DownloadAction)
        ensures
            action == action_in(self@.phase),
    {
        match &self.phase {
            Phase::Requesting => DownloadAction::Request,
            Phase::Opening => DownloadAction::CreateFile,
            Phase::Receiving => DownloadAction::AwaitChunk,
            Phase::Writing => DownloadAction::WriteChunk,
            Phase::Flushing => DownloadAction::Flush,
            Phase::Settled(_) => DownloadAction::Finish,
        }
    }

    /// Whether nothing is left to do.
    pub fn is_settled(&self) -> (settled: bool)
        ensures
            settled == (self@.phase is Settled),
    {
        match &self.phase {
            Phase::Settled(_) => true,
            _ => false,
        }
    }

    /// How the download ended, once it has settled.
    pub fn outcome(&self) -> (outcome: Option<&Outcome>)
        ensures
            (match outcome {
                Some(o) => self@.phase == PhaseView::Settled(o@),
                None => !(self@.phase is Settled),
            }),
    {
        match &self.phase {
            Phase::Settled(outcome) => Some(outcome),
            _ => None,
        }
    }

    fn fail(&self, failure: DownloadFailure) -> (phase: Phase)
        ensures
            phase@ == failed(self@.url, failure@),
    {
        Phase::Settled(Outcome::Failed(MirrorError::AssetDownload { url: self.url.clone(), failure }))
    }

    /// Takes note of what the caller reports.
    pub fn record(&mut self, event: DownloadEvent)
        ensures
            final(self)@ == advanced(old(self)@, event@),
    {
        let next = match (&self.phase, event) {
            (Phase::Settled(_), _) => {
                return ;
            },
            (Phase::Requesting, DownloadEvent::Responded { status }) => {
                if is_success(status) {
                    Phase::Opening
                } else {
                    self.fail(DownloadFailure::Status(status))
                }
            },
            (Phase::Requesting, DownloadEvent::TransportFailed { reason }) => self.fail(
                DownloadFailure::Transport(reason),
            ),
            (Phase::Opening, DownloadEvent::FileCreated) => Phase::Receiving,
            (Phase::Opening, DownloadEvent::StorageFailed { reason }) => self.fail(
                DownloadFailure::Storage(reason),
            ),
            (Phase::Receiving, DownloadEvent::ChunkArrived) => Phase::Writing,
            (Phase::Receiving, DownloadEvent::BodyEnded) => Phase::Flushing,
            (Phase::Receiving, DownloadEvent::TransportFailed { reason }) => self.fail(
                DownloadFailure::Transport(reason),
            ),
            (Phase::Writing, DownloadEvent::ChunkWritten) => Phase::Receiving,
            (Phase::Writing, DownloadEvent::StorageFailed { reason }) => self.fail(
                DownloadFailure::Storage(reason),
            ),
            (Phase::Flushing, DownloadEvent::Flushed) => Phase::Settled(Outcome::Succeeded),
            (Phase::Flushing, DownloadEvent::StorageFailed { reason }) => self.fail(
                DownloadFailure::Storage(reason),
            ),
            _ => self.fail(DownloadFailure::OutOfTurn),
        };
        self.phase = next;
    }
}

/// Begins the download of a binary, into the directory for binaries.
pub fn download_bin(url: &str) -> (download: Download)
    ensures
        download@ == fresh(url@, AssetKind::Binary),
{
    Download::begin(url, AssetKind::Binary)
}

/// Begins the download of an icon, into the directory for icons.
pub fn download_icon(url: &str) -> (download: Download)
    ensures
        download@ == fresh(url@, AssetKind::Icon),
{
    Download::begin(url, AssetKind::Icon)
}

/// What holds of a download at every phase: its file name is the one its URL
/// gives, and without a file name it has failed for want of one.
pub open spec fn well_formed(download: DownloadView) -> bool {
    &&& download.file_name == file_name_of(download.url)
    &&& download.file_name is None ==> download.phase == PhaseView::Settled(
        OutcomeView::Failed(MirrorErrorView::MissingFilename { url: download.url }),
    )
}

/// Every download is well formed, whatever was reported to it since its
/// beginning. So a file is asked for only where there is a name for it.
pub proof fn lemma_downloads_are_well_formed(
    url: Seq<char>,
    kind: AssetKind,
    events: Seq<DownloadEventView>,
)
    ensures
        well_formed(advanced_through(fresh(url, kind), events)),
        action_in(advanced_through(fresh(url, kind), events).phase) == DownloadAction::CreateFile
            ==> advanced_through(fresh(url, kind), events).file_name is Some,
    decreases events.len(),
{
    if events.len() > 0 {
        lemma_downloads_are_well_formed(url, kind, events.drop_last());
    }
}

/// The destination of a download is the directory of its kind, one slash,
/// and a file name without a slash: no other directory is named in it.
pub proof fn lemma_destination_is_in_the_directory(url: Seq<char>, kind: AssetKind)
    ensures
        file_name_of(url) matches Some(name) ==> ({
            let path = destination_of(kind, name);
            let directory = directory_of(kind);
            &&& path.len() == directory.len() + 1 + name.len()
            &&& path.subrange(0, directory.len() as int) == directory
            &&& path[directory.len() as int] == '/'
            &&& forall|i: int| directory.len() < i < path.len() ==> path[i] != '/'
        }),
{
    if let Some(name) = file_name_of(url) {
        lemma_file_name_has_no_slash(url);
        reveal_strlit("/");
        let path = destination_of(kind, name);
        let directory = directory_of(kind);
        assert(path.subrange(0, directory.len() as int) =~= directory);
        assert forall|i: int| directory.len() < i < path.len() implies path[i] != '/' by {
            assert(path[i] == name[i - directory.len() - 1]);
        }
    }
}

/// A settled download stays as it is, whatever is reported to it.
pub proof fn lemma_settled_download_stays(download: DownloadView, events: Seq<DownloadEventView>)
    requires
        download.phase is Settled,
    ensures
        advanced_through(download, events) == download,
    decreases events.len(),
{
    if events.len() > 0 {
        lemma_settled_download_stays(download, events.drop_last());
    }
}

/// A status outside 200..=299 fails the download with that status and its
/// URL, and no file is asked for.
pub proof fn lemma_bad_status_fails_the_download(download: DownloadView, status: u16)
    requires
        download.phase is Requesting,
        !success_status(status),
    ensures
        advanced(download, DownloadEventView::Responded { status }).phase == failed(
            download.url,
            DownloadFailureView::Status(status),
        ),
        action_in(advanced(download, DownloadEventView::Responded { status }).phase)
            == DownloadAction::Finish,
{
}

/// The file is flushed only when the body has ended with no chunk left to
/// write, and a download succeeds only by that flush.
pub proof fn lemma_flush_ends_the_body(download: DownloadView, event: DownloadEventView)
    requires
        !(download.phase is Settled),
    ensures
        advanced(download, event).phase is Flushing ==> download.phase is Receiving
            && event is BodyEnded,
        advanced(download, event).phase == PhaseView::Settled(OutcomeView::Succeeded)
            ==> download.phase is Flushing && event is Flushed,
{
}

/// Only the phase of a download changes: its URL, its directory and its file
/// name stay what they were at its beginning.
pub proof fn lemma_destination_is_fixed(download: DownloadView, events: Seq<DownloadEventView>)
    ensures
        advanced_through(download, events).url == download.url,
        advanced_through(download, events).kind == download.kind,
        advanced_through(download, events).file_name == download.file_name,
    decreases events.len(),
{
    if events.len() > 0 {
        lemma_destination_is_fixed(download, events.drop_last());
    }
}

} // verus!
