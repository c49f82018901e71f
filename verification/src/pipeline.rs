//! A mirror run, decided step by step.
//!
//! A [`Run`] fetches nothing and writes nothing. It names the next thing to
//! do, the caller does it and reports what happened. The manifest is fetched
//! and read, narrowed to what is wanted, and one binary URL and one icon URL
//! are derived for every package that is left. All binaries are downloaded as
//! one batch; when every one of them has settled, all icons are downloaded as
//! a second batch; when those have settled, the filtered manifest is written.
//! What a download came to is recorded and changes nothing else.

use crate::codec::{manifest_of_text, read_manifest, text_of_manifest, write_manifest};
use crate::download::{is_success, success_status, AssetKind};
use crate::error::{MirrorError, MirrorErrorView, Outcome, OutcomeView};
use crate::filter::{
    filter_manifest, filtered, lemma_filter_is_idempotent, AllowLists, AllowListsView,
};
use crate::locate::{
    binary_url, check_url, checked_url, derive_binary_url, derive_icon_url, icon_url,
};
use crate::manifest::{PackageView, TachiyomiPkg};
use crate::views::deep_result_view;
use vstd::prelude::*;

verus! {

/// What a run is given: where the manifest, the binaries and the icons are,
/// and what is wanted.
#[derive(Debug, Clone, PartialEq, Eq)]
pub struct Settings {
    pub manifest_url: String,
    pub binary_base: String,
    pub icon_base: String,
    pub lists: AllowLists,
}

/// [`Settings`] as mathematical values.
pub struct SettingsView {
    pub manifest_url: Seq<char>,
    pub binary_base: Seq<char>,
    pub icon_base: Seq<char>,
    pub lists: AllowListsView,
}

impl View for Settings {
    type V = SettingsView;

    open spec fn view(&self) -> SettingsView {
        SettingsView {
            manifest_url: self.manifest_url@,
            binary_base: self.binary_base@,
            icon_base: self.icon_base@,
            lists: self.lists@,
        }
    }
}

/// Where the filtered manifest is written, beside the two asset directories.
pub const INDEX_FILE_PATH: &'static str = "index.json";

/// Where the keiyoushi catalog publishes its manifest.
pub const KEIYOUSHI_SOURCE_URL: &'static str =
    "https://raw.githubusercontent.com/keiyoushi/extensions/refs/heads/repo/index.json";

/// The base against which the catalog's binaries are resolved.
pub const KEIYOUSHI_SOURCE_BIN_URL: &'static str =
    "https://raw.githubusercontent.com/keiyoushi/extensions/refs/heads/repo/apk/";

/// The base against which the catalog's icons are resolved.
pub const KEIYOUSHI_SOURCE_ICON_URL: &'static str =
    "https://raw.githubusercontent.com/keiyoushi/extensions/refs/heads/repo/icon/";

/// The settings for the keiyoushi catalog: its three URLs, the one wanted
/// name and the two wanted locales.
pub open spec fn keiyoushi_settings() -> SettingsView {
    SettingsView {
        manifest_url: KEIYOUSHI_SOURCE_URL@,
        binary_base: KEIYOUSHI_SOURCE_BIN_URL@,
        icon_base: KEIYOUSHI_SOURCE_ICON_URL@,
        lists: AllowListsView { names: seq!["MangaDex"@], langs: seq!["pt-BR"@, "en"@] },
    }
}

impl Settings {
    /// The settings for the keiyoushi catalog.
    pub fn keiyoushi() -> (settings: Settings)
        ensures
            settings@ == keiyoushi_settings(),
    {
        let mut names: Vec<String> = Vec::new();
        names.push("MangaDex".to_owned());
        let mut langs: Vec<String> = Vec::new();
        langs.push("pt-BR".to_owned());
        langs.push("en".to_owned());
        assert(names.deep_view() =~= seq!["MangaDex"@]);
        assert(langs.deep_view() =~= seq!["pt-BR"@, "en"@]);
        Settings {
            manifest_url: KEIYOUSHI_SOURCE_URL.to_owned(),
            binary_base: KEIYOUSHI_SOURCE_BIN_URL.to_owned(),
            icon_base: KEIYOUSHI_SOURCE_ICON_URL.to_owned(),
            lists: AllowLists { names, langs },
        }
    }
}

/// Where a run stands.
#[derive(Debug, Clone, PartialEq, Eq)]
pub enum Stage {
    /// The manifest is requested; no response has arrived.
    Fetching,
    /// The response was good; its body is being read.
    Reading,
    /// The binaries are being downloaded.
    Binaries,
    /// The icons are being downloaded.
    Icons,
    /// The filtered manifest is being written.
    Writing,
    /// The run has ended well.
    Done,
    /// The run has ended with this error.
    Failed(MirrorError),
}

/// A [`Stage`] as a mathematical value.
pub enum StageView {
    Fetching,
    Reading,
    Binaries,
    Icons,
    Writing,
    Done,
    Failed(MirrorErrorView),
}

impl View for Stage {
    type V = StageView;

    open spec fn view(&self) -> StageView {
        match self {
            Stage::Fetching => StageView::Fetching,
            Stage::Reading => StageView::Reading,
            Stage::Binaries => StageView::Binaries,
            Stage::Icons => StageView::Icons,
            Stage::Writing => StageView::Writing,
            Stage::Done => StageView::Done,
            Stage::Failed(error) => StageView::Failed(error@),
        }
    }
}

/// What the caller is to do next for a run.
#[derive(Debug, Clone, PartialEq, Eq)]
pub enum Action {
    /// Send one GET request for the manifest and report its status.
    FetchManifest { url: String },
    /// Read the whole body of the response as text.
    ReadBody,
    /// Start one download for each URL, all at once, and report when every
    /// one of them has settled.
    Download { kind: AssetKind, urls: Vec<String> },
    /// Write the text to the manifest file, in place of what is there.
    WriteManifest { text: String },
    /// Stop: the run has ended.
    Finish,
}

/// An [`Action`] as a mathematical value.
pub enum ActionView {
    FetchManifest { url: Seq<char> },
    ReadBody,
    Download { kind: AssetKind, urls: Seq<Seq<char>> },
    WriteManifest { text: Seq<char> },
    Finish,
}

impl View for Action {
    type V = ActionView;

    open spec fn view(&self) -> ActionView {
        match self {
            Action::FetchManifest { url } => ActionView::FetchManifest { url: url@ },
            Action::ReadBody => ActionView::ReadBody,
            Action::Download { kind, urls } => ActionView::Download {
                kind: *kind,
                urls: urls.deep_view(),
            },
            Action::WriteManifest { text } => ActionView::WriteManifest { text: text@ },
            Action::Finish => ActionView::Finish,
        }
    }
}

/// What the caller reports back.
#[derive(Debug, Clone, PartialEq, Eq)]
pub enum Event {
    /// The manifest endpoint answered with this status.
    ManifestStatus { status: u16 },
    /// The body of the manifest response, read to its end.
    ManifestBody { text: String },
    /// The manifest request, or reading its body, failed.
    TransportFailed { reason: String },
    /// Every download of the batch has settled; one outcome for each URL.
    BatchSettled { outcomes: Vec<Outcome> },
    /// The manifest file is written.
    ManifestWritten,
    /// Writing the manifest file failed.
    WriteFailed { reason: String },
}

/// An [`Event`] as a mathematical value.
pub enum EventView {
    ManifestStatus { status: u16 },
    ManifestBody { text: Seq<char> },
    TransportFailed { reason: Seq<char> },
    BatchSettled { outcomes: Seq<OutcomeView> },
    ManifestWritten,
    WriteFailed { reason: Seq<char> },
}

impl View for Event {
    type V = EventView;

    open spec fn view(&self) -> EventView {
        match self {
            Event::ManifestStatus { status } => EventView::ManifestStatus { status: *status },
            Event::ManifestBody { text } => EventView::ManifestBody { text: text@ },
            Event::TransportFailed { reason } => EventView::TransportFailed { reason: reason@ },
            Event::BatchSettled { outcomes } => EventView::BatchSettled {
                outcomes: outcomes.deep_view(),
            },
            Event::ManifestWritten => EventView::ManifestWritten,
            Event::WriteFailed { reason } => EventView::WriteFailed { reason: reason@ },
        }
    }
}

/// A mirror run: its settings, how far it is, and what it has found out.
#[derive(Debug, Clone, PartialEq, Eq)]
pub struct Run {
    pub settings: Settings,
    pub stage: Stage,
    /// The filtered manifest, once the manifest is read.
    pub packages: Vec<TachiyomiPkg>,
    /// The URL of each package's binary, in the packages' order.
    pub binaries: Vec<String>,
    /// The URL of each package's icon, in the packages' order.
    pub icons: Vec<String>,
    /// How each binary download ended, once they have settled.
    pub binary_outcomes: Vec<Outcome>,
    /// How each icon download ended, once they have settled.
    pub icon_outcomes: Vec<Outcome>,
}

/// A [`Run`] as a mathematical value.
pub struct RunView {
    pub settings: SettingsView,
    pub stage: StageView,
    pub packages: Seq<PackageView>,
    pub binaries: Seq<Seq<char>>,
    pub icons: Seq<Seq<char>>,
    pub binary_outcomes: Seq<OutcomeView>,
    pub icon_outcomes: Seq<OutcomeView>,
}

impl View for Run {
    type V = RunView;

    open spec fn view(&self) -> RunView {
        RunView {
            settings: self.settings@,
            stage: self.stage@,
            packages: self.packages.deep_view(),
            binaries: self.binaries.deep_view(),
            icons: self.icons.deep_view(),
            binary_outcomes: self.binary_outcomes.deep_view(),
            icon_outcomes: self.icon_outcomes.deep_view(),
        }
    }
}

/// Where a package's asset of a kind is fetched from.
pub open spec fn asset_url(kind: AssetKind, base: Seq<char>, package: PackageView) -> Result<
    Seq<char>,
    MirrorErrorView,
> {
    match kind {
        AssetKind::Binary => binary_url(base, package),
        AssetKind::Icon => icon_url(base, package),
    }
}

/// The URLs of one kind for some packages, one for each package in their
/// order, or the error of the first package that has none.
pub open spec fn asset_urls(kind: AssetKind, base: Seq<char>, packages: Seq<PackageView>) -> Result<
    Seq<Seq<char>>,
    MirrorErrorView,
>
    decreases packages.len(),
{
    if packages.len() == 0 {
        Ok(Seq::empty())
    } else {
        match asset_urls(kind, base, packages.drop_last()) {
            Err(e) => Err(e),
            Ok(before) => match asset_url(kind, base, packages.last()) {
                Ok(url) => Ok(before.push(url)),
                Err(e) => Err(e),
            },
        }
    }
}

/// What a run has to download and to write.
pub struct PlanView {
    pub packages: Seq<PackageView>,
    pub binaries: Seq<Seq<char>>,
    pub icons: Seq<Seq<char>>,
}

/// What follows from the body of the manifest response: the body is read as
/// a manifest and filtered, the two base URLs are checked, and the URLs are
/// derived, binaries before icons. The first of these that fails is the
/// error of the run.
pub open spec fn planned(settings: SettingsView, body: Seq<char>) -> Result<
    PlanView,
    MirrorErrorView,
> {
    match manifest_of_text(body) {
        Err(e) => Err(e),
        Ok(manifest) => {
            let packages = filtered(manifest, settings.lists);
            match checked_url(settings.binary_base) {
                Err(e) => Err(e),
                Ok(_) => match checked_url(settings.icon_base) {
                    Err(e) => Err(e),
                    Ok(_) => match asset_urls(AssetKind::Binary, settings.binary_base, packages) {
                        Err(e) => Err(e),
                        Ok(binaries) => match asset_urls(
                            AssetKind::Icon,
                            settings.icon_base,
                            packages,
                        ) {
                            Err(e) => Err(e),
                            Ok(icons) => Ok(PlanView { packages, binaries, icons }),
                        },
                    },
                },
            }
        },
    }
}

/// A run that has ended with an error.
pub open spec fn failed(run: RunView, error: MirrorErrorView) -> (RunView, ActionView) {
    (RunView { stage: StageView::Failed(error), ..run }, ActionView::Finish)
}

/// A run at its start, and the first thing to do. A manifest URL that is no
/// URL ends the run before anything is requested.
pub open spec fn started(settings: SettingsView) -> (RunView, ActionView) {
    let run = RunView {
        settings,
        stage: StageView::Fetching,
        packages: Seq::empty(),
        binaries: Seq::empty(),
        icons: Seq::empty(),
        binary_outcomes: Seq::empty(),
        icon_outcomes: Seq::empty(),
    };
    match checked_url(settings.manifest_url) {
        Ok(url) => (run, ActionView::FetchManifest { url }),
        Err(error) => failed(run, error),
    }
}

/// The run after an event, and the next thing to do.
///
/// A run that has ended stays as it is. Elsewhere an event that the stage was
/// not waiting for ends the run with an error.
pub open spec fn stepped(run: RunView, event: EventView) -> (RunView, ActionView) {
    match (run.stage, event) {
        (StageView::Done, _) => (run, ActionView::Finish),
        (StageView::Failed(_), _) => (run, ActionView::Finish),
        (StageView::Fetching, EventView::ManifestStatus { status }) => if success_status(status) {
            (RunView { stage: StageView::Reading, ..run }, ActionView::ReadBody)
        } else {
            failed(run, MirrorErrorView::RemoteManifest { status })
        },
        (StageView::Fetching, EventView::TransportFailed { reason }) => failed(
            run,
            MirrorErrorView::ManifestTransport { reason },
        ),
        (StageView::Reading, EventView::TransportFailed { reason }) => failed(
            run,
            MirrorErrorView::ManifestTransport { reason },
        ),
        (StageView::Reading, EventView::ManifestBody { text }) => match planned(
            run.settings,
            text,
        ) {
            Err(error) => failed(run, error),
            Ok(plan) => (
                RunView {
                    stage: StageView::Binaries,
                    packages: plan.packages,
                    binaries: plan.binaries,
                    icons: plan.icons,
                    ..run
                },
                ActionView::Download { kind: AssetKind::Binary, urls: plan.binaries },
            ),
        },
        (StageView::Binaries, EventView::BatchSettled { outcomes }) => (
            RunView { stage: StageView::Icons, binary_outcomes: outcomes, ..run },
            ActionView::Download { kind: AssetKind::Icon, urls: run.icons },
        ),
        (StageView::Icons, EventView::BatchSettled { outcomes }) => {
            let settled = RunView { icon_outcomes: outcomes, ..run };
            match text_of_manifest(run.packages) {
                Ok(text) => (
                    RunView { stage: StageView::Writing, ..settled },
                    ActionView::WriteManifest { text },
                ),
                Err(error) => failed(settled, error),
            }
        },
        (StageView::Writing, EventView::ManifestWritten) => (
            RunView { stage: StageView::Done, ..run },
            ActionView::Finish,
        ),
        (StageView::Writing, EventView::WriteFailed { reason }) => failed(
            run,
            MirrorErrorView::ManifestWrite { reason },
        ),
        _ => failed(run, MirrorErrorView::OutOfTurn),
    }
}

/// What a run has to download and to write.
#[derive(Debug, Clone, PartialEq, Eq)]
pub struct Plan {
    /// The filtered manifest.
    pub packages: Vec<TachiyomiPkg>,
    /// The URL of each package's binary, in the packages' order.
    pub binaries: Vec<String>,
    /// The URL of each package's icon, in the packages' order.
    pub icons: Vec<String>,
}

impl View for Plan {
    type V = PlanView;

    open spec fn view(&self) -> PlanView {
        PlanView {
            packages: self.packages.deep_view(),
            binaries: self.binaries.deep_view(),
            icons: self.icons.deep_view(),
        }
    }
}

impl DeepView for Plan {
    type V = PlanView;

    open spec fn deep_view(&self) -> PlanView {
        self.view()
    }
}

/// Deriving for one package more either appends its URL or gives its error.
proof fn lemma_urls_step(kind: AssetKind, base: Seq<char>, packages: Seq<PackageView>, i: int)
    requires
        0 <= i < packages.len(),
    ensures
        asset_urls(kind, base, packages.take(i + 1)) == (match asset_urls(
            kind,
            base,
            packages.take(i),
        ) {
            Err(e) => Err(e),
            Ok(before) => match asset_url(kind, base, packages[i]) {
                Ok(url) => Ok(before.push(url)),
                Err(e) => Err(e),
            },
        }),
{
    assert(packages.take(i + 1).drop_last() =~= packages.take(i));
}

/// An error among the first packages is the error of all of them.
proof fn lemma_urls_error_stays(
    kind: AssetKind,
    base: Seq<char>,
    packages: Seq<PackageView>,
    k: int,
)
    requires
        0 <= k <= packages.len(),
        asset_urls(kind, base, packages.take(k)) is Err,
    ensures
        asset_urls(kind, base, packages) == asset_urls(kind, base, packages.take(k)),
    decreases packages.len() - k,
{
    if k == packages.len() {
        assert(packages.take(k) =~= packages);
    } else {
        lemma_urls_step(kind, base, packages, k);
        lemma_urls_error_stays(kind, base, packages, k + 1);
    }
}

/// A plan has one binary URL and one icon URL for each of its packages.
pub proof fn lemma_one_url_for_each_package(
    kind: AssetKind,
    base: Seq<char>,
    packages: Seq<PackageView>,
)
    ensures
        asset_urls(kind, base, packages) matches Ok(urls) ==> ({
            &&& urls.len() == packages.len()
            &&& forall|i: int|
                0 <= i < packages.len() ==> asset_url(kind, base, packages[i]) == Ok::<
                    Seq<char>,
                    MirrorErrorView,
                >(#[trigger] urls[i])
        }),
    decreases packages.len(),
{
    if packages.len() > 0 {
        lemma_one_url_for_each_package(kind, base, packages.drop_last());
    }
}

/// A copy of some texts.
fn copy_texts(texts: &Vec<String>) -> (copy: Vec<String>)
    ensures
        copy.deep_view() == texts.deep_view(),
{
    let mut copy: Vec<String> = Vec::new();
    let mut i: usize = 0;
    while i < texts.len()
        invariant
            i <= texts.len(),
            copy.len() == i,
            forall|j: int| 0 <= j < i ==> (#[trigger] copy@[j])@ == texts@[j]@,
        decreases texts.len() - i,
    {
        copy.push(texts[i].clone());
        i += 1;
    }
    copy
}

/// Derives the URL of one kind for each package, in the packages' order.
pub fn derive_urls(kind: AssetKind, base: &str, packages: &Vec<TachiyomiPkg>) -> (urls: Result<
    Vec<String>,
    MirrorError,
>)
    ensures
        deep_result_view(urls) == asset_urls(kind, base@, packages.deep_view()),
{
    let ghost all = packages.deep_view();
    let mut urls: Vec<String> = Vec::new();
    let mut i: usize = 0;
    assert(urls.deep_view() =~= Seq::empty());
    while i < packages.len()
        invariant
            i <= packages.len(),
            all == packages.deep_view(),
            asset_urls(kind, base@, all.take(i as int)) == Ok::<Seq<Seq<char>>, MirrorErrorView>(
                urls.deep_view(),
            ),
        decreases packages.len() - i,
    {
        proof {
            lemma_urls_step(kind, base@, all, i as int);
        }
        let derived = match kind {
            AssetKind::Binary => derive_binary_url(base, &packages[i]),
            AssetKind::Icon => derive_icon_url(base, &packages[i]),
        };
        match derived {
            Ok(url) => {
                let ghost before = urls.deep_view();
                urls.push(url);
                assert(urls.deep_view() =~= before.push(url@));
            },
            Err(error) => {
                proof {
                    lemma_urls_error_stays(kind, base@, all, i + 1);
                }
                return Err(error);
            },
        }
        i += 1;
    }
    assert(all.take(packages.len() as int) =~= all);
    Ok(urls)
}

/// Plans a run from the body of the manifest response.
pub fn plan(settings: &Settings, body: &str) -> (plan: Result<Plan, MirrorError>)
    ensures
        deep_result_view(plan) == planned(settings@, body@),
{
    let manifest = match read_manifest(body) {
        Ok(manifest) => manifest,
        Err(error) => {
            return Err(error);
        },
    };
    let packages = filter_manifest(&manifest, &settings.lists);
    if let Err(error) = check_url(settings.binary_base.as_str()) {
        return Err(error);
    }
    if let Err(error) = check_url(settings.icon_base.as_str()) {
        return Err(error);
    }
    let binaries = match derive_urls(AssetKind::Binary, settings.binary_base.as_str(), &packages) {
        Ok(urls) => urls,
        Err(error) => {
            return Err(error);
        },
    };
    let icons = match derive_urls(AssetKind::Icon, settings.icon_base.as_str(), &packages) {
        Ok(urls) => urls,
        Err(error) => {
            return Err(error);
        },
    };
    Ok(Plan { packages, binaries, icons })
}

impl Run {
    /// Begins a run: checks the manifest URL and asks for the manifest.
    pub fn start(settings: Settings) -> (begun: (Run, Action))
        ensures
            (begun.0@, begun.1@) == started(settings@),
    {
        let checked = check_url(settings.manifest_url.as_str());
        let mut run = Run {
            settings,
            stage: Stage::Fetching,
            packages: Vec::new(),
            binaries: Vec::new(),
            icons: Vec::new(),
            binary_outcomes: Vec::new(),
            icon_outcomes: Vec::new(),
        };
        assert(run.packages.deep_view() =~= Seq::empty());
        assert(run.binaries.deep_view() =~= Seq::empty());
        assert(run.icons.deep_view() =~= Seq::empty());
        assert(run.binary_outcomes.deep_view() =~= Seq::empty());
        assert(run.icon_outcomes.deep_view() =~= Seq::empty());
        match checked {
            Ok(url) => (run, Action::FetchManifest { url }),
            Err(error) => {
                run.stage = Stage::Failed(error);
                (run, Action::Finish)
            },
        }
    }

    /// Whether the run has ended, well or not.
    pub fn is_over(&self) -> (over: bool)
        ensures
            over == (self@.stage is Done || self@.stage is Failed),
    {
        match &self.stage {
            Stage::Done => true,
            Stage::Failed(_) => true,
            _ => false,
        }
    }

    /// The error that ended the run, if one did.
    pub fn error(&self) -> (error: Option<&MirrorError>)
        ensures
            (match error {
                Some(e) => self@.stage == StageView::Failed(e@),
                None => !(self@.stage is Failed),
            }),
    {
        match &self.stage {
            Stage::Failed(error) => Some(error),
            _ => None,
        }
    }

    fn fail(&mut self, error: MirrorError) -> (action: Action)
        ensures
            (final(self)@, action@) == failed(old(self)@, error@),
    {
        self.stage = Stage::Failed(error);
        Action::Finish
    }

    /// Takes note of what the caller reports and says what to do next.
    pub fn step(&mut self, event: Event) -> (action: Action)
        ensures
            (final(self)@, action@) == stepped(old(self)@, event@),
    {
        match (&self.stage, event) {
            (Stage::Done, _) => Action::Finish,
            (Stage::Failed(_), _) => Action::Finish,
            (Stage::Fetching, Event::ManifestStatus { status }) => {
                if is_success(status) {
                    self.stage = Stage::Reading;
                    Action::ReadBody
                } else {
                    self.fail(MirrorError::RemoteManifest { status })
                }
            },
            (Stage::Fetching, Event::TransportFailed { reason }) => self.fail(
                MirrorError::ManifestTransport { reason },
            ),
            (Stage::Reading, Event::TransportFailed { reason }) => self.fail(
                MirrorError::ManifestTransport { reason },
            ),
            (Stage::Reading, Event::ManifestBody { text }) => {
                match plan(&self.settings, text.as_str()) {
                    Err(error) => self.fail(error),
                    Ok(plan) => {
                        let urls = copy_texts(&plan.binaries);
                        self.stage = Stage::Binaries;
                        self.packages = plan.packages;
                        self.binaries = plan.binaries;
                        self.icons = plan.icons;
                        Action::Download { kind: AssetKind::Binary, urls }
                    },
                }
            },
            (Stage::Binaries, Event::BatchSettled { outcomes }) => {
                self.stage = Stage::Icons;
                self.binary_outcomes = outcomes;
                Action::Download { kind: AssetKind::Icon, urls: copy_texts(&self.icons) }
            },
            (Stage::Icons, Event::BatchSettled { outcomes }) => {
                self.icon_outcomes = outcomes;
                match write_manifest(&self.packages) {
                    Ok(text) => {
                        self.stage = Stage::Writing;
                        Action::WriteManifest { text }
                    },
                    Err(error) => self.fail(error),
                }
            },
            (Stage::Writing, Event::ManifestWritten) => {
                self.stage = Stage::Done;
                Action::Finish
            },
            (Stage::Writing, Event::WriteFailed { reason }) => self.fail(
                MirrorError::ManifestWrite { reason },
            ),
            _ => self.fail(MirrorError::OutOfTurn),
        }
    }
}

/// The run after each of `events` in turn.
pub open spec fn run_after(run: RunView, events: Seq<EventView>) -> RunView
    decreases events.len(),
{
    if events.len() == 0 {
        run
    } else {
        stepped(run_after(run, events.drop_last()), events.last()).0
    }
}

/// What the run asks for in answer to the last of `events`.
pub open spec fn action_after(run: RunView, events: Seq<EventView>) -> ActionView {
    stepped(run_after(run, events.drop_last()), events.last()).1
}

/// A run that has ended stays as it is and asks for nothing more, whatever is
/// reported to it.
pub proof fn lemma_ended_run_stays(run: RunView, events: Seq<EventView>)
    requires
        run.stage is Done || run.stage is Failed,
    ensures
        run_after(run, events) == run,
        events.len() > 0 ==> action_after(run, events) == ActionView::Finish,
    decreases events.len(),
{
    if events.len() > 0 {
        lemma_ended_run_stays(run, events.drop_last());
    }
}

/// The packages of a run are a filtered manifest, its two base URLs are
/// URLs, and its URLs are the ones derived for the packages from the bases.
pub open spec fn planned_for(run: RunView) -> bool {
    &&& filtered(run.packages, run.settings.lists) == run.packages
    &&& checked_url(run.settings.binary_base) is Ok
    &&& checked_url(run.settings.icon_base) is Ok
    &&& asset_urls(AssetKind::Binary, run.settings.binary_base, run.packages) == Ok::<
        Seq<Seq<char>>,
        MirrorErrorView,
    >(run.binaries)
    &&& asset_urls(AssetKind::Icon, run.settings.icon_base, run.packages) == Ok::<
        Seq<Seq<char>>,
        MirrorErrorView,
    >(run.icons)
}

/// What holds of a run at every stage: before the manifest is read the run
/// holds nothing; from then on it holds its plan, and the outcomes of a batch
/// only once the batch has settled.
pub open spec fn well_formed(run: RunView) -> bool {
    match run.stage {
        StageView::Fetching | StageView::Reading => {
            &&& run.packages.len() == 0
            &&& run.binaries.len() == 0
            &&& run.icons.len() == 0
            &&& run.binary_outcomes.len() == 0
            &&& run.icon_outcomes.len() == 0
        },
        StageView::Binaries => {
            &&& planned_for(run)
            &&& run.binary_outcomes.len() == 0
            &&& run.icon_outcomes.len() == 0
        },
        StageView::Icons => planned_for(run) && run.icon_outcomes.len() == 0,
        StageView::Writing | StageView::Done => planned_for(run),
        StageView::Failed(_) => true,
    }
}

/// A run is well formed at its start.
pub proof fn lemma_start_is_well_formed(settings: SettingsView)
    ensures
        well_formed(started(settings).0),
{
}

/// A step keeps a run well formed.
pub proof fn lemma_step_keeps_well_formed(run: RunView, event: EventView)
    requires
        well_formed(run),
    ensures
        well_formed(stepped(run, event).0),
{
    if run.stage is Reading {
        if let EventView::ManifestBody { text } = event {
            if let Ok(manifest) = manifest_of_text(text) {
                lemma_filter_is_idempotent(manifest, run.settings.lists);
            }
        }
    }
}

/// Every run is well formed, whatever was reported to it since its start.
pub proof fn lemma_runs_are_well_formed(settings: SettingsView, events: Seq<EventView>)
    ensures
        well_formed(run_after(started(settings).0, events)),
    decreases events.len(),
{
    if events.len() == 0 {
        lemma_start_is_well_formed(settings);
    } else {
        lemma_runs_are_well_formed(settings, events.drop_last());
        lemma_step_keeps_well_formed(
            run_after(started(settings).0, events.drop_last()),
            events.last(),
        );
    }
}

/// The settings of a run stay what they were at its start.
pub proof fn lemma_settings_are_fixed(run: RunView, events: Seq<EventView>)
    ensures
        run_after(run, events).settings == run.settings,
    decreases events.len(),
{
    if events.len() > 0 {
        lemma_settings_are_fixed(run, events.drop_last());
    }
}

/// A status outside 200..=299 from the manifest endpoint is fatal: the run
/// ends with the error that carries the status, and whatever is reported
/// afterwards it asks for no download and for no write of the manifest.
pub proof fn lemma_bad_manifest_status_is_fatal(run: RunView, status: u16, later: Seq<EventView>)
    requires
        run.stage is Fetching,
        !success_status(status),
    ensures
        stepped(run, EventView::ManifestStatus { status }) == failed(
            run,
            MirrorErrorView::RemoteManifest { status },
        ),
        run_after(stepped(run, EventView::ManifestStatus { status }).0, later) == failed(
            run,
            MirrorErrorView::RemoteManifest { status },
        ).0,
        later.len() > 0 ==> action_after(
            stepped(run, EventView::ManifestStatus { status }).0,
            later,
        ) == ActionView::Finish,
{
    lemma_ended_run_stays(stepped(run, EventView::ManifestStatus { status }).0, later);
}

/// Failed downloads stop nothing. When the binaries have settled, every icon
/// is asked for; when the icons have settled, the manifest is written if it
/// can be put into text. Neither depends on how any download ended.
pub proof fn lemma_download_failures_are_isolated(
    run: RunView,
    binaries: Seq<OutcomeView>,
    icons: Seq<OutcomeView>,
)
    requires
        run.stage is Binaries,
    ensures
        ({
            let (between, second) = stepped(run, EventView::BatchSettled { outcomes: binaries });
            let (after, third) = stepped(between, EventView::BatchSettled { outcomes: icons });
            &&& second == ActionView::Download { kind: AssetKind::Icon, urls: run.icons }
            &&& between.stage is Icons
            &&& between.binary_outcomes == binaries
            &&& after.icon_outcomes == icons
            &&& after.packages == run.packages
            &&& match text_of_manifest(run.packages) {
                Ok(text) => third == ActionView::WriteManifest { text } && after.stage is Writing,
                Err(error) => third == ActionView::Finish && after.stage == StageView::Failed(
                    error,
                ),
            }
        }),
{
}

/// The two batches are apart: icons are asked for only when the binaries
/// have settled, and the manifest is written only when the icons have.
pub proof fn lemma_batches_in_order(run: RunView, event: EventView)
    ensures
        (stepped(run, event).1 matches ActionView::Download { kind, .. } ==> ({
            ||| kind == AssetKind::Binary && run.stage is Reading && event is ManifestBody
            ||| kind == AssetKind::Icon && run.stage is Binaries && event is BatchSettled
        })),
        stepped(run, event).1 is WriteManifest ==> run.stage is Icons && event is BatchSettled,
{
}

/// A run whose every step goes well ends well: with a manifest URL that is
/// one, a good status, a body that gives a plan, two settled batches, however
/// their downloads ended, and a manifest that is put into text and written,
/// the run is done.
pub proof fn lemma_good_run_is_done(
    settings: SettingsView,
    status: u16,
    body: Seq<char>,
    binaries: Seq<OutcomeView>,
    icons: Seq<OutcomeView>,
)
    requires
        checked_url(settings.manifest_url) is Ok,
        success_status(status),
        planned(settings, body) matches Ok(plan) && text_of_manifest(plan.packages) is Ok,
    ensures
        run_after(
            started(settings).0,
            seq![
                EventView::ManifestStatus { status },
                EventView::ManifestBody { text: body },
                EventView::BatchSettled { outcomes: binaries },
                EventView::BatchSettled { outcomes: icons },
                EventView::ManifestWritten,
            ],
        ).stage is Done,
{
    let events = seq![
        EventView::ManifestStatus { status },
        EventView::ManifestBody { text: body },
        EventView::BatchSettled { outcomes: binaries },
        EventView::BatchSettled { outcomes: icons },
        EventView::ManifestWritten,
    ];
    let start = started(settings).0;
    assert(events.take(0) =~= Seq::empty());
    assert(run_after(start, events.take(0)) == start);
    assert(events.take(1).drop_last() =~= events.take(0));
    assert(run_after(start, events.take(1)).stage is Reading);
    assert(events.take(2).drop_last() =~= events.take(1));
    assert(run_after(start, events.take(2)).stage is Binaries);
    assert(events.take(3).drop_last() =~= events.take(2));
    assert(run_after(start, events.take(3)).stage is Icons);
    assert(events.take(4).drop_last() =~= events.take(3));
    assert(run_after(start, events.take(4)).stage is Writing);
    assert(events.drop_last() =~= events.take(4));
}

/// A plan holds one binary URL and one icon URL for every package of the
/// filtered manifest, so that no package is left out of either batch.
pub proof fn lemma_plan_covers_every_package(settings: SettingsView, body: Seq<char>)
    ensures
        planned(settings, body) matches Ok(plan) ==> ({
            &&& plan.binaries.len() == plan.packages.len()
            &&& plan.icons.len() == plan.packages.len()
        }),
{
    if let Ok(manifest) = manifest_of_text(body) {
        let packages = filtered(manifest, settings.lists);
        lemma_one_url_for_each_package(AssetKind::Binary, settings.binary_base, packages);
        lemma_one_url_for_each_package(AssetKind::Icon, settings.icon_base, packages);
    }
}

} // verus!
