//! The filter engine: narrows a manifest to the wanted packages, and each of
//! them to its wanted sources.

use crate::manifest::{PackageView, Source, SourceView, TachiyomiPkg};
use crate::text::{contains, contains_text};
use vstd::prelude::*;

verus! {

/// The two allow-lists of a run.
#[derive(Debug, Clone, PartialEq, Eq)]
pub struct AllowLists {
    /// A package is wanted if its name contains one of these; a source is
    /// wanted only if its name is one of these.
    pub names: Vec<String>,
    /// A source is wanted only if its locale is one of these.
    pub langs: Vec<String>,
}

/// [`AllowLists`] as mathematical values.
pub struct AllowListsView {
    pub names: Seq<Seq<char>>,
    pub langs: Seq<Seq<char>>,
}

impl View for AllowLists {
    type V = AllowListsView;

    open spec fn view(&self) -> AllowListsView {
        AllowListsView { names: self.names.deep_view(), langs: self.langs.deep_view() }
    }
}

/// A package name is wanted if it contains one of the listed names.
pub open spec fn package_wanted(name: Seq<char>, lists: AllowListsView) -> bool {
    exists|i: int| 0 <= i < lists.names.len() && contains_text(name, #[trigger] lists.names[i])
}

/// A source is wanted if its locale is listed and its name is a listed name.
pub open spec fn source_wanted(source: SourceView, lists: AllowListsView) -> bool {
    lists.langs.contains(source.lang) && lists.names.contains(source.name)
}

/// The test that a package passes if it is wanted.
pub open spec fn package_test(lists: AllowListsView) -> spec_fn(PackageView) -> bool {
    |package: PackageView| package_wanted(package.name, lists)
}

/// The test that a source passes if it is wanted.
pub open spec fn source_test(lists: AllowListsView) -> spec_fn(SourceView) -> bool {
    |source: SourceView| source_wanted(source, lists)
}

/// The wanted ones among some sources, in their order.
pub open spec fn kept_sources(sources: Seq<SourceView>, lists: AllowListsView) -> Seq<SourceView> {
    sources.filter(source_test(lists))
}

/// A package with only its wanted sources. The package stays even if none of
/// its sources does.
pub open spec fn narrowed(package: PackageView, lists: AllowListsView) -> PackageView {
    PackageView { sources: kept_sources(package.sources, lists), ..package }
}

/// The step that narrows a package.
pub open spec fn narrowing(lists: AllowListsView) -> spec_fn(PackageView) -> PackageView {
    |package: PackageView| narrowed(package, lists)
}

/// The filtered manifest: the wanted packages in their order, each narrowed to
/// its wanted sources.
pub open spec fn filtered(manifest: Seq<PackageView>, lists: AllowListsView) -> Seq<PackageView> {
    manifest.filter(package_test(lists)).map_values(narrowing(lists))
}

/// Filtering one item more either appends that item or changes nothing.
proof fn lemma_filter_step<A>(s: Seq<A>, test: spec_fn(A) -> bool, i: int)
    requires
        0 <= i < s.len(),
    ensures
        s.take(i + 1).filter(test) == (if test(s[i]) {
            s.take(i).filter(test).push(s[i])
        } else {
            s.take(i).filter(test)
        }),
{
    reveal(Seq::filter);
    assert(s.take(i + 1).drop_last() =~= s.take(i));
}

/// A sequence whose items all pass a test is its own filtrate.
proof fn lemma_filter_of_passing<A>(s: Seq<A>, test: spec_fn(A) -> bool)
    requires
        forall|i: int| 0 <= i < s.len() ==> test(#[trigger] s[i]),
    ensures
        s.filter(test) == s,
    decreases s.len(),
{
    reveal(Seq::filter);
    if s.len() > 0 {
        lemma_filter_of_passing(s.drop_last(), test);
    }
}

/// Filtering a filtrate by the same test changes nothing.
proof fn lemma_filter_twice<A>(s: Seq<A>, test: spec_fn(A) -> bool)
    ensures
        s.filter(test).filter(test) == s.filter(test),
{
    assert forall|i: int| 0 <= i < s.filter(test).len() implies test(
        #[trigger] s.filter(test)[i],
    ) by {
        s.lemma_filter_pred(test, i);
    }
    lemma_filter_of_passing(s.filter(test), test);
}

/// Whether `name` contains one of `names`.
fn contains_any(name: &str, lists: &AllowLists) -> (found: bool)
    ensures
        found == package_wanted(name@, lists@),
{
    let mut i: usize = 0;
    while i < lists.names.len()
        invariant
            i <= lists.names.len(),
            forall|j: int| 0 <= j < i ==> !contains_text(name@, #[trigger] lists@.names[j]),
        decreases lists.names.len() - i,
    {
        if contains(name, lists.names[i].as_str()) {
            assert(contains_text(name@, lists@.names[i as int]));
            return true;
        }
        i += 1;
    }
    false
}

/// Whether `text` is one of `list`.
fn is_listed(text: &String, list: &Vec<String>) -> (found: bool)
    ensures
        found == list.deep_view().contains(text@),
{
    let mut i: usize = 0;
    while i < list.len()
        invariant
            i <= list.len(),
            forall|j: int| 0 <= j < i ==> list.deep_view()[j] != text@,
        decreases list.len() - i,
    {
        if list[i] == *text {
            assert(list.deep_view()[i as int] == text@);
            return true;
        }
        i += 1;
    }
    false
}

/// Whether a package is wanted.
pub fn is_package_wanted(package: &TachiyomiPkg, lists: &AllowLists) -> (wanted: bool)
    ensures
        wanted == package_wanted(package@.name, lists@),
{
    contains_any(package.name.as_str(), lists)
}

/// Whether a source is wanted.
pub fn is_source_wanted(source: &Source, lists: &AllowLists) -> (wanted: bool)
    ensures
        wanted == source_wanted(source@, lists@),
{
    is_listed(&source.lang, &lists.langs) && is_listed(&source.name, &lists.names)
}

/// The wanted ones among some sources, in their order.
pub fn retain_sources(sources: &Vec<Source>, lists: &AllowLists) -> (kept: Vec<Source>)
    ensures
        kept.deep_view() == kept_sources(sources.deep_view(), lists@),
{
    let mut kept: Vec<Source> = Vec::new();
    let mut i: usize = 0;
    assert(sources.deep_view().take(0).filter(source_test(lists@)) =~= Seq::empty()) by {
        reveal(Seq::filter);
    }
    while i < sources.len()
        invariant
            i <= sources.len(),
            kept.deep_view() == sources.deep_view().take(i as int).filter(source_test(lists@)),
        decreases sources.len() - i,
    {
        proof {
            lemma_filter_step(sources.deep_view(), source_test(lists@), i as int);
        }
        if is_source_wanted(&sources[i], lists) {
            kept.push(sources[i].duplicate());
        }
        i += 1;
    }
    assert(sources.deep_view().take(sources.len() as int) =~= sources.deep_view());
    kept
}

/// A copy of a package with only its wanted sources.
pub fn narrow_package(package: &TachiyomiPkg, lists: &AllowLists) -> (narrow: TachiyomiPkg)
    ensures
        narrow@ == narrowed(package@, lists@),
{
    TachiyomiPkg {
        name: package.name.clone(),
        pkg: package.pkg.clone(),
        apk: package.apk.clone(),
        lang: package.lang.clone(),
        code: package.code,
        version: package.version.clone(),
        nsfw: package.nsfw,
        sources: retain_sources(&package.sources, lists),
    }
}

/// Narrows a manifest to the wanted packages, in their order, and each of
/// them to its wanted sources.
///
/// Every package that is kept has a wanted name, and every source that is
/// kept is wanted.
pub fn filter_manifest(manifest: &Vec<TachiyomiPkg>, lists: &AllowLists) -> (kept: Vec<
    TachiyomiPkg,
>)
    ensures
        kept.deep_view() == filtered(manifest.deep_view(), lists@),
        forall|i: int|
            0 <= i < kept.len() ==> package_wanted((#[trigger] kept.deep_view()[i]).name, lists@),
        forall|i: int, j: int|
            0 <= i < kept.len() && 0 <= j < kept.deep_view()[i].sources.len() ==> source_wanted(
                #[trigger] kept.deep_view()[i].sources[j],
                lists@,
            ),
{
    let mut kept: Vec<TachiyomiPkg> = Vec::new();
    let mut i: usize = 0;
    assert(manifest.deep_view().take(0).filter(package_test(lists@)) =~= Seq::empty()) by {
        reveal(Seq::filter);
    }
    while i < manifest.len()
        invariant
            i <= manifest.len(),
            kept.deep_view() == filtered(manifest.deep_view().take(i as int), lists@),
        decreases manifest.len() - i,
    {
        proof {
            lemma_filter_step(manifest.deep_view(), package_test(lists@), i as int);
        }
        if is_package_wanted(&manifest[i], lists) {
            let ghost before = kept.deep_view();
            kept.push(narrow_package(&manifest[i], lists));
            assert(kept.deep_view() =~= before.push(
                narrowed(manifest.deep_view()[i as int], lists@),
            ));
        }
        i += 1;
    }
    assert(manifest.deep_view().take(manifest.len() as int) =~= manifest.deep_view());
    proof {
        lemma_kept_packages_are_wanted(manifest.deep_view(), lists@);
        lemma_kept_sources_are_wanted(manifest.deep_view(), lists@);
    }
    kept
}

/// Every package of a filtered manifest has a wanted name: a package whose
/// name contains none of the listed names is not in it, whatever its sources.
pub proof fn lemma_kept_packages_are_wanted(manifest: Seq<PackageView>, lists: AllowListsView)
    ensures
        forall|i: int|
            0 <= i < filtered(manifest, lists).len() ==> package_wanted(
                (#[trigger] filtered(manifest, lists)[i]).name,
                lists,
            ),
        forall|package: PackageView|
            !package_wanted(package.name, lists) ==> !filtered(manifest, lists).contains(package),
{
    let passing = manifest.filter(package_test(lists));
    assert forall|i: int| 0 <= i < filtered(manifest, lists).len() implies package_wanted(
        (#[trigger] filtered(manifest, lists)[i]).name,
        lists,
    ) by {
        manifest.lemma_filter_pred(package_test(lists), i);
    }
}

/// A manifest without a wanted package filters to the empty manifest.
pub proof fn lemma_nothing_wanted_gives_nothing(manifest: Seq<PackageView>, lists: AllowListsView)
    requires
        forall|i: int|
            0 <= i < manifest.len() ==> !package_wanted((#[trigger] manifest[i]).name, lists),
    ensures
        filtered(manifest, lists) == Seq::<PackageView>::empty(),
{
    let passing = manifest.filter(package_test(lists));
    if passing.len() > 0 {
        manifest.lemma_filter_pred(package_test(lists), 0);
        manifest.lemma_filter_contains_rev(package_test(lists), passing[0]);
        let i = choose|i: int| 0 <= i < manifest.len() && manifest[i] == passing[0];
        assert(!package_wanted(manifest[i].name, lists));
        assert(package_test(lists)(passing[0]));
    }
}

/// Every wanted package of a manifest is in the filtered manifest, narrowed
/// to its wanted sources, even where none of its sources is wanted.
pub proof fn lemma_wanted_packages_are_kept(manifest: Seq<PackageView>, lists: AllowListsView)
    ensures
        forall|i: int|
            0 <= i < manifest.len() && package_wanted((#[trigger] manifest[i]).name, lists)
                ==> filtered(manifest, lists).contains(narrowed(manifest[i], lists)),
{
    let passing = manifest.filter(package_test(lists));
    assert forall|i: int|
        0 <= i < manifest.len() && package_wanted(
            (#[trigger] manifest[i]).name,
            lists,
        ) implies filtered(manifest, lists).contains(narrowed(manifest[i], lists)) by {
        manifest.lemma_filter_contains(package_test(lists), i);
        let k = choose|k: int| 0 <= k < passing.len() && passing[k] == manifest[i];
        assert(filtered(manifest, lists)[k] == narrowed(manifest[i], lists));
    }
}

/// Every source of every package of a filtered manifest is wanted: its locale
/// is listed and its name is a listed name.
pub proof fn lemma_kept_sources_are_wanted(manifest: Seq<PackageView>, lists: AllowListsView)
    ensures
        forall|i: int, j: int|
            0 <= i < filtered(manifest, lists).len() && 0 <= j < filtered(
                manifest,
                lists,
            )[i].sources.len() ==> source_wanted(
                #[trigger] filtered(manifest, lists)[i].sources[j],
                lists,
            ),
{
    let passing = manifest.filter(package_test(lists));
    assert forall|i: int, j: int|
        0 <= i < filtered(manifest, lists).len() && 0 <= j < filtered(
            manifest,
            lists,
        )[i].sources.len() implies source_wanted(
        #[trigger] filtered(manifest, lists)[i].sources[j],
        lists,
    ) by {
        passing[i].sources.lemma_filter_pred(source_test(lists), j);
    }
}

/// Filtering is idempotent: filtering a filtered manifest with the same lists
/// changes nothing.
pub proof fn lemma_filter_is_idempotent(manifest: Seq<PackageView>, lists: AllowListsView)
    ensures
        filtered(filtered(manifest, lists), lists) == filtered(manifest, lists),
{
    let once = filtered(manifest, lists);
    lemma_kept_packages_are_wanted(manifest, lists);
    assert forall|i: int| 0 <= i < once.len() implies package_test(lists)(#[trigger] once[i]) by {}
    lemma_filter_of_passing(once, package_test(lists));
    assert forall|i: int| 0 <= i < once.len() implies narrowed(#[trigger] once[i], lists)
        == once[i] by {
        let passing = manifest.filter(package_test(lists));
        lemma_filter_twice(passing[i].sources, source_test(lists));
    }
}

} // verus!
