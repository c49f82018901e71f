//! The manifest as JSON: an array of package objects, each with its sources.
//!
//! Reading takes the members it knows by their keys and looks at nothing
//! else. A member must be present and of its type: text for all but `code`
//! and `nsfw`, which are integers, and `sources`, which is an array of source
//! objects. Writing gives every member, in a fixed order.

use crate::error::{DecodeError, Flaw, Member, MirrorError, MirrorErrorView};
use crate::json::{
    find_member, get_member, items_view, json_document, json_text, lemma_array_view,
    lemma_nested_within_more, lemma_object_view, member, members_view, nested_within,
    read_document, write_document, Json, JsonValue, WRITE_DEPTH,
};
use crate::manifest::{PackageView, Source, SourceView, TachiyomiPkg};
use crate::views::{deep_result_view, ok_deep_view, ok_view, result_view};
use vstd::prelude::*;

verus! {

/// The key under which a member stands in its object.
pub open spec fn key_of(m: Member) -> Seq<char> {
    match m {
        Member::Name => "name"@,
        Member::Pkg => "pkg"@,
        Member::Apk => "apk"@,
        Member::Lang => "lang"@,
        Member::Code => "code"@,
        Member::Version => "version"@,
        Member::Nsfw => "nsfw"@,
        Member::Sources => "sources"@,
        Member::Id => "id"@,
        Member::BaseUrl => "baseUrl"@,
    }
}

/// The key under which a member stands in its object.
pub fn key(m: Member) -> (k: &'static str)
    ensures
        k@ == key_of(m),
{
    match m {
        Member::Name => "name",
        Member::Pkg => "pkg",
        Member::Apk => "apk",
        Member::Lang => "lang",
        Member::Code => "code",
        Member::Version => "version",
        Member::Nsfw => "nsfw",
        Member::Sources => "sources",
        Member::Id => "id",
        Member::BaseUrl => "baseUrl",
    }
}

/// A flaw in a package: its own, or that of one of its sources.
#[derive(Debug, Clone, Copy, PartialEq, Eq)]
pub enum PackageFlaw {
    Own(Flaw),
    InSource { index: usize, flaw: Flaw },
}

/// The text of a member that must be text.
pub open spec fn text_member(members: Seq<(Seq<char>, JsonValue)>, m: Member) -> Result<
    Seq<char>,
    Flaw,
> {
    match member(members, key_of(m)) {
        None => Err(Flaw::Missing(m)),
        Some(JsonValue::Text(text)) => Ok(text),
        Some(_) => Err(Flaw::Mistyped(m)),
    }
}

/// The value of a member that must be an integer.
pub open spec fn integer_member(members: Seq<(Seq<char>, JsonValue)>, m: Member) -> Result<
    i64,
    Flaw,
> {
    match member(members, key_of(m)) {
        None => Err(Flaw::Missing(m)),
        Some(JsonValue::Number(Some(n))) => Ok(n),
        Some(_) => Err(Flaw::Mistyped(m)),
    }
}

/// The items of a member that must be an array.
pub open spec fn array_member(members: Seq<(Seq<char>, JsonValue)>, m: Member) -> Result<
    Seq<JsonValue>,
    Flaw,
> {
    match member(members, key_of(m)) {
        None => Err(Flaw::Missing(m)),
        Some(JsonValue::Array(items)) => Ok(items),
        Some(_) => Err(Flaw::Mistyped(m)),
    }
}

/// The source that a JSON value stands for, or its first flaw in the order
/// `name`, `lang`, `id`, `baseUrl`.
pub open spec fn decoded_source(value: JsonValue) -> Result<SourceView, Flaw> {
    match value {
        JsonValue::Object(members) => {
            let name = text_member(members, Member::Name);
            let lang = text_member(members, Member::Lang);
            let id = text_member(members, Member::Id);
            let base_url = text_member(members, Member::BaseUrl);
            if name is Err {
                Err(name->Err_0)
            } else if lang is Err {
                Err(lang->Err_0)
            } else if id is Err {
                Err(id->Err_0)
            } else if base_url is Err {
                Err(base_url->Err_0)
            } else {
                Ok(
                    SourceView {
                        name: name->Ok_0,
                        lang: lang->Ok_0,
                        id: id->Ok_0,
                        base_url: base_url->Ok_0,
                    },
                )
            }
        },
        _ => Err(Flaw::NotAnObject),
    }
}

/// The sources that some JSON values stand for, or the position and flaw of
/// the first that stands for none.
pub open spec fn decoded_sources(items: Seq<JsonValue>) -> Result<Seq<SourceView>, (int, Flaw)>
    decreases items.len(),
{
    if items.len() == 0 {
        Ok(Seq::empty())
    } else {
        match decoded_sources(items.drop_last()) {
            Err(e) => Err(e),
            Ok(before) => match decoded_source(items.last()) {
                Ok(source) => Ok(before.push(source)),
                Err(flaw) => Err((items.len() - 1, flaw)),
            },
        }
    }
}

/// The sources of a package object: those of its `sources` member.
pub open spec fn sources_member(members: Seq<(Seq<char>, JsonValue)>) -> Result<
    Seq<SourceView>,
    PackageFlaw,
> {
    match array_member(members, Member::Sources) {
        Err(flaw) => Err(PackageFlaw::Own(flaw)),
        Ok(items) => match decoded_sources(items) {
            Ok(sources) => Ok(sources),
            Err((index, flaw)) => Err(PackageFlaw::InSource { index: index as usize, flaw }),
        },
    }
}

/// The package that a JSON value stands for, or its first flaw in the order
/// `name`, `pkg`, `apk`, `lang`, `code`, `version`, `nsfw`, `sources`.
pub open spec fn decoded_package(value: JsonValue) -> Result<PackageView, PackageFlaw> {
    match value {
        JsonValue::Object(members) => {
            let name = text_member(members, Member::Name);
            let pkg = text_member(members, Member::Pkg);
            let apk = text_member(members, Member::Apk);
            let lang = text_member(members, Member::Lang);
            let code = integer_member(members, Member::Code);
            let version = text_member(members, Member::Version);
            let nsfw = integer_member(members, Member::Nsfw);
            let sources = sources_member(members);
            if name is Err {
                Err(PackageFlaw::Own(name->Err_0))
            } else if pkg is Err {
                Err(PackageFlaw::Own(pkg->Err_0))
            } else if apk is Err {
                Err(PackageFlaw::Own(apk->Err_0))
            } else if lang is Err {
                Err(PackageFlaw::Own(lang->Err_0))
            } else if code is Err {
                Err(PackageFlaw::Own(code->Err_0))
            } else if version is Err {
                Err(PackageFlaw::Own(version->Err_0))
            } else if nsfw is Err {
                Err(PackageFlaw::Own(nsfw->Err_0))
            } else if sources is Err {
                Err(sources->Err_0)
            } else {
                Ok(
                    PackageView {
                        name: name->Ok_0,
                        pkg: pkg->Ok_0,
                        apk: apk->Ok_0,
                        lang: lang->Ok_0,
                        code: code->Ok_0,
                        version: version->Ok_0,
                        nsfw: nsfw->Ok_0,
                        sources: sources->Ok_0,
                    },
                )
            }
        },
        _ => Err(PackageFlaw::Own(Flaw::NotAnObject)),
    }
}

/// The flaw of package `index` as an error of the whole manifest.
pub open spec fn located(index: int, flaw: PackageFlaw) -> DecodeError {
    match flaw {
        PackageFlaw::Own(flaw) => DecodeError::Package { index: index as usize, flaw },
        PackageFlaw::InSource { index: source, flaw } => DecodeError::Source {
            package: index as usize,
            index: source,
            flaw,
        },
    }
}

/// The packages that some JSON values stand for, or the error of the first
/// that stands for none.
pub open spec fn decoded_packages(items: Seq<JsonValue>) -> Result<Seq<PackageView>, DecodeError>
    decreases items.len(),
{
    if items.len() == 0 {
        Ok(Seq::empty())
    } else {
        match decoded_packages(items.drop_last()) {
            Err(e) => Err(e),
            Ok(before) => match decoded_package(items.last()) {
                Ok(package) => Ok(before.push(package)),
                Err(flaw) => Err(located(items.len() - 1, flaw)),
            },
        }
    }
}

/// The manifest that a JSON document stands for: no partial manifest, the
/// whole or an error.
pub open spec fn decoded_manifest(document: JsonValue) -> Result<Seq<PackageView>, DecodeError> {
    match document {
        JsonValue::Array(items) => decoded_packages(items),
        _ => Err(DecodeError::NotAnArray),
    }
}

/// The JSON object of a source.
pub open spec fn encoded_source(source: SourceView) -> JsonValue {
    JsonValue::Object(
        seq![
            (key_of(Member::Name), JsonValue::Text(source.name)),
            (key_of(Member::Lang), JsonValue::Text(source.lang)),
            (key_of(Member::Id), JsonValue::Text(source.id)),
            (key_of(Member::BaseUrl), JsonValue::Text(source.base_url)),
        ],
    )
}

/// The JSON array of some sources.
pub open spec fn encoded_sources(sources: Seq<SourceView>) -> Seq<JsonValue> {
    Seq::new(sources.len(), |i: int| encoded_source(sources[i]))
}

/// The JSON object of a package.
pub open spec fn encoded_package(package: PackageView) -> JsonValue {
    JsonValue::Object(
        seq![
            (key_of(Member::Name), JsonValue::Text(package.name)),
            (key_of(Member::Pkg), JsonValue::Text(package.pkg)),
            (key_of(Member::Apk), JsonValue::Text(package.apk)),
            (key_of(Member::Lang), JsonValue::Text(package.lang)),
            (key_of(Member::Code), JsonValue::Number(Some(package.code))),
            (key_of(Member::Version), JsonValue::Text(package.version)),
            (key_of(Member::Nsfw), JsonValue::Number(Some(package.nsfw))),
            (key_of(Member::Sources), JsonValue::Array(encoded_sources(package.sources))),
        ],
    )
}

/// The JSON array of some packages.
pub open spec fn encoded_packages(packages: Seq<PackageView>) -> Seq<JsonValue> {
    Seq::new(packages.len(), |i: int| encoded_package(packages[i]))
}

/// The JSON document of a manifest.
pub open spec fn encoded_manifest(manifest: Seq<PackageView>) -> JsonValue {
    JsonValue::Array(encoded_packages(manifest))
}

/// No two members share a key.
pub proof fn lemma_keys_differ(a: Member, b: Member)
    ensures
        key_of(a) == key_of(b) <==> a == b,
{
    reveal_strlit("name");
    reveal_strlit("pkg");
    reveal_strlit("apk");
    reveal_strlit("lang");
    reveal_strlit("code");
    reveal_strlit("version");
    reveal_strlit("nsfw");
    reveal_strlit("sources");
    reveal_strlit("id");
    reveal_strlit("baseUrl");
    assert("name"@[0] == 'n' && "name"@[1] == 'a');
    assert("pkg"@[0] == 'p');
    assert("apk"@[0] == 'a');
    assert("lang"@[0] == 'l');
    assert("code"@[0] == 'c');
    assert("version"@[0] == 'v');
    assert("nsfw"@[0] == 'n' && "nsfw"@[1] == 's');
    assert("sources"@[0] == 's');
    assert("id"@[0] == 'i');
    assert("baseUrl"@[0] == 'b');
}

/// Reading what was written for a source gives the source back.
pub proof fn lemma_source_round_trip(source: SourceView)
    ensures
        decoded_source(encoded_source(source)) == Ok::<SourceView, Flaw>(source),
{
    reveal_with_fuel(find_member, 5);
    lemma_keys_differ(Member::Name, Member::Lang);
    lemma_keys_differ(Member::Name, Member::Id);
    lemma_keys_differ(Member::Name, Member::BaseUrl);
    lemma_keys_differ(Member::Lang, Member::Id);
    lemma_keys_differ(Member::Lang, Member::BaseUrl);
    lemma_keys_differ(Member::Id, Member::BaseUrl);
}

/// Reading what was written for some sources gives the sources back.
pub proof fn lemma_sources_round_trip(sources: Seq<SourceView>)
    ensures
        decoded_sources(encoded_sources(sources)) == Ok::<Seq<SourceView>, (int, Flaw)>(sources),
    decreases sources.len(),
{
    if sources.len() == 0 {
        assert(sources =~= Seq::empty());
    } else {
        lemma_sources_round_trip(sources.drop_last());
        lemma_source_round_trip(sources.last());
        assert(encoded_sources(sources).drop_last() =~= encoded_sources(sources.drop_last()));
        assert(sources.drop_last().push(sources.last()) =~= sources);
    }
}

/// Reading what was written for a package gives the package back.
pub proof fn lemma_package_round_trip(package: PackageView)
    ensures
        decoded_package(encoded_package(package)) == Ok::<PackageView, PackageFlaw>(package),
{
    reveal_with_fuel(find_member, 9);
    lemma_sources_round_trip(package.sources);
    assert forall|a: Member, b: Member| key_of(a) == key_of(b) implies a == b by {
        lemma_keys_differ(a, b);
    }
}

/// Reading what was written for some packages gives the packages back.
pub proof fn lemma_packages_round_trip(packages: Seq<PackageView>)
    ensures
        decoded_packages(encoded_packages(packages)) == Ok::<Seq<PackageView>, DecodeError>(
            packages,
        ),
    decreases packages.len(),
{
    if packages.len() == 0 {
        assert(packages =~= Seq::empty());
    } else {
        lemma_packages_round_trip(packages.drop_last());
        lemma_package_round_trip(packages.last());
        assert(encoded_packages(packages).drop_last() =~= encoded_packages(packages.drop_last()));
        assert(packages.drop_last().push(packages.last()) =~= packages);
    }
}

/// Round trip: the document that is written for a manifest reads back as
/// that manifest, package for package and source for source.
pub proof fn lemma_manifest_round_trip(manifest: Seq<PackageView>)
    ensures
        decoded_manifest(encoded_manifest(manifest)) == Ok::<Seq<PackageView>, DecodeError>(
            manifest,
        ),
{
    lemma_packages_round_trip(manifest);
}

/// The text of a member that must be text.
fn text_of(members: &Vec<(String, Json)>, m: Member) -> (text: Result<String, Flaw>)
    ensures
        ok_view(text) == text_member(members_view(members@), m),
{
    match get_member(members, key(m)) {
        None => Err(Flaw::Missing(m)),
        Some(Json::Text(text)) => Ok(text.clone()),
        Some(_) => Err(Flaw::Mistyped(m)),
    }
}

/// The value of a member that must be an integer.
fn integer_of(members: &Vec<(String, Json)>, m: Member) -> (n: Result<i64, Flaw>)
    ensures
        n == integer_member(members_view(members@), m),
{
    match get_member(members, key(m)) {
        None => Err(Flaw::Missing(m)),
        Some(Json::Number(Some(n))) => Ok(*n),
        Some(_) => Err(Flaw::Mistyped(m)),
    }
}

/// Reads a source from its JSON object.
pub fn decode_source(value: &Json) -> (source: Result<Source, Flaw>)
    ensures
        ok_view(source) == decoded_source(value@),
{
    match value {
        Json::Object(members) => {
            proof {
                lemma_object_view(*members);
            }
            let name = match text_of(members, Member::Name) {
                Ok(text) => text,
                Err(flaw) => {
                    return Err(flaw);
                },
            };
            let lang = match text_of(members, Member::Lang) {
                Ok(text) => text,
                Err(flaw) => {
                    return Err(flaw);
                },
            };
            let id = match text_of(members, Member::Id) {
                Ok(text) => text,
                Err(flaw) => {
                    return Err(flaw);
                },
            };
            let base_url = match text_of(members, Member::BaseUrl) {
                Ok(text) => text,
                Err(flaw) => {
                    return Err(flaw);
                },
            };
            Ok(Source { name, lang, id, base_url })
        },
        _ => Err(Flaw::NotAnObject),
    }
}

/// Reading one item more either appends its source or gives its flaw.
proof fn lemma_sources_step(items: Seq<JsonValue>, i: int)
    requires
        0 <= i < items.len(),
    ensures
        decoded_sources(items.take(i + 1)) == (match decoded_sources(items.take(i)) {
            Err(e) => Err(e),
            Ok(before) => match decoded_source(items[i]) {
                Ok(source) => Ok(before.push(source)),
                Err(flaw) => Err((i, flaw)),
            },
        }),
{
    assert(items.take(i + 1).drop_last() =~= items.take(i));
}

/// An error among the first items is the error of all of them.
proof fn lemma_sources_error_stays(items: Seq<JsonValue>, k: int)
    requires
        0 <= k <= items.len(),
        decoded_sources(items.take(k)) is Err,
    ensures
        decoded_sources(items) == decoded_sources(items.take(k)),
    decreases items.len() - k,
{
    if k == items.len() {
        assert(items.take(k) =~= items);
    } else {
        lemma_sources_step(items, k);
        lemma_sources_error_stays(items, k + 1);
    }
}

/// Reads the sources of a package from the items of its `sources` array.
pub fn decode_sources(items: &Vec<Json>) -> (sources: Result<Vec<Source>, (usize, Flaw)>)
    ensures
        (match sources {
            Ok(read) => decoded_sources(items_view(items@)) == Ok::<Seq<SourceView>, (int, Flaw)>(
                read.deep_view(),
            ),
            Err((index, flaw)) => decoded_sources(items_view(items@)) == Err::<
                Seq<SourceView>,
                (int, Flaw),
            >((index as int, flaw)),
        }),
{
    let ghost all = items_view(items@);
    let mut read: Vec<Source> = Vec::new();
    let mut i: usize = 0;
    assert(read.deep_view() =~= Seq::empty());
    while i < items.len()
        invariant
            i <= items.len(),
            all == items_view(items@),
            decoded_sources(all.take(i as int)) == Ok::<Seq<SourceView>, (int, Flaw)>(
                read.deep_view(),
            ),
        decreases items.len() - i,
    {
        proof {
            lemma_sources_step(all, i as int);
        }
        match decode_source(&items[i]) {
            Ok(source) => {
                let ghost before = read.deep_view();
                read.push(source);
                assert(read.deep_view() =~= before.push(source@));
            },
            Err(flaw) => {
                proof {
                    lemma_sources_error_stays(all, i + 1);
                }
                return Err((i, flaw));
            },
        }
        i += 1;
    }
    assert(all.take(items.len() as int) =~= all);
    Ok(read)
}

/// Reads the sources of a package object.
fn sources_of(members: &Vec<(String, Json)>) -> (sources: Result<Vec<Source>, PackageFlaw>)
    ensures
        ok_deep_view(sources) == sources_member(members_view(members@)),
{
    match get_member(members, key(Member::Sources)) {
        None => Err(PackageFlaw::Own(Flaw::Missing(Member::Sources))),
        Some(Json::Array(items)) => {
            proof {
                lemma_array_view(*items);
            }
            match decode_sources(items) {
                Ok(sources) => Ok(sources),
                Err((index, flaw)) => Err(PackageFlaw::InSource { index, flaw }),
            }
        },
        Some(_) => Err(PackageFlaw::Own(Flaw::Mistyped(Member::Sources))),
    }
}

/// Reads a package from its JSON object.
pub fn decode_package(value: &Json) -> (package: Result<TachiyomiPkg, PackageFlaw>)
    ensures
        ok_view(package) == decoded_package(value@),
{
    match value {
        Json::Object(members) => {
            proof {
                lemma_object_view(*members);
            }
            let name = match text_of(members, Member::Name) {
                Ok(text) => text,
                Err(flaw) => {
                    return Err(PackageFlaw::Own(flaw));
                },
            };
            let pkg = match text_of(members, Member::Pkg) {
                Ok(text) => text,
                Err(flaw) => {
                    return Err(PackageFlaw::Own(flaw));
                },
            };
            let apk = match text_of(members, Member::Apk) {
                Ok(text) => text,
                Err(flaw) => {
                    return Err(PackageFlaw::Own(flaw));
                },
            };
            let lang = match text_of(members, Member::Lang) {
                Ok(text) => text,
                Err(flaw) => {
                    return Err(PackageFlaw::Own(flaw));
                },
            };
            let code = match integer_of(members, Member::Code) {
                Ok(n) => n,
                Err(flaw) => {
                    return Err(PackageFlaw::Own(flaw));
                },
            };
            let version = match text_of(members, Member::Version) {
                Ok(text) => text,
                Err(flaw) => {
                    return Err(PackageFlaw::Own(flaw));
                },
            };
            let nsfw = match integer_of(members, Member::Nsfw) {
                Ok(n) => n,
                Err(flaw) => {
                    return Err(PackageFlaw::Own(flaw));
                },
            };
            let sources = match sources_of(members) {
                Ok(sources) => sources,
                Err(flaw) => {
                    return Err(flaw);
                },
            };
            Ok(TachiyomiPkg { name, pkg, apk, lang, code, version, nsfw, sources })
        },
        _ => Err(PackageFlaw::Own(Flaw::NotAnObject)),
    }
}

/// Reading one item more either appends its package or gives its error.
proof fn lemma_packages_step(items: Seq<JsonValue>, i: int)
    requires
        0 <= i < items.len(),
    ensures
        decoded_packages(items.take(i + 1)) == (match decoded_packages(items.take(i)) {
            Err(e) => Err(e),
            Ok(before) => match decoded_package(items[i]) {
                Ok(package) => Ok(before.push(package)),
                Err(flaw) => Err(located(i, flaw)),
            },
        }),
{
    assert(items.take(i + 1).drop_last() =~= items.take(i));
}

/// An error among the first items is the error of all of them.
proof fn lemma_packages_error_stays(items: Seq<JsonValue>, k: int)
    requires
        0 <= k <= items.len(),
        decoded_packages(items.take(k)) is Err,
    ensures
        decoded_packages(items) == decoded_packages(items.take(k)),
    decreases items.len() - k,
{
    if k == items.len() {
        assert(items.take(k) =~= items);
    } else {
        lemma_packages_step(items, k);
        lemma_packages_error_stays(items, k + 1);
    }
}

/// Reads a manifest from a JSON document: every package of the array with
/// every source, or the first flaw and nothing else.
pub fn decode_manifest(document: &Json) -> (manifest: Result<Vec<TachiyomiPkg>, DecodeError>)
    ensures
        ok_deep_view(manifest) == decoded_manifest(document@),
{
    match document {
        Json::Array(items) => {
            proof {
                lemma_array_view(*items);
            }
            let ghost all = items_view(items@);
            let mut read: Vec<TachiyomiPkg> = Vec::new();
            let mut i: usize = 0;
            assert(read.deep_view() =~= Seq::empty());
            while i < items.len()
                invariant
                    i <= items.len(),
                    all == items_view(items@),
                    document@ == JsonValue::Array(all),
                    decoded_packages(all.take(i as int)) == Ok::<Seq<PackageView>, DecodeError>(
                        read.deep_view(),
                    ),
                decreases items.len() - i,
            {
                proof {
                    lemma_packages_step(all, i as int);
                }
                match decode_package(&items[i]) {
                    Ok(package) => {
                        let ghost before = read.deep_view();
                        read.push(package);
                        assert(read.deep_view() =~= before.push(package@));
                    },
                    Err(flaw) => {
                        proof {
                            lemma_packages_error_stays(all, i + 1);
                        }
                        return Err(
                            match flaw {
                                PackageFlaw::Own(flaw) => DecodeError::Package { index: i, flaw },
                                PackageFlaw::InSource { index, flaw } => DecodeError::Source {
                                    package: i,
                                    index,
                                    flaw,
                                },
                            },
                        );
                    },
                }
                i += 1;
            }
            assert(all.take(items.len() as int) =~= all);
            Ok(read)
        },
        _ => Err(DecodeError::NotAnArray),
    }
}

/// Writes a source as its JSON object.
pub fn encode_source(source: &Source) -> (value: Json)
    ensures
        value@ == encoded_source(source@),
{
    let mut members: Vec<(String, Json)> = Vec::new();
    members.push((key(Member::Name).to_owned(), Json::Text(source.name.clone())));
    members.push((key(Member::Lang).to_owned(), Json::Text(source.lang.clone())));
    members.push((key(Member::Id).to_owned(), Json::Text(source.id.clone())));
    members.push((key(Member::BaseUrl).to_owned(), Json::Text(source.base_url.clone())));
    proof {
        lemma_object_view(members);
        assert(members_view(members@) =~= encoded_source(source@)->Object_0);
    }
    Json::Object(members)
}

/// Writes some sources as the items of a JSON array.
pub fn encode_sources(sources: &Vec<Source>) -> (items: Vec<Json>)
    ensures
        items_view(items@) == encoded_sources(sources.deep_view()),
{
    let mut items: Vec<Json> = Vec::new();
    let mut i: usize = 0;
    while i < sources.len()
        invariant
            i <= sources.len(),
            items.len() == i,
            forall|j: int| 0 <= j < i ==> (#[trigger] items@[j])@ == encoded_source(sources@[j]@),
        decreases sources.len() - i,
    {
        items.push(encode_source(&sources[i]));
        i += 1;
    }
    items
}

/// Writes a package as its JSON object.
pub fn encode_package(package: &TachiyomiPkg) -> (value: Json)
    ensures
        value@ == encoded_package(package@),
{
    let sources = encode_sources(&package.sources);
    proof {
        lemma_array_view(sources);
    }
    let mut members: Vec<(String, Json)> = Vec::new();
    members.push((key(Member::Name).to_owned(), Json::Text(package.name.clone())));
    members.push((key(Member::Pkg).to_owned(), Json::Text(package.pkg.clone())));
    members.push((key(Member::Apk).to_owned(), Json::Text(package.apk.clone())));
    members.push((key(Member::Lang).to_owned(), Json::Text(package.lang.clone())));
    members.push((key(Member::Code).to_owned(), Json::Number(Some(package.code))));
    members.push((key(Member::Version).to_owned(), Json::Text(package.version.clone())));
    members.push((key(Member::Nsfw).to_owned(), Json::Number(Some(package.nsfw))));
    members.push((key(Member::Sources).to_owned(), Json::Array(sources)));
    proof {
        lemma_object_view(members);
        assert(members_view(members@) =~= encoded_package(package@)->Object_0);
    }
    Json::Object(members)
}

/// Writes a manifest as a JSON document: the array of its packages, each
/// with all its members.
pub fn encode_manifest(manifest: &Vec<TachiyomiPkg>) -> (document: Json)
    ensures
        document@ == encoded_manifest(manifest.deep_view()),
{
    let mut items: Vec<Json> = Vec::new();
    let mut i: usize = 0;
    while i < manifest.len()
        invariant
            i <= manifest.len(),
            items.len() == i,
            forall|j: int| 0 <= j < i ==> (#[trigger] items@[j])@ == encoded_package(manifest@[j]@),
        decreases manifest.len() - i,
    {
        items.push(encode_package(&manifest[i]));
        i += 1;
    }
    proof {
        lemma_array_view(items);
        assert(items_view(items@) =~= encoded_packages(manifest.deep_view()));
    }
    Json::Array(items)
}

/// The manifest that a text stands for: the text must be JSON, and the JSON
/// a manifest.
pub open spec fn manifest_of(parsed: Result<JsonValue, Seq<char>>) -> Result<
    Seq<PackageView>,
    MirrorErrorView,
> {
    match parsed {
        Err(reason) => Err(MirrorErrorView::ManifestSyntax { reason }),
        Ok(document) => match decoded_manifest(document) {
            Ok(manifest) => Ok(manifest),
            Err(cause) => Err(MirrorErrorView::ManifestDecode { cause }),
        },
    }
}

/// The manifest that a text stands for.
pub open spec fn manifest_of_text(text: Seq<char>) -> Result<Seq<PackageView>, MirrorErrorView> {
    manifest_of(json_document(text))
}

/// What writing a manifest gives: the text, or why there is none.
pub open spec fn text_from(written: Result<Seq<char>, Seq<char>>) -> Result<
    Seq<char>,
    MirrorErrorView,
> {
    match written {
        Ok(text) => Ok(text),
        Err(reason) => Err(MirrorErrorView::ManifestWrite { reason }),
    }
}

/// The text of a manifest.
pub open spec fn text_of_manifest(manifest: Seq<PackageView>) -> Result<
    Seq<char>,
    MirrorErrorView,
> {
    text_from(json_text(encoded_manifest(manifest)))
}

/// Reads a manifest from what parsing its text gave.
pub fn manifest_from(parsed: Result<Json, String>) -> (manifest: Result<
    Vec<TachiyomiPkg>,
    MirrorError,
>)
    ensures
        deep_result_view(manifest) == manifest_of(result_view(parsed)),
{
    match parsed {
        Err(reason) => Err(MirrorError::ManifestSyntax { reason }),
        Ok(document) => match decode_manifest(&document) {
            Ok(manifest) => Ok(manifest),
            Err(cause) => Err(MirrorError::ManifestDecode { cause }),
        },
    }
}

/// Reads a manifest from its text.
pub fn read_manifest(text: &str) -> (manifest: Result<Vec<TachiyomiPkg>, MirrorError>)
    ensures
        deep_result_view(manifest) == manifest_of_text(text@),
{
    manifest_from(read_document(text))
}

/// Says what writing a document gave for the manifest.
pub fn text_written(written: Result<String, String>) -> (text: Result<String, MirrorError>)
    ensures
        result_view(text) == text_from(result_view(written)),
{
    match written {
        Ok(text) => Ok(text),
        Err(reason) => Err(MirrorError::ManifestWrite { reason }),
    }
}

/// The document of a manifest is nested four deep: the array of packages,
/// a package, its array of sources, a source.
pub proof fn lemma_manifest_is_shallow(manifest: Seq<PackageView>)
    ensures
        nested_within(encoded_manifest(manifest), 4),
{
    reveal_with_fuel(nested_within, 5);
    assert forall|i: int| 0 <= i < manifest.len() implies nested_within(
        #[trigger] encoded_packages(manifest)[i],
        3,
    ) by {
        let package = manifest[i];
        let members = encoded_package(package)->Object_0;
        assert forall|j: int| 0 <= j < members.len() implies nested_within(
            (#[trigger] members[j]).1,
            2,
        ) by {
            if j == 7 {
                let sources = encoded_sources(package.sources);
                assert forall|k: int| 0 <= k < sources.len() implies nested_within(
                    #[trigger] sources[k],
                    1,
                ) by {
                    let leaves = encoded_source(package.sources[k])->Object_0;
                    assert forall|l: int| 0 <= l < leaves.len() implies nested_within(
                        (#[trigger] leaves[l]).1,
                        0,
                    ) by {}
                }
            }
        }
    }
}

/// Writes a manifest as text.
pub fn write_manifest(manifest: &Vec<TachiyomiPkg>) -> (text: Result<String, MirrorError>)
    ensures
        result_view(text) == text_of_manifest(manifest.deep_view()),
{
    let document = encode_manifest(manifest);
    proof {
        lemma_manifest_is_shallow(manifest.deep_view());
        lemma_nested_within_more(document@, 4, WRITE_DEPTH as nat);
    }
    text_written(write_document(&document))
}

} // verus!
