//! The manifest model: packages and the sources they offer.

use vstd::prelude::*;

verus! {

/// One content source offered by a package.
#[derive(Debug, Clone, PartialEq, Eq)]
pub struct Source {
    pub name: String,
    pub lang: String,
    pub id: String,
    pub base_url: String,
}

/// One package of the catalog, with its sources in manifest order.
#[derive(Debug, Clone, PartialEq, Eq)]
pub struct TachiyomiPkg {
    pub name: String,
    pub pkg: String,
    pub apk: String,
    pub lang: String,
    pub code: i64,
    pub version: String,
    pub nsfw: i64,
    pub sources: Vec<Source>,
}

/// What a [`Source`] holds, as mathematical values.
pub struct SourceView {
    pub name: Seq<char>,
    pub lang: Seq<char>,
    pub id: Seq<char>,
    pub base_url: Seq<char>,
}

/// What a [`TachiyomiPkg`] holds, as mathematical values.
pub struct PackageView {
    pub name: Seq<char>,
    pub pkg: Seq<char>,
    pub apk: Seq<char>,
    pub lang: Seq<char>,
    pub code: i64,
    pub version: Seq<char>,
    pub nsfw: i64,
    pub sources: Seq<SourceView>,
}

impl View for Source {
    type V = SourceView;

    open spec fn view(&self) -> SourceView {
        SourceView { name: self.name@, lang: self.lang@, id: self.id@, base_url: self.base_url@ }
    }
}

impl DeepView for Source {
    type V = SourceView;

    open spec fn deep_view(&self) -> SourceView {
        self.view()
    }
}

impl View for TachiyomiPkg {
    type V = PackageView;

    open spec fn view(&self) -> PackageView {
        PackageView {
            name: self.name@,
            pkg: self.pkg@,
            apk: self.apk@,
            lang: self.lang@,
            code: self.code,
            version: self.version@,
            nsfw: self.nsfw,
            sources: self.sources.deep_view(),
        }
    }
}

impl DeepView for TachiyomiPkg {
    type V = PackageView;

    open spec fn deep_view(&self) -> PackageView {
        self.view()
    }
}

impl Source {
    /// A copy that owns its own strings.
    pub fn duplicate(&self) -> (copy: Source)
        ensures
            copy@ == self@,
    {
        Source {
            name: self.name.clone(),
            lang: self.lang.clone(),
            id: self.id.clone(),
            base_url: self.base_url.clone(),
        }
    }
}

impl Default for Source {
    fn default() -> (empty: Source)
        ensures
            empty@ == (SourceView {
                name: Seq::empty(),
                lang: Seq::empty(),
                id: Seq::empty(),
                base_url: Seq::empty(),
            }),
    {
        Source {
            name: String::new(),
            lang: String::new(),
            id: String::new(),
            base_url: String::new(),
        }
    }
}

impl Default for TachiyomiPkg {
    fn default() -> (empty: TachiyomiPkg)
        ensures
            empty@ == (PackageView {
                name: Seq::empty(),
                pkg: Seq::empty(),
                apk: Seq::empty(),
                lang: Seq::empty(),
                code: 0,
                version: Seq::empty(),
                nsfw: 0,
                sources: Seq::empty(),
            }),
    {
        let sources: Vec<Source> = Vec::new();
        assert(sources.deep_view() =~= Seq::empty());
        TachiyomiPkg {
            name: String::new(),
            pkg: String::new(),
            apk: String::new(),
            lang: String::new(),
            code: 0,
            version: String::new(),
            nsfw: 0,
            sources,
        }
    }
}

} // verus!
