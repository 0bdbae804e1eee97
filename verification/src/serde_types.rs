//! Dependency descriptions (platforms and libraries) and the list of installed platforms.
use vstd::prelude::*;

use crate::error::CompileSketchesError;
use crate::paths::{file_name_of, path_file_name};
use crate::text::{ends_with, find_char_from, same_text, starts_with, str_ends_with, str_starts_with};

verus! {

// ---------------------------------------------------------------------------------------
// Outside calls
// ---------------------------------------------------------------------------------------

/// The path component of the URL that `url::Url::parse` makes of `url` (`None` when
/// `url` is not a valid absolute URL).
pub uninterp spec fn url_path_of(url: Seq<char>) -> Option<Seq<char>>;

/// A URL parse error of the `url` crate.
#[verifier::external_type_specification]
#[verifier::external_body]
pub struct ExUrlParseError(url::ParseError);

/// The path of the URL `url`, or the parse error when it does not parse.
///
/// Trusted: calls `url::Url::parse` and reads the parsed URL's path with `Url::path`; the
/// contract only names the result.
#[verifier::external_body]
pub(crate) fn parse_url_path(url: &str) -> (r: Result<String, url::ParseError>)
    ensures
        match r {
            Ok(p) => url_path_of(url@) == Some(p@),
            Err(_) => url_path_of(url@) is None,
        },
{
    url::Url::parse(url).map(|u| u.path().to_string())
}

// ---------------------------------------------------------------------------------------
// Dependency entries
// ---------------------------------------------------------------------------------------

/// A dependency fetched with the Board Manager or the Library Manager.
#[derive(Debug, Clone)]
pub struct ManagerEntry {
    /// The name of the dependency (`vendor:arch` for platforms, e.g. `arduino:avr`; the
    /// Library Manager name for libraries, e.g. `Adafruit_BME280`).
    pub name: String,
    /// The version of the dependency (e.g. `1.8.19`).
    pub version: Option<String>,
    /// The (optional) URL of the dependency source.
    pub source_url: Option<String>,
}

/// A dependency specified as a local path.
#[derive(Debug, Clone)]
pub struct PathEntry {
    /// The path to the dependency source.
    pub source_path: String,
    /// The name of the dependency (required for platforms, in the form `vendor:arch`; for
    /// libraries, the destination name of the installation).
    pub name: Option<String>,
}

/// A dependency specified as a git repository.
#[derive(Debug, Clone)]
pub struct RepoEntry {
    /// The URL of the dependency source.
    pub source_url: String,
    /// The version (git ref) of the dependency.
    pub version: Option<String>,
    /// The (optional) path of the dependency inside the repository.
    pub source_path: Option<String>,
    /// The (optional) name of the destination directory (required for platforms).
    pub destination_name: Option<String>,
}

/// A dependency specified as a direct download.
#[derive(Debug, Clone)]
pub struct DownloadEntry {
    /// The URL of the dependency source.
    pub source_url: String,
    /// The (optional) path of the dependency inside the archive.
    pub source_path: Option<String>,
    /// The (optional) name of the destination directory (required for platforms).
    pub destination_name: Option<String>,
}

/// An empty string.
fn empty_string() -> (s: String)
    ensures
        s@ == Seq::<char>::empty(),
{
    String::new()
}

impl Default for ManagerEntry {
    fn default() -> (r: Self)
        ensures
            r.name@ == Seq::<char>::empty(),
            r.version is None,
            r.source_url is None,
    {
        ManagerEntry { name: empty_string(), version: None, source_url: None }
    }
}

impl Default for PathEntry {
    fn default() -> (r: Self)
        ensures
            r.source_path@ == Seq::<char>::empty(),
            r.name is None,
    {
        PathEntry { source_path: empty_string(), name: None }
    }
}

impl Default for RepoEntry {
    fn default() -> (r: Self)
        ensures
            r.source_url@ == Seq::<char>::empty(),
            r.version is None,
            r.source_path is None,
            r.destination_name is None,
    {
        RepoEntry {
            source_url: empty_string(),
            version: None,
            source_path: None,
            destination_name: None,
        }
    }
}

impl Default for DownloadEntry {
    fn default() -> (r: Self)
        ensures
            r.source_url@ == Seq::<char>::empty(),
            r.source_path is None,
            r.destination_name is None,
    {
        DownloadEntry { source_url: empty_string(), source_path: None, destination_name: None }
    }
}

/// What a [`ManagerEntry`] holds.
pub ghost struct ManagerEntryView {
    pub name: Seq<char>,
    pub version: Option<Seq<char>>,
    pub source_url: Option<Seq<char>>,
}

/// What a [`PathEntry`] holds.
pub ghost struct PathEntryView {
    pub source_path: Seq<char>,
    pub name: Option<Seq<char>>,
}

/// What a [`RepoEntry`] holds.
pub ghost struct RepoEntryView {
    pub source_url: Seq<char>,
    pub version: Option<Seq<char>>,
    pub source_path: Option<Seq<char>>,
    pub destination_name: Option<Seq<char>>,
}

/// What a [`DownloadEntry`] holds.
pub ghost struct DownloadEntryView {
    pub source_url: Seq<char>,
    pub source_path: Option<Seq<char>>,
    pub destination_name: Option<Seq<char>>,
}

/// The view of an optional string.
pub open spec fn opt_view(o: Option<String>) -> Option<Seq<char>> {
    match o {
        Some(s) => Some(s@),
        None => None,
    }
}

impl View for ManagerEntry {
    type V = ManagerEntryView;

    open spec fn view(&self) -> ManagerEntryView {
        ManagerEntryView {
            name: self.name@,
            version: opt_view(self.version),
            source_url: opt_view(self.source_url),
        }
    }
}

impl View for PathEntry {
    type V = PathEntryView;

    open spec fn view(&self) -> PathEntryView {
        PathEntryView { source_path: self.source_path@, name: opt_view(self.name) }
    }
}

impl View for RepoEntry {
    type V = RepoEntryView;

    open spec fn view(&self) -> RepoEntryView {
        RepoEntryView {
            source_url: self.source_url@,
            version: opt_view(self.version),
            source_path: opt_view(self.source_path),
            destination_name: opt_view(self.destination_name),
        }
    }
}

impl View for DownloadEntry {
    type V = DownloadEntryView;

    open spec fn view(&self) -> DownloadEntryView {
        DownloadEntryView {
            source_url: self.source_url@,
            source_path: opt_view(self.source_path),
            destination_name: opt_view(self.destination_name),
        }
    }
}

/// A dependency as specified in the input YAML, classified by how it is obtained.
#[derive(Debug)]
pub enum PlatformDependency {
    /// Fetched with the Board or Library Manager.
    Manager(ManagerEntry),
    /// Installed from a local path.
    Path(PathEntry),
    /// Cloned from a git repository.
    Repo(RepoEntry),
    /// Downloaded as an archive.
    Download(DownloadEntry),
}

/// What a [`PlatformDependency`] holds.
pub ghost enum DependencyView {
    Manager(ManagerEntryView),
    Path(PathEntryView),
    Repo(RepoEntryView),
    Download(DownloadEntryView),
}

impl View for PlatformDependency {
    type V = DependencyView;

    open spec fn view(&self) -> DependencyView {
        match self {
            PlatformDependency::Manager(m) => DependencyView::Manager(m@),
            PlatformDependency::Path(p) => DependencyView::Path(p@),
            PlatformDependency::Repo(r) => DependencyView::Repo(r@),
            PlatformDependency::Download(d) => DependencyView::Download(d@),
        }
    }
}

/// The keys and values of one YAML mapping.
pub type PairsView = Seq<(Seq<char>, Seq<char>)>;

/// One YAML mapping of the dependency list: its keys and values.
#[derive(Debug)]
pub struct DepMapping {
    /// The (key, value) pairs of the mapping.
    pub entries: Vec<(String, String)>,
}

/// The views of (key, value) pairs.
pub open spec fn pairs_view(entries: Seq<(String, String)>) -> PairsView {
    entries.map_values(|p: (String, String)| (p.0@, p.1@))
}

impl View for DepMapping {
    type V = PairsView;

    open spec fn view(&self) -> PairsView {
        pairs_view(self.entries@)
    }
}

/// The value of the first pair with key `key`.
pub open spec fn lookup(entries: PairsView, key: Seq<char>) -> Option<Seq<char>>
    decreases entries.len(),
{
    if entries.len() == 0 {
        None
    } else if entries[0].0 == key {
        Some(entries[0].1)
    } else {
        lookup(entries.drop_first(), key)
    }
}

/// `a`, or `b` when `a` is `None`.
pub open spec fn or_else<T>(a: Option<T>, b: Option<T>) -> Option<T> {
    match a {
        Some(x) => Some(x),
        None => b,
    }
}

/// A URL whose last path component is a Board Manager index file `package_*index.json`.
pub open spec fn is_package_index_url(url: Seq<char>) -> bool {
    match url_path_of(url) {
        Some(path) => match file_name_of(path) {
            Some(f) => ends_with(f, "index.json"@) && starts_with(f, "package_"@),
            None => false,
        },
        None => false,
    }
}

/// A name of the form `vendor:arch...`: its first `:` is neither its first nor its last
/// character.
pub open spec fn has_inner_colon(name: Seq<char>) -> bool {
    let k = find_char_from(name, 0, ':');
    0 < k && k < name.len() - 1
}

/// The classification of a dependency mapping (`None`: none of the identifying keys).
///
/// - with a `source-url` (or `url`): a repository when it starts with `git://` or ends with
///   `.git`; a manager platform when it is a `package_*index.json` URL and a `name` of the
///   form `vendor:arch` is given; a download otherwise;
/// - with a `source-path`: a local path;
/// - with a `name`: a manager dependency.
pub open spec fn classify(m: PairsView) -> Option<DependencyView> {
    match or_else(lookup(m, "source-url"@), lookup(m, "url"@)) {
        Some(url) => if starts_with(url, "git://"@) || ends_with(url, ".git"@) {
            Some(
                DependencyView::Repo(
                    RepoEntryView {
                        source_url: url,
                        version: lookup(m, "version"@),
                        source_path: lookup(m, "source-path"@),
                        destination_name: or_else(
                            lookup(m, "destination-name"@),
                            lookup(m, "name"@),
                        ),
                    },
                ),
            )
        } else if is_package_index_url(url) && (lookup(m, "name"@) matches Some(n)
            && has_inner_colon(n)) {
            Some(
                DependencyView::Manager(
                    ManagerEntryView {
                        name: lookup(m, "name"@).unwrap(),
                        version: lookup(m, "version"@),
                        source_url: Some(url),
                    },
                ),
            )
        } else {
            Some(
                DependencyView::Download(
                    DownloadEntryView {
                        source_url: url,
                        source_path: lookup(m, "source-path"@),
                        destination_name: lookup(m, "destination-name"@),
                    },
                ),
            )
        },
        None => match lookup(m, "source-path"@) {
            Some(path) => Some(
                DependencyView::Path(
                    PathEntryView {
                        source_path: path,
                        name: or_else(lookup(m, "name"@), lookup(m, "destination-name"@)),
                    },
                ),
            ),
            None => match lookup(m, "name"@) {
                Some(name) => Some(
                    DependencyView::Manager(
                        ManagerEntryView {
                            name,
                            version: lookup(m, "version"@),
                            source_url: lookup(m, "source-url"@),
                        },
                    ),
                ),
                None => None,
            },
        },
    }
}

/// A key is found wherever it stands in a mapping: the lookup gives the value of the first
/// pair with that key, and gives nothing only when no pair has it.
pub proof fn law_lookup_first_match(m: PairsView, key: Seq<char>)
    ensures
        match lookup(m, key) {
            Some(v) => exists|j: int|
                0 <= j < m.len() && (#[trigger] m[j]).0 == key && m[j].1 == v && forall|k: int|
                    0 <= k < j ==> (#[trigger] m[k]).0 != key,
            None => forall|j: int| 0 <= j < m.len() ==> (#[trigger] m[j]).0 != key,
        },
    decreases m.len(),
{
    if m.len() > 0 {
        let rest = m.drop_first();
        law_lookup_first_match(rest, key);
        if m[0].0 != key {
            match lookup(rest, key) {
                Some(v) => {
                    let j = choose|j: int|
                        0 <= j < rest.len() && (#[trigger] rest[j]).0 == key && rest[j].1 == v
                            && forall|k: int| 0 <= k < j ==> (#[trigger] rest[k]).0 != key;
                    assert(m[j + 1] == rest[j]);
                    assert forall|k: int| 0 <= k < j + 1 implies (#[trigger] m[k]).0 != key by {
                        if k > 0 {
                            assert(m[k] == rest[k - 1]);
                        }
                    }
                },
                None => {
                    assert forall|j: int| 0 <= j < m.len() implies (#[trigger] m[j]).0 != key by {
                        if j > 0 {
                            assert(m[j] == rest[j - 1]);
                        }
                    }
                },
            }
        } else {
            assert(m[0].0 == key);
        }
    }
}

/// Classification keeps what the mapping says: a dependency's name, version, URL, path and
/// destination are the values of their keys in the mapping (a URL given as `source-url`,
/// else as `url`; a destination given as `destination-name` or `name` as each kind reads
/// it), and a mapping is left unclassified exactly when it has no URL, no `source-path` and
/// no `name`.
pub proof fn law_classification_keeps_values(m: PairsView)
    ensures
        classify(m) is None <==> (or_else(lookup(m, "source-url"@), lookup(m, "url"@)) is None
            && lookup(m, "source-path"@) is None && lookup(m, "name"@) is None),
        match classify(m) {
            Some(DependencyView::Manager(e)) => {
                &&& lookup(m, "name"@) == Some(e.name)
                &&& e.version == lookup(m, "version"@)
                &&& e.source_url == or_else(lookup(m, "source-url"@), lookup(m, "url"@))
            },
            Some(DependencyView::Repo(r)) => {
                &&& or_else(lookup(m, "source-url"@), lookup(m, "url"@)) == Some(r.source_url)
                &&& r.version == lookup(m, "version"@)
                &&& r.source_path == lookup(m, "source-path"@)
                &&& r.destination_name == or_else(lookup(m, "destination-name"@), lookup(m, "name"@))
            },
            Some(DependencyView::Download(d)) => {
                &&& or_else(lookup(m, "source-url"@), lookup(m, "url"@)) == Some(d.source_url)
                &&& d.source_path == lookup(m, "source-path"@)
                &&& d.destination_name == lookup(m, "destination-name"@)
            },
            Some(DependencyView::Path(p)) => {
                &&& or_else(lookup(m, "source-url"@), lookup(m, "url"@)) is None
                &&& lookup(m, "source-path"@) == Some(p.source_path)
                &&& p.name == or_else(lookup(m, "name"@), lookup(m, "destination-name"@))
            },
            None => true,
        },
{
}

impl DepMapping {
    /// The value of the first pair with key `key` (copied).
    pub fn get(&self, key: &str) -> (r: Option<String>)
        ensures
            opt_view(r) == lookup(self@, key@),
    {
        let mut i: usize = 0;
        assert(self@.skip(0) =~= self@);
        while i < self.entries.len()
            invariant
                i <= self.entries@.len(),
                lookup(self@, key@) == lookup(self@.skip(i as int), key@),
            decreases self.entries.len() - i,
        {
            assert(self@.skip(i as int).drop_first() =~= self@.skip(i + 1));
            assert(self@.skip(i as int)[0] == (self.entries@[i as int].0@, self.entries@[i as int].1@));
            if same_text(self.entries[i].0.as_str(), key) {
                return Some(self.entries[i].1.clone());
            }
            i = i + 1;
        }
        None
    }
}

/// The first `:` of `name` is neither its first nor its last character.
fn has_inner_colon_exec(name: &str) -> (r: bool)
    ensures
        r == has_inner_colon(name@),
{
    let v = crate::text::chars_of(name);
    let k = crate::text::find_char(&v, 0, ':');
    0 < k && v.len() > 0 && k < v.len() - 1
}

/// Whether `url` is a Board Manager index URL (`package_*index.json`).
fn is_package_index_url_exec(url: &str) -> (r: bool)
    ensures
        r == is_package_index_url(url@),
{
    match parse_url_path(url) {
        Ok(path) => match path_file_name(path.as_str()) {
            Some(f) => str_ends_with(f.as_str(), "index.json") && str_starts_with(
                f.as_str(),
                "package_",
            ),
            None => false,
        },
        Err(_) => false,
    }
}

impl PlatformDependency {
    /// Classifies one YAML mapping of the dependency list (see [`classify`]); a mapping
    /// with none of `source-url`, `url`, `source-path` and `name` is an error.
    pub fn try_from(value: DepMapping) -> (r: Result<PlatformDependency, CompileSketchesError>)
        ensures
            match r {
                Ok(d) => classify(value@) == Some(d@),
                Err(e) => classify(value@) is None && e is ParseDependencyMapping,
            },
    {
        let url = match value.get("source-url") {
            Some(u) => Some(u),
            None => value.get("url"),
        };
        if let Some(url) = url {
            if str_starts_with(url.as_str(), "git://") || str_ends_with(url.as_str(), ".git") {
                let destination_name = match value.get("destination-name") {
                    Some(d) => Some(d),
                    None => value.get("name"),
                };
                return Ok(
                    PlatformDependency::Repo(
                        RepoEntry {
                            source_url: url,
                            version: value.get("version"),
                            source_path: value.get("source-path"),
                            destination_name,
                        },
                    ),
                );
            }
            let name = value.get("name");
            let named_index = match &name {
                Some(n) => is_package_index_url_exec(url.as_str()) && has_inner_colon_exec(
                    n.as_str(),
                ),
                None => false,
            };
            if named_index {
                let name = name.unwrap();
                return Ok(
                    PlatformDependency::Manager(
                        ManagerEntry {
                            name,
                            version: value.get("version"),
                            source_url: Some(url),
                        },
                    ),
                );
            }
            return Ok(
                PlatformDependency::Download(
                    DownloadEntry {
                        source_url: url,
                        source_path: value.get("source-path"),
                        destination_name: value.get("destination-name"),
                    },
                ),
            );
        } else if let Some(path) = value.get("source-path") {
            let name = match value.get("name") {
                Some(n) => Some(n),
                None => value.get("destination-name"),
            };
            return Ok(PlatformDependency::Path(PathEntry { source_path: path, name }));
        } else if let Some(name) = value.get("name") {
            return Ok(
                PlatformDependency::Manager(
                    ManagerEntry {
                        name,
                        version: value.get("version"),
                        source_url: value.get("source-url"),
                    },
                ),
            );
        }
        Err(CompileSketchesError::ParseDependencyMapping)
    }
}

// ---------------------------------------------------------------------------------------
// Lists of dependencies
// ---------------------------------------------------------------------------------------

/// Lists of dependencies sorted by type (platform or library dependencies).
#[derive(Debug)]
pub struct Dependencies {
    /// Dependencies managed by the Arduino CLI (Board or Library Manager).
    pub manager: Vec<ManagerEntry>,
    /// Dependencies specified as local paths.
    pub path: Vec<PathEntry>,
    /// Dependencies specified as git repositories.
    pub repository: Vec<RepoEntry>,
    /// Dependencies specified as direct download URLs.
    pub download: Vec<DownloadEntry>,
}

/// What a [`Dependencies`] holds.
#[verifier::ext_equal]
pub ghost struct DependenciesView {
    pub manager: Seq<ManagerEntryView>,
    pub path: Seq<PathEntryView>,
    pub repository: Seq<RepoEntryView>,
    pub download: Seq<DownloadEntryView>,
}

impl View for Dependencies {
    type V = DependenciesView;

    open spec fn view(&self) -> DependenciesView {
        DependenciesView {
            manager: self.manager@.map_values(|e: ManagerEntry| e@),
            path: self.path@.map_values(|e: PathEntry| e@),
            repository: self.repository@.map_values(|e: RepoEntry| e@),
            download: self.download@.map_values(|e: DownloadEntry| e@),
        }
    }
}

/// No dependencies.
pub open spec fn no_dependencies() -> DependenciesView {
    DependenciesView {
        manager: Seq::empty(),
        path: Seq::empty(),
        repository: Seq::empty(),
        download: Seq::empty(),
    }
}

impl Default for Dependencies {
    fn default() -> (r: Self)
        ensures
            r@ == no_dependencies(),
    {
        let r = Dependencies {
            manager: Vec::new(),
            path: Vec::new(),
            repository: Vec::new(),
            download: Vec::new(),
        };
        assert(r@ =~= no_dependencies());
        r
    }
}

/// Sorts the classified dependencies of `input` into four lists, keeping input order
/// within each list (unclassifiable mappings are skipped).
pub open spec fn sort_dependencies(input: Seq<PairsView>) -> DependenciesView
    decreases input.len(),
{
    if input.len() == 0 {
        no_dependencies()
    } else {
        let d = sort_dependencies(input.drop_last());
        match classify(input.last()) {
            Some(DependencyView::Manager(m)) => DependenciesView { manager: d.manager.push(m), ..d },
            Some(DependencyView::Path(p)) => DependenciesView { path: d.path.push(p), ..d },
            Some(DependencyView::Repo(r)) => DependenciesView { repository: d.repository.push(r), ..d },
            Some(DependencyView::Download(x)) => DependenciesView { download: d.download.push(x), ..d },
            None => d,
        }
    }
}

/// Every mapping of `input` can be classified.
pub open spec fn all_classified(input: Seq<PairsView>) -> bool {
    forall|i: int| 0 <= i < input.len() ==> classify(#[trigger] input[i]) is Some
}

/// The number of dependencies in the four lists together.
pub open spec fn dependency_count(d: DependenciesView) -> nat {
    d.manager.len() + d.path.len() + d.repository.len() + d.download.len()
}

/// When every mapping can be classified, each one lands in exactly one of the four lists:
/// the lists hold as many dependencies as there are mappings.
pub proof fn law_every_mapping_sorted_once(input: Seq<PairsView>)
    requires
        all_classified(input),
    ensures
        dependency_count(sort_dependencies(input)) == input.len(),
    decreases input.len(),
{
    if input.len() > 0 {
        let rest = input.drop_last();
        assert(all_classified(rest)) by {
            assert forall|i: int| 0 <= i < rest.len() implies classify(#[trigger] rest[i]) is Some by {
                assert(rest[i] == input[i]);
            }
        }
        law_every_mapping_sorted_once(rest);
        assert(classify(input[input.len() - 1]) is Some);
    }
}

/// The views of a list of mappings.
pub open spec fn mappings_view(input: Seq<DepMapping>) -> Seq<PairsView> {
    input.map_values(|m: DepMapping| m@)
}

impl Dependencies {
    /// Whether all four lists are empty.
    pub fn is_empty(&self) -> (r: bool)
        ensures
            r == (self.manager@.len() == 0 && self.path@.len() == 0 && self.repository@.len()
                == 0 && self.download@.len() == 0),
    {
        self.manager.len() == 0 && self.path.len() == 0 && self.repository.len() == 0
            && self.download.len() == 0
    }

    /// Classifies every mapping of `input` and sorts the dependencies by type, keeping the
    /// input order within each type. Fails when a mapping cannot be classified.
    pub fn from_input(input: Vec<DepMapping>) -> (r: Result<Self, CompileSketchesError>)
        ensures
            match r {
                Ok(d) => all_classified(mappings_view(input@)) && d@ == sort_dependencies(
                    mappings_view(input@),
                ),
                Err(e) => !all_classified(mappings_view(input@)) && e is ParseDependencyMapping,
            },
    {
        let ghost whole = mappings_view(input@);
        let mut deps = Dependencies::default();
        let n = input.len();
        let ghost inp = input@;
        assert(whole.take(0) =~= Seq::<PairsView>::empty());
        for map in it: input
            invariant
                inp == it.seq(),
                whole == mappings_view(inp),
                n == inp.len(),
                it.index() <= n,
                all_classified(whole.take(it.index() as int)),
                sort_dependencies(whole.take(it.index() as int)) == deps@,
        {
            let ghost k = it.index();
            let ghost entries = map@;
            assert(entries == whole[k as int]);
            assert(whole.take(k + 1).drop_last() =~= whole.take(k as int));
            assert(whole.take(k + 1).last() == entries);
            let ghost before = deps@;
            match PlatformDependency::try_from(map) {
                Ok(PlatformDependency::Manager(m)) => {
                    deps.manager.push(m);
                    assert(deps@ =~= DependenciesView { manager: before.manager.push(m@), ..before });
                },
                Ok(PlatformDependency::Path(p)) => {
                    deps.path.push(p);
                    assert(deps@ =~= DependenciesView { path: before.path.push(p@), ..before });
                },
                Ok(PlatformDependency::Repo(r)) => {
                    deps.repository.push(r);
                    assert(deps@ =~= DependenciesView { repository: before.repository.push(r@), ..before });
                },
                Ok(PlatformDependency::Download(d)) => {
                    deps.download.push(d);
                    assert(deps@ =~= DependenciesView { download: before.download.push(d@), ..before });
                },
                Err(e) => {
                    assert(classify(whole[k as int]) is None);
                    return Err(e);
                },
            }
            assert(all_classified(whole.take(k + 1))) by {
                assert forall|j: int| 0 <= j < k + 1 implies classify(#[trigger] whole.take(k + 1)[j]) is Some by {
                    if j < k {
                        assert(whole.take(k + 1)[j] == whole.take(k as int)[j]);
                    }
                }
            }
        }
        assert(whole.take(n as int) =~= whole);
        Ok(deps)
    }
}

// ---------------------------------------------------------------------------------------
// Installed platforms
// ---------------------------------------------------------------------------------------

/// An installed platform, as listed by `arduino-cli core list --format json`.
#[derive(Debug)]
pub struct InstalledPlatform {
    /// Platform ID in the format `vendor:arch`.
    pub id: String,
    /// Installed version of the platform, e.g. "1.2.3".
    pub installed_version: String,
    /// Latest available version of the platform, e.g. "1.2.4", if known.
    pub latest_version: Option<String>,
}

/// The platforms listed by `arduino-cli core list --format json`.
#[derive(Debug)]
pub struct InstalledPlatforms {
    /// List of installed platforms.
    pub platforms: Vec<InstalledPlatform>,
}

/// The installed platform `p` satisfies the requested `version`: any version when none is
/// requested; otherwise the same version, or, for `"latest"`, an installed version that
/// equals the latest known version.
pub open spec fn version_satisfied(p: InstalledPlatform, version: Option<Seq<char>>) -> bool {
    match version {
        None => true,
        Some(v) => (v == "latest"@ && (p.latest_version matches Some(l) && l@
            == p.installed_version@)) || p.installed_version@ == v,
    }
}

/// The first platform of `ps` with ID `name` that satisfies `version`.
pub open spec fn installed_match(
    ps: Seq<InstalledPlatform>,
    name: Seq<char>,
    version: Option<Seq<char>>,
) -> Option<InstalledPlatform>
    decreases ps.len(),
{
    if ps.len() == 0 {
        None
    } else if ps[0].id@ == name && version_satisfied(ps[0], version) {
        Some(ps[0])
    } else {
        installed_match(ps.drop_first(), name, version)
    }
}

/// Asking for a particular version is stricter than asking for any: a platform found
/// installed at a requested version is found when no version is requested, with the same
/// ID.
pub proof fn law_requested_version_is_stricter(
    ps: Seq<InstalledPlatform>,
    name: Seq<char>,
    version: Seq<char>,
)
    ensures
        installed_match(ps, name, Some(version)) is Some ==> installed_match(ps, name, None) is Some,
        installed_match(ps, name, None) matches Some(p) ==> p.id@ == name,
    decreases ps.len(),
{
    if ps.len() > 0 {
        law_requested_version_is_stricter(ps.drop_first(), name, version);
    }
}

/// An installed platform is found wherever it stands in the list: the lookup gives the first
/// platform with that ID that satisfies the requested version, and gives nothing only when
/// no platform does.
pub proof fn law_installed_match_first_match(
    ps: Seq<InstalledPlatform>,
    name: Seq<char>,
    version: Option<Seq<char>>,
)
    ensures
        match installed_match(ps, name, version) {
            Some(p) => exists|j: int|
                0 <= j < ps.len() && #[trigger] ps[j] == p && p.id@ == name && version_satisfied(
                    p,
                    version,
                ) && forall|k: int|
                    0 <= k < j ==> !((#[trigger] ps[k]).id@ == name && version_satisfied(ps[k], version)),
            None => forall|j: int|
                0 <= j < ps.len() ==> !((#[trigger] ps[j]).id@ == name && version_satisfied(ps[j], version)),
        },
    decreases ps.len(),
{
    if ps.len() > 0 {
        let rest = ps.drop_first();
        law_installed_match_first_match(rest, name, version);
        if !(ps[0].id@ == name && version_satisfied(ps[0], version)) {
            match installed_match(rest, name, version) {
                Some(p) => {
                    let j = choose|j: int|
                        0 <= j < rest.len() && #[trigger] rest[j] == p && p.id@ == name
                            && version_satisfied(p, version) && forall|k: int|
                            0 <= k < j ==> !((#[trigger] rest[k]).id@ == name && version_satisfied(
                                rest[k],
                                version,
                            ));
                    assert(ps[j + 1] == rest[j]);
                    assert forall|k: int| 0 <= k < j + 1 implies !((#[trigger] ps[k]).id@ == name
                        && version_satisfied(ps[k], version)) by {
                        if k > 0 {
                            assert(ps[k] == rest[k - 1]);
                        }
                    }
                },
                None => {
                    assert forall|j: int| 0 <= j < ps.len() implies !((#[trigger] ps[j]).id@ == name
                        && version_satisfied(ps[j], version)) by {
                        if j > 0 {
                            assert(ps[j] == rest[j - 1]);
                        }
                    }
                },
            }
        } else {
            assert(ps[0] == ps[0]);
        }
    }
}

/// The view of an optional string slice.
pub open spec fn opt_str_view(o: Option<&str>) -> Option<Seq<char>> {
    match o {
        Some(s) => Some(s@),
        None => None,
    }
}

impl InstalledPlatforms {
    /// Returns `Some(installed_version)` of the first platform with ID `name` that is
    /// installed at the requested `version` (any version when `None`); `None` if there is
    /// no such platform.
    pub fn is_installed<'a>(&'a self, name: &str, version: Option<&str>) -> (r: Option<&'a str>)
        ensures
            match installed_match(self.platforms@, name@, opt_str_view(version)) {
                Some(p) => r matches Some(s) && s@ == p.installed_version@,
                None => r is None,
            },
    {
        let mut i: usize = 0;
        assert(self.platforms@.skip(0) =~= self.platforms@);
        while i < self.platforms.len()
            invariant
                i <= self.platforms@.len(),
                installed_match(self.platforms@, name@, opt_str_view(version)) == installed_match(
                    self.platforms@.skip(i as int),
                    name@,
                    opt_str_view(version),
                ),
            decreases self.platforms.len() - i,
        {
            assert(self.platforms@.skip(i as int).drop_first() =~= self.platforms@.skip(i + 1));
            let p = &self.platforms[i];
            if same_text(p.id.as_str(), name) {
                match version {
                    Some(v) => {
                        let latest_ok = same_text(v, "latest") && match &p.latest_version {
                            Some(latest) => *latest == p.installed_version,
                            None => false,
                        };
                        if latest_ok || same_text(p.installed_version.as_str(), v) {
                            return Some(p.installed_version.as_str());
                        }
                    },
                    None => {
                        return Some(p.installed_version.as_str());
                    },
                }
            }
            i = i + 1;
        }
        None
    }
}

} // verus!
