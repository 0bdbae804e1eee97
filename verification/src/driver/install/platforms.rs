//! Installation of platform dependencies.
use vstd::prelude::*;

use crate::driver::CompileSketches;
use crate::driver::install::libraries::{lib_install_args, manager_dep_name, manager_dep_name_of};
use crate::error::CompileSketchesError;
use crate::paths::{file_name_of, join_path, parent_of, path_file_name, path_join, path_parent};
use crate::serde_types::{
    installed_match, opt_view, DownloadEntry, InstalledPlatforms, ManagerEntry, ManagerEntryView,
    PathEntry, RepoEntry,
};
use crate::text::{
    chars_of, find_char, find_char_from, lemma_find_char_from, owned, push_owned, string_from_chars,
    string_views,
};

verus! {

// ---------------------------------------------------------------------------------------
// The platform of the board
// ---------------------------------------------------------------------------------------

/// The platform named by an FQBN: its first two `:`-separated parts joined by `:`
/// (`vendor:arch` of `vendor:arch:board`); `None` when the FQBN has no `:`.
pub open spec fn default_platform_name(fqbn: Seq<char>) -> Option<Seq<char>> {
    let k = find_char_from(fqbn, 0, ':');
    let k2 = find_char_from(fqbn, k + 1, ':');
    if k < fqbn.len() {
        Some(fqbn.subrange(0, k) + ":"@ + fqbn.subrange(k + 1, k2))
    } else {
        None
    }
}

/// The platform named by an FQBN (see [`default_platform_name`]).
pub fn default_platform(fqbn: &str) -> (r: Option<String>)
    ensures
        opt_view(r) == default_platform_name(fqbn@),
{
    let v = chars_of(fqbn);
    let k = find_char(&v, 0, ':');
    proof {
        lemma_find_char_from(v@, 0, ':');
    }
    if k >= v.len() {
        return None;
    }
    let k2 = find_char(&v, k + 1, ':');
    proof {
        lemma_find_char_from(v@, k + 1, ':');
    }
    let mut out: Vec<char> = Vec::new();
    let mut i: usize = 0;
    while i < k
        invariant
            i <= k < v@.len(),
            out@ == v@.subrange(0, i as int),
        decreases k - i,
    {
        out.push(v[i]);
        i = i + 1;
        assert(out@ =~= v@.subrange(0, i as int));
    }
    proof {
        reveal_strlit(":");
    }
    out.push(':');
    assert(out@ =~= v@.subrange(0, k as int) + ":"@ + v@.subrange(k + 1, k + 1));
    let mut j: usize = k + 1;
    while j < k2
        invariant
            k + 1 <= j <= k2 <= v@.len(),
            out@ == v@.subrange(0, k as int) + ":"@ + v@.subrange(k + 1, j as int),
        decreases k2 - j,
    {
        out.push(v[j]);
        j = j + 1;
        assert(out@ =~= v@.subrange(0, k as int) + ":"@ + v@.subrange(k + 1, j as int));
    }
    Some(string_from_chars(&out))
}

impl CompileSketches {
    /// When no platform dependency is given at all, adds the Board Manager platform named
    /// by the FQBN (if it names one); otherwise changes nothing.
    pub fn add_default_platform(&mut self)
        ensures
            final(self).libraries == old(self).libraries,
            final(self).sketch_compiler == old(self).sketch_compiler,
            final(self).platforms.path == old(self).platforms.path,
            final(self).platforms.repository == old(self).platforms.repository,
            final(self).platforms.download == old(self).platforms.download,
            ({
                let empty = old(self).platforms.manager@.len() == 0 && old(self).platforms.path@.len()
                    == 0 && old(self).platforms.repository@.len() == 0 && old(
                    self,
                ).platforms.download@.len() == 0;
                match default_platform_name(old(self).sketch_compiler.fqbn@) {
                    Some(n) if empty => final(self).platforms.manager@.len() == 1
                        && final(self).platforms.manager@[0]@ == ManagerEntryView {
                        name: n,
                        version: None,
                        source_url: None,
                    },
                    _ => final(self).platforms.manager == old(self).platforms.manager,
                }
            }),
    {
        if self.platforms.is_empty() {
            if let Some(name) = default_platform(self.sketch_compiler.fqbn.as_str()) {
                self.platforms.manager.push(ManagerEntry { name, version: None, source_url: None });
            }
        }
    }
}

// ---------------------------------------------------------------------------------------
// Board Manager platforms
// ---------------------------------------------------------------------------------------

/// `--additional-urls <url>` when a Board Manager URL is given.
pub open spec fn additional_urls(url: Option<Seq<char>>) -> Seq<Seq<char>> {
    match url {
        Some(u) => seq!["--additional-urls"@, u],
        None => Seq::empty(),
    }
}

/// The `arduino-cli` arguments that update the platform index for a platform.
pub open spec fn core_update_index_args(p: ManagerEntryView) -> Seq<Seq<char>> {
    seq!["core"@, "update-index"@] + additional_urls(p.source_url)
}

/// The `arduino-cli` arguments that install a platform.
pub open spec fn core_install_args(p: ManagerEntryView) -> Seq<Seq<char>> {
    seq!["core"@, "install"@] + additional_urls(p.source_url) + seq![
        manager_dep_name_of(p.name, p.version),
    ]
}

/// A Board Manager platform is installed by `arduino-cli core install` under the same name
/// a library would be (`name@version` for a pinned version other than "latest"), after the
/// index is updated; both commands carry `--additional-urls <url>` exactly when the platform
/// gives a Board Manager URL.
pub proof fn law_platform_install_commands(p: ManagerEntryView)
    ensures
        core_update_index_args(p).take(2) == seq!["core"@, "update-index"@],
        core_install_args(p).take(2) == seq!["core"@, "install"@],
        core_install_args(p).last() == lib_install_args(p)[2],
        match p.source_url {
            Some(u) => core_update_index_args(p).len() == 4 && core_update_index_args(p)[2]
                == "--additional-urls"@ && core_update_index_args(p)[3] == u
                && core_install_args(p).len() == 5 && core_install_args(p)[2] == "--additional-urls"@
                && core_install_args(p)[3] == u,
            None => core_update_index_args(p).len() == 2 && core_install_args(p).len() == 3,
        },
{
    assert(core_update_index_args(p).take(2) =~= seq!["core"@, "update-index"@]);
    assert(core_install_args(p).take(2) =~= seq!["core"@, "install"@]);
}

fn push_additional_urls(args: &mut Vec<String>, url: &Option<String>)
    ensures
        string_views(final(args)@) == string_views(old(args)@) + additional_urls(opt_view(*url)),
{
    match url {
        Some(u) => {
            push_owned(args, "--additional-urls");
            push_owned(args, u.as_str());
            assert(string_views(args@) =~= string_views(old(args)@) + additional_urls(opt_view(*url)));
        },
        None => {
            assert(string_views(args@) =~= string_views(old(args)@) + additional_urls(opt_view(*url)));
        },
    }
}

/// The commands that install a Board Manager platform (update the index, then install),
/// or `None` when the platform is already installed at the requested version.
pub fn platform_manager_commands(installed: &InstalledPlatforms, platform: &ManagerEntry) -> (r:
    Option<(Vec<String>, Vec<String>)>)
    ensures
        installed_match(installed.platforms@, platform@.name, platform@.version) is Some
            ==> r is None,
        installed_match(installed.platforms@, platform@.name, platform@.version) is None ==> (
        r matches Some((u, i)) && string_views(u@) == core_update_index_args(platform@)
            && string_views(i@) == core_install_args(platform@)),
{
    let version: Option<&str> = match &platform.version {
        Some(v) => Some(v.as_str()),
        None => None,
    };
    if installed.is_installed(platform.name.as_str(), version).is_some() {
        return None;
    }
    let mut update: Vec<String> = Vec::new();
    push_owned(&mut update, "core");
    push_owned(&mut update, "update-index");
    push_additional_urls(&mut update, &platform.source_url);
    let mut install: Vec<String> = Vec::new();
    push_owned(&mut install, "core");
    push_owned(&mut install, "install");
    push_additional_urls(&mut install, &platform.source_url);
    let ghost before = string_views(install@);
    let name = manager_dep_name(platform);
    let ghost n = name@;
    install.push(name);
    assert(string_views(install@) =~= before.push(n));
    assert(string_views(update@) =~= core_update_index_args(platform@));
    assert(string_views(install@) =~= core_install_args(platform@));
    Some((update, install))
}

// ---------------------------------------------------------------------------------------
// Installation paths
// ---------------------------------------------------------------------------------------

/// Where a platform is installed, and whether an existing installation is overwritten.
#[derive(Debug, Clone)]
pub struct PlatformInstallPath {
    /// The installation path.
    pub path: String,
    /// Whether an existing installation at `path` is overwritten.
    pub is_overwrite: bool,
}

/// The installation path of a platform named `vendor:arch...`: under the user platforms
/// directory (`<user>/<vendor>/<arch>`), or, when a platform of that name is already
/// installed, over the Board Manager's installation
/// (`<board manager>/<vendor>/hardware/<arch>/<installed version>`, overwritten).
pub open spec fn platform_install_path_of(
    name: Seq<char>,
    user_platforms: Seq<char>,
    board_manager: Seq<char>,
    installed: InstalledPlatforms,
) -> (Seq<char>, bool) {
    let k = find_char_from(name, 0, ':');
    let k2 = find_char_from(name, k + 1, ':');
    let vendor = name.subrange(0, k);
    let arch = name.subrange(k + 1, k2);
    match installed_match(installed.platforms@, name, None) {
        Some(p) => (
            path_join(
                path_join(path_join(path_join(board_manager, vendor), "hardware"@), arch),
                p.installed_version@,
            ),
            true,
        ),
        None => (path_join(path_join(user_platforms, vendor), arch), false),
    }
}

/// The platform name lacks a vendor (nothing before the first `:`).
pub open spec fn lacks_vendor(name: Seq<char>) -> bool {
    find_char_from(name, 0, ':') == 0
}

/// The platform name lacks an architecture (no `:`, or nothing between the first and the
/// second `:`).
pub open spec fn lacks_arch(name: Seq<char>) -> bool {
    let k = find_char_from(name, 0, ':');
    k >= name.len() || find_char_from(name, k + 1, ':') == k + 1
}

/// `e` is a `PlatformDepMissingField` error with this key and ID.
pub open spec fn is_missing_field(e: CompileSketchesError, key: Seq<char>, id: Seq<char>) -> bool {
    e matches CompileSketchesError::PlatformDepMissingField { key: k, id: i } && k@ == key && i@
        == id
}

fn missing_field(key: &str, id: &str) -> (e: CompileSketchesError)
    ensures
        is_missing_field(e, key@, id@),
{
    CompileSketchesError::PlatformDepMissingField { key: owned(key), id: owned(id) }
}

fn copy_range(v: &Vec<char>, from: usize, to: usize) -> (r: String)
    requires
        from <= to <= v@.len(),
    ensures
        r@ == v@.subrange(from as int, to as int),
{
    let mut out: Vec<char> = Vec::new();
    let mut i = from;
    while i < to
        invariant
            from <= i <= to <= v@.len(),
            out@ == v@.subrange(from as int, i as int),
        decreases to - i,
    {
        out.push(v[i]);
        i = i + 1;
        assert(out@ =~= v@.subrange(from as int, i as int));
    }
    string_from_chars(&out)
}

impl CompileSketches {
    /// The installation path of a platform named `vendor:arch...` (see
    /// [`platform_install_path_of`]); `PlatformDepMissingField` when the name has no vendor
    /// or no architecture.
    pub fn get_platform_installation_path(&self, name: &str, installed_platforms: &InstalledPlatforms) -> (r:
        Result<PlatformInstallPath, CompileSketchesError>)
        ensures
            lacks_vendor(name@) ==> (r matches Err(e) && is_missing_field(e, "name's vendor"@, name@)),
            !lacks_vendor(name@) && lacks_arch(name@) ==> (r matches Err(e) && is_missing_field(
                e,
                "name's architecture"@,
                name@,
            )),
            !lacks_vendor(name@) && !lacks_arch(name@) ==> (r matches Ok(p) && (p.path@, p.is_overwrite)
                == platform_install_path_of(
                name@,
                self.user_platforms_path@,
                self.board_manager_platforms_path@,
                *installed_platforms,
            )),
    {
        let v = chars_of(name);
        let k = find_char(&v, 0, ':');
        proof {
            lemma_find_char_from(v@, 0, ':');
        }
        if k == 0 {
            return Err(missing_field("name's vendor", name));
        }
        if k >= v.len() {
            return Err(missing_field("name's architecture", name));
        }
        let k2 = find_char(&v, k + 1, ':');
        proof {
            lemma_find_char_from(v@, k + 1, ':');
        }
        if k2 == k + 1 {
            return Err(missing_field("name's architecture", name));
        }
        let vendor = copy_range(&v, 0, k);
        let arch = copy_range(&v, k + 1, k2);
        match installed_platforms.is_installed(name, None) {
            Some(version) => {
                let a = join_path(self.board_manager_platforms_path.as_str(), vendor.as_str());
                let b = join_path(a.as_str(), "hardware");
                let c = join_path(b.as_str(), arch.as_str());
                Ok(PlatformInstallPath { path: join_path(c.as_str(), version), is_overwrite: true })
            },
            None => {
                let a = join_path(self.user_platforms_path.as_str(), vendor.as_str());
                Ok(PlatformInstallPath { path: join_path(a.as_str(), arch.as_str()), is_overwrite: false })
            },
        }
    }
}

/// Where to install a platform dependency: the parent directory, the final name, and
/// whether to overwrite an existing installation.
#[derive(Debug)]
pub struct PlatformDestination {
    /// The directory the platform is installed into.
    pub parent: String,
    /// The name of the installation inside `parent`, if the path has a final name.
    pub file_name: Option<String>,
    /// Whether an existing installation is overwritten.
    pub overwrite: bool,
}

/// `d` is the destination of a platform installed at `path` (split into parent and final
/// name), overwriting as given.
pub open spec fn is_destination(d: PlatformDestination, path: Seq<char>, overwrite: bool) -> bool {
    &&& parent_of(path) == Some(d.parent@)
    &&& file_name_of(path) == opt_view(d.file_name)
    &&& d.overwrite == overwrite
}

/// The destination of a platform dependency named `name`: errors for a missing name (key
/// `"name"`, identified by `id`), a name without vendor or architecture, or an
/// installation path without parent (key `parent_key`, identified by the path).
pub open spec fn platform_destination_ok(
    cs: CompileSketches,
    name: Option<Seq<char>>,
    installed: InstalledPlatforms,
    force: Option<bool>,
    r: PlatformDestination,
) -> bool {
    name matches Some(n) && !lacks_vendor(n) && !lacks_arch(n) && {
        let p = platform_install_path_of(
            n,
            cs.user_platforms_path@,
            cs.board_manager_platforms_path@,
            installed,
        );
        is_destination(
            r,
            p.0,
            match force {
                Some(f) => f,
                None => p.1,
            },
        )
    }
}

/// The error raised for the destination of a platform dependency (see
/// [`platform_destination_ok`]).
pub open spec fn platform_destination_error(
    cs: CompileSketches,
    name: Option<Seq<char>>,
    id: Seq<char>,
    parent_key: Seq<char>,
    installed: InstalledPlatforms,
    e: CompileSketchesError,
) -> bool {
    match name {
        None => is_missing_field(e, "name"@, id),
        Some(n) => if lacks_vendor(n) {
            is_missing_field(e, "name's vendor"@, n)
        } else if lacks_arch(n) {
            is_missing_field(e, "name's architecture"@, n)
        } else {
            let p = platform_install_path_of(
                n,
                cs.user_platforms_path@,
                cs.board_manager_platforms_path@,
                installed,
            );
            parent_of(p.0) is None && is_missing_field(e, parent_key, p.0)
        },
    }
}

impl CompileSketches {
    /// The destination of a platform dependency (see [`platform_destination_ok`] and
    /// [`platform_destination_error`]); `force` overrides the overwrite decision.
    fn platform_destination(
        &self,
        name: &Option<String>,
        id: &str,
        installed: &InstalledPlatforms,
        parent_key: &str,
        force: Option<bool>,
    ) -> (r: Result<PlatformDestination, CompileSketchesError>)
        ensures
            match r {
                Ok(d) => platform_destination_ok(*self, opt_view(*name), *installed, force, d),
                Err(e) => platform_destination_error(
                    *self,
                    opt_view(*name),
                    id@,
                    parent_key@,
                    *installed,
                    e,
                ),
            },
    {
        let n = match name {
            Some(n) => n,
            None => {
                return Err(missing_field("name", id));
            },
        };
        let path = self.get_platform_installation_path(n.as_str(), installed)?;
        let parent = match path_parent(path.path.as_str()) {
            Some(p) => p,
            None => {
                return Err(missing_field(parent_key, path.path.as_str()));
            },
        };
        let file_name = path_file_name(path.path.as_str());
        let overwrite = match force {
            Some(f) => f,
            None => path.is_overwrite,
        };
        Ok(PlatformDestination { parent, file_name, overwrite })
    }

    /// The destination of a platform installed from a local path.
    pub fn platform_path_destination(&self, dep: &PathEntry, installed: &InstalledPlatforms) -> (r:
        Result<PlatformDestination, CompileSketchesError>)
        ensures
            match r {
                Ok(d) => platform_destination_ok(*self, dep@.name, *installed, None, d),
                Err(e) => platform_destination_error(
                    *self,
                    dep@.name,
                    dep@.source_path,
                    "destination parent"@,
                    *installed,
                    e,
                ),
            },
    {
        self.platform_destination(&dep.name, dep.source_path.as_str(), installed, "destination parent", None)
    }

    /// The destination of a platform installed from a git repository.
    pub fn platform_repo_destination(&self, dep: &RepoEntry, installed: &InstalledPlatforms) -> (r:
        Result<PlatformDestination, CompileSketchesError>)
        ensures
            match r {
                Ok(d) => platform_destination_ok(*self, dep@.destination_name, *installed, None, d),
                Err(e) => platform_destination_error(
                    *self,
                    dep@.destination_name,
                    dep@.source_url,
                    "destination parent"@,
                    *installed,
                    e,
                ),
            },
    {
        self.platform_destination(
            &dep.destination_name,
            dep.source_url.as_str(),
            installed,
            "destination parent",
            None,
        )
    }

    /// The destination of a platform installed from a download (always overwritten).
    pub fn platform_download_destination(&self, dep: &DownloadEntry, installed: &InstalledPlatforms) -> (r:
        Result<PlatformDestination, CompileSketchesError>)
        ensures
            match r {
                Ok(d) => platform_destination_ok(*self, dep@.destination_name, *installed, Some(true), d),
                Err(e) => platform_destination_error(
                    *self,
                    dep@.destination_name,
                    dep@.source_url,
                    "destination-path parent"@,
                    *installed,
                    e,
                ),
            },
    {
        self.platform_destination(
            &dep.destination_name,
            dep.source_url.as_str(),
            installed,
            "destination-path parent",
            Some(true),
        )
    }
}

} // verus!
