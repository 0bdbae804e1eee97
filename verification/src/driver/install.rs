//! Installation of `arduino-cli` and of dependencies: the decisions between the file
//! system, network and process work that the caller performs.
use vstd::prelude::*;

pub mod libraries;
pub mod platforms;

use crate::error::CompileSketchesError;
use crate::output_parse::{find_stated_version, stated_version};
use crate::paths::{file_name_of, join_path, path_file_name, path_join};
use crate::serde_types::{parse_url_path, url_path_of};
use crate::text::{
    chars_of, concat, ends_with, eq_ignore_ascii_case, find_char, find_char_from, owned, push_owned,
    same_text, str_ends_with, str_eq_ignore_ascii_case, string_from_chars, string_views, trim,
    trim_chars,
};

verus! {

// ---------------------------------------------------------------------------------------
// arduino-cli
// ---------------------------------------------------------------------------------------

/// The release archive of arduino-cli and the binary inside it, for Windows or Linux.
pub open spec fn cli_archive(version: Seq<char>, windows: bool) -> (Seq<char>, Seq<char>) {
    if windows {
        ("arduino-cli_"@ + version + "_Windows_64bit.zip"@, "arduino-cli.exe"@)
    } else {
        ("arduino-cli_"@ + version + "_Linux_64bit.tar.gz"@, "arduino-cli"@)
    }
}

/// The release archive of arduino-cli `version` and the binary inside it.
pub fn cli_archive_names(version: &str, windows: bool) -> (r: (String, String))
    ensures
        (r.0@, r.1@) == cli_archive(version@, windows),
{
    if windows {
        let a = concat("arduino-cli_", version);
        (concat(a.as_str(), "_Windows_64bit.zip"), owned("arduino-cli.exe"))
    } else {
        let a = concat("arduino-cli_", version);
        (concat(a.as_str(), "_Linux_64bit.tar.gz"), owned("arduino-cli"))
    }
}

/// The download URL of an arduino-cli release archive.
pub fn cli_download_url(archive_file_name: &str) -> (r: String)
    ensures
        r@ == "https://downloads.arduino.cc/arduino-cli/"@ + archive_file_name@,
{
    concat("https://downloads.arduino.cc/arduino-cli/", archive_file_name)
}

/// The name of the cache directory of an arduino-cli version.
pub fn cli_install_dir_name(version: &str) -> (r: String)
    ensures
        r@ == "arduino-cli_"@ + version@,
{
    concat("arduino-cli_", version)
}

/// What to do about a cached arduino-cli binary.
#[derive(Debug, Clone, Copy, PartialEq, Eq, Structural)]
pub enum CliCacheDecision {
    /// Reuse the cached binary of a pinned version.
    ReuseCached,
    /// Reuse the cached binary of "latest", downloaded less than a day ago.
    ReuseRecentLatest,
    /// Download (again).
    Download,
}

/// One day, in seconds: how long a cached "latest" arduino-cli is reused.
pub const LATEST_CLI_REUSE_SECS: u64 = 86400u64;

/// The decision about a cached arduino-cli binary: a pinned version is reused when cached;
/// "latest" (in any ASCII case) is reused when cached less than a day ago; otherwise it is
/// downloaded.
pub open spec fn cli_cache_decision_of(
    bin_exists: bool,
    version: Seq<char>,
    age_secs: Option<u64>,
) -> CliCacheDecision {
    let latest = eq_ignore_ascii_case(version, "latest"@);
    if bin_exists && !latest {
        CliCacheDecision::ReuseCached
    } else if bin_exists && latest && (age_secs matches Some(a) && a < LATEST_CLI_REUSE_SECS) {
        CliCacheDecision::ReuseRecentLatest
    } else {
        CliCacheDecision::Download
    }
}

/// Decides whether to reuse a cached arduino-cli binary. `age_secs` is the whole number of
/// seconds since the binary was modified, when known.
pub fn cli_cache_decision(bin_exists: bool, version: &str, age_secs: Option<u64>) -> (r:
    CliCacheDecision)
    ensures
        r == cli_cache_decision_of(bin_exists, version@, age_secs),
{
    let latest = str_eq_ignore_ascii_case(version, "latest");
    if bin_exists && !latest {
        CliCacheDecision::ReuseCached
    } else if bin_exists && latest && match age_secs {
        Some(a) => a < LATEST_CLI_REUSE_SECS,
        None => false,
    } {
        CliCacheDecision::ReuseRecentLatest
    } else {
        CliCacheDecision::Download
    }
}

/// The version that `arduino-cli version` reports, compared with the requested version.
#[derive(Debug)]
pub enum VersionCheck {
    /// The reported version (which matches, or "latest"/nothing was requested).
    Matches(String),
    /// The reported version, which differs from the requested one.
    Mismatch(String),
    /// No version could be found in the output.
    Unknown,
}

/// Compares the version stated in `arduino-cli version` output with the requested one: a
/// mismatch only when a specific version (not "latest", not empty) was requested and the
/// stated version differs from it.
pub fn check_cli_version(output: &str, requested: &str) -> (r: VersionCheck)
    ensures
        match stated_version(output@) {
            None => r is Unknown,
            Some(v) => if requested@ != "latest"@ && requested@.len() != 0 && v != requested@ {
                r matches VersionCheck::Mismatch(s) && s@ == v
            } else {
                r matches VersionCheck::Matches(s) && s@ == v
            },
        },
{
    match find_stated_version(output) {
        Some(ver) => {
            let req = chars_of(requested);
            if !same_text(requested, "latest") && req.len() != 0 && !same_text(
                ver.as_str(),
                requested,
            ) {
                VersionCheck::Mismatch(ver)
            } else {
                VersionCheck::Matches(ver)
            }
        },
        None => VersionCheck::Unknown,
    }
}

/// The outcome of an `arduino-cli` command: its combined output when it succeeded,
/// `ArduinoCliCommandFailed` with that output otherwise.
pub fn cli_command_result(success: bool, combined_output: String) -> (r: Result<
    String,
    CompileSketchesError,
>)
    ensures
        success ==> (r matches Ok(s) && s == combined_output),
        !success ==> (r matches Err(e) && e matches CompileSketchesError::ArduinoCliCommandFailed {
            output,
        } && output == combined_output),
{
    if !success {
        Err(CompileSketchesError::ArduinoCliCommandFailed { output: combined_output })
    } else {
        Ok(combined_output)
    }
}

// ---------------------------------------------------------------------------------------
// Installing from a path
// ---------------------------------------------------------------------------------------

/// Where a dependency installed from `source_path` goes: `destination_name` (or else the
/// final component of the source path) under `destination_parent_path`.
pub open spec fn install_destination_of(
    source_path: Seq<char>,
    destination_parent_path: Seq<char>,
    destination_name: Option<Seq<char>>,
) -> Option<Seq<char>> {
    match destination_name {
        Some(n) => Some(path_join(destination_parent_path, n)),
        None => match file_name_of(source_path) {
            Some(n) => Some(path_join(destination_parent_path, n)),
            None => None,
        },
    }
}

/// The destination of an installation from a path (see [`install_destination_of`]);
/// `MalformedInstallDestPathName` when no destination name can be found.
pub fn install_destination(
    source_path: &str,
    destination_parent_path: &str,
    destination_name: Option<&str>,
) -> (r: Result<String, CompileSketchesError>)
    ensures
        match install_destination_of(
            source_path@,
            destination_parent_path@,
            match destination_name { Some(n) => Some(n@), None => None },
        ) {
            Some(d) => r matches Ok(s) && s@ == d,
            None => r matches Err(e) && e matches CompileSketchesError::MalformedInstallDestPathName(
                p,
            ) && p@ == source_path@,
        },
{
    match destination_name {
        Some(n) => Ok(join_path(destination_parent_path, n)),
        None => match path_file_name(source_path) {
            Some(n) => Ok(join_path(destination_parent_path, n.as_str())),
            None => Err(CompileSketchesError::MalformedInstallDestPathName(owned(source_path))),
        },
    }
}

/// What to do about an existing destination: `Ok(true)` to delete it first (when `force`),
/// `InstallPathAlreadyExists` otherwise; `Ok(false)` when nothing is there.
pub fn existing_destination_action(exists: bool, force: bool, destination_path: &str) -> (r: Result<
    bool,
    CompileSketchesError,
>)
    ensures
        !exists ==> r == Ok::<bool, CompileSketchesError>(false),
        exists && force ==> r == Ok::<bool, CompileSketchesError>(true),
        exists && !force ==> (r matches Err(e) && e matches CompileSketchesError::InstallPathAlreadyExists {
            path,
        } && path@ == destination_path@),
{
    if exists {
        if force {
            Ok(true)
        } else {
            Err(CompileSketchesError::InstallPathAlreadyExists { path: owned(destination_path) })
        }
    } else {
        Ok(false)
    }
}

// ---------------------------------------------------------------------------------------
// Installing from a download
// ---------------------------------------------------------------------------------------

/// A supported archive format.
#[derive(Debug, Clone, Copy, PartialEq, Eq, Structural)]
pub enum ArchiveFormat {
    /// A `.zip` archive.
    Zip,
    /// A gzip-compressed tarball (`.tar.gz` or `.tgz`).
    TarGz,
    /// A plain tarball (`.tar`).
    Tar,
}

/// The archive format of a file, judged by the end of its name.
pub open spec fn archive_format_of(filename: Seq<char>) -> Option<ArchiveFormat> {
    if ends_with(filename, ".zip"@) {
        Some(ArchiveFormat::Zip)
    } else if ends_with(filename, ".tar.gz"@) || ends_with(filename, ".tgz"@) {
        Some(ArchiveFormat::TarGz)
    } else if ends_with(filename, ".tar"@) {
        Some(ArchiveFormat::Tar)
    } else {
        None
    }
}

/// The archive format of a file; `ArchiveFormatUnsupported` for any other name.
pub fn archive_format(filename: &str) -> (r: Result<ArchiveFormat, CompileSketchesError>)
    ensures
        match archive_format_of(filename@) {
            Some(f) => r == Ok::<ArchiveFormat, CompileSketchesError>(f),
            None => r matches Err(e) && e matches CompileSketchesError::ArchiveFormatUnsupported(
                n,
            ) && n@ == filename@,
        },
{
    if str_ends_with(filename, ".zip") {
        Ok(ArchiveFormat::Zip)
    } else if str_ends_with(filename, ".tar.gz") || str_ends_with(filename, ".tgz") {
        Ok(ArchiveFormat::TarGz)
    } else if str_ends_with(filename, ".tar") {
        Ok(ArchiveFormat::Tar)
    } else {
        Err(CompileSketchesError::ArchiveFormatUnsupported(owned(filename)))
    }
}

/// The file name of a download: the final component of the URL's path (empty when there is
/// none); `None` when the URL does not parse.
pub open spec fn download_file_name_of(url: Seq<char>) -> Option<Seq<char>> {
    match url_path_of(url) {
        Some(p) => Some(
            match file_name_of(p) {
                Some(n) => n,
                None => Seq::empty(),
            },
        ),
        None => None,
    }
}

/// The file name of a download (see [`download_file_name_of`]); `UrlParse` when the URL
/// does not parse.
pub fn download_file_name(url: &str) -> (r: Result<String, CompileSketchesError>)
    ensures
        match download_file_name_of(url@) {
            Some(n) => r matches Ok(s) && s@ == n,
            None => r matches Err(e) && e is UrlParse,
        },
{
    match parse_url_path(url) {
        Ok(path) => match path_file_name(path.as_str()) {
            Some(n) => Ok(n),
            None => Ok(String::new()),
        },
        Err(e) => Err(CompileSketchesError::UrlParse(e)),
    }
}

/// An entry of an extracted archive's top directory, as read from the file system.
#[derive(Debug)]
pub struct ArchiveEntry {
    /// The path of the entry.
    pub path: String,
    /// Whether the entry is a directory.
    pub is_dir: bool,
}

/// The root of an extracted archive, given its entries in the order read and the single
/// directory `found` so far: the single top directory (other than `__MACOSX`) when there is
/// exactly one and no file; otherwise the extraction directory itself.
pub open spec fn archive_root_from(
    extract_dir: Seq<char>,
    entries: Seq<ArchiveEntry>,
    found: Option<Seq<char>>,
) -> Seq<char>
    decreases entries.len(),
{
    if entries.len() == 0 {
        match found {
            Some(f) => f,
            None => extract_dir,
        }
    } else {
        let e = entries[0];
        if e.is_dir {
            match file_name_of(e.path@) {
                Some(name) => if name == "__MACOSX"@ {
                    archive_root_from(extract_dir, entries.drop_first(), found)
                } else if found is None {
                    archive_root_from(extract_dir, entries.drop_first(), Some(e.path@))
                } else {
                    extract_dir
                },
                None => archive_root_from(extract_dir, entries.drop_first(), found),
            }
        } else {
            extract_dir
        }
    }
}

/// The root of an extracted archive is the extraction directory itself, or the path of one
/// of its directory entries that has a final name other than `__MACOSX`; the latter only
/// when no entry is a file and that directory is the only such one.
pub proof fn law_archive_root_is_single_top_directory(
    extract_dir: Seq<char>,
    entries: Seq<ArchiveEntry>,
)
    ensures
        archive_root_from(extract_dir, entries, None) == extract_dir || exists|j: int|
            0 <= j < entries.len() && (#[trigger] entries[j]).is_dir && entries[j].path@
                == archive_root_from(extract_dir, entries, None) && (file_name_of(entries[j].path@)
                matches Some(n) && n != "__MACOSX"@),
        (exists|j: int| 0 <= j < entries.len() && !(#[trigger] entries[j]).is_dir)
            ==> archive_root_from(extract_dir, entries, None) == extract_dir,
{
    lemma_archive_root_from(extract_dir, entries, None);
}

proof fn lemma_archive_root_from(extract_dir: Seq<char>, entries: Seq<ArchiveEntry>, found: Option<Seq<char>>)
    ensures
        ({
            let r = archive_root_from(extract_dir, entries, found);
            ||| r == extract_dir
            ||| found == Some(r)
            ||| exists|j: int|
                0 <= j < entries.len() && (#[trigger] entries[j]).is_dir && entries[j].path@ == r
                    && (file_name_of(entries[j].path@) matches Some(n) && n != "__MACOSX"@)
        }),
        (exists|j: int| 0 <= j < entries.len() && !(#[trigger] entries[j]).is_dir)
            ==> archive_root_from(extract_dir, entries, found) == extract_dir,
    decreases entries.len(),
{
    if entries.len() > 0 {
        let e = entries[0];
        let rest = entries.drop_first();
        let r = archive_root_from(extract_dir, entries, found);
        if e.is_dir {
            match file_name_of(e.path@) {
                Some(name) => if name == "__MACOSX"@ {
                    lemma_archive_root_from(extract_dir, rest, found);
                } else if found is None {
                    lemma_archive_root_from(extract_dir, rest, Some(e.path@));
                } else {
                },
                None => {
                    lemma_archive_root_from(extract_dir, rest, found);
                },
            }
            let r2 = r;
            if exists|j: int| 0 <= j < rest.len() && (#[trigger] rest[j]).is_dir && rest[j].path@ == r2
                && (file_name_of(rest[j].path@) matches Some(n) && n != "__MACOSX"@) {
                let j = choose|j: int|
                    0 <= j < rest.len() && (#[trigger] rest[j]).is_dir && rest[j].path@ == r2 && (
                    file_name_of(rest[j].path@) matches Some(n) && n != "__MACOSX"@);
                assert(entries[j + 1] == rest[j]);
            }
            if exists|j: int| 0 <= j < entries.len() && !(#[trigger] entries[j]).is_dir {
                let j = choose|j: int| 0 <= j < entries.len() && !(#[trigger] entries[j]).is_dir;
                assert(j > 0);
                assert(rest[j - 1] == entries[j]);
            }
            if r == e.path@ && r != extract_dir && found != Some(r) {
                assert(entries[0] == e);
            }
        }
    }
}

/// The root of an extracted archive (see [`archive_root_from`]).
pub fn get_archive_root_path(extract_dir: &str, entries: &Vec<ArchiveEntry>) -> (r: String)
    ensures
        r@ == archive_root_from(extract_dir@, entries@, None),
{
    let mut found: Option<String> = None;
    let mut i: usize = 0;
    assert(entries@.skip(0) =~= entries@);
    while i < entries.len()
        invariant
            i <= entries@.len(),
            archive_root_from(extract_dir@, entries@, None) == archive_root_from(
                extract_dir@,
                entries@.skip(i as int),
                match found { Some(f) => Some(f@), None => None },
            ),
        decreases entries.len() - i,
    {
        assert(entries@.skip(i as int).drop_first() =~= entries@.skip(i + 1));
        assert(entries@.skip(i as int)[0] == entries@[i as int]);
        let e = &entries[i];
        if e.is_dir {
            match path_file_name(e.path.as_str()) {
                Some(name) => {
                    if !same_text(name.as_str(), "__MACOSX") {
                        if found.is_none() {
                            found = Some(e.path.clone());
                        } else {
                            return owned(extract_dir);
                        }
                    }
                },
                None => {},
            }
        } else {
            return owned(extract_dir);
        }
        i = i + 1;
    }
    match found {
        Some(f) => f,
        None => owned(extract_dir),
    }
}

// ---------------------------------------------------------------------------------------
// Installing from a git repository
// ---------------------------------------------------------------------------------------

/// Where an installation from a repository stands.
#[derive(Debug, Clone, Copy, PartialEq, Eq, Structural)]
pub enum RepoInstallStep {
    /// Waiting for the clone.
    Cloning,
    /// Waiting for `git rev-parse latest`.
    ResolvingLatest,
    /// Waiting for the list of tags (to resolve `latest`).
    ListingTags,
    /// Waiting for the checkout of the requested ref.
    CheckingOut,
    /// Waiting for the submodules to be initialised.
    UpdatingSubmodules,
    /// Nothing more to run.
    Finished,
}

impl RepoInstallStep {
    /// The most git commands that can still follow from this step (including the one
    /// awaited in it).
    pub open spec fn commands_left(self) -> nat {
        match self {
            RepoInstallStep::Cloning => 5,
            RepoInstallStep::ResolvingLatest => 4,
            RepoInstallStep::ListingTags => 3,
            RepoInstallStep::CheckingOut => 2,
            RepoInstallStep::UpdatingSubmodules => 1,
            RepoInstallStep::Finished => 0,
        }
    }
}

/// An installation of a dependency from a git repository.
#[derive(Debug)]
pub struct RepoInstall {
    /// The repository URL.
    pub url: String,
    /// The requested git ref (`latest` resolves to the ref named `latest` or the newest tag).
    pub git_ref: Option<String>,
    /// The path of the dependency inside the repository.
    pub source_path: String,
    /// The directory the repository is cloned into.
    pub clone_path: String,
    /// Where the installation stands.
    pub step: RepoInstallStep,
}

/// What the caller must do next for an installation from a repository.
#[derive(Debug)]
pub enum RepoAction {
    /// Run `git` with these arguments (in the clone directory when `in_clone_dir`), then
    /// report its success and standard output; `task` describes it in errors.
    RunGit { args: Vec<String>, in_clone_dir: bool, task: String },
    /// Install the dependency from this path of the clone.
    InstallFromPath { source_path: String },
    /// The installation failed.
    Fail(CompileSketchesError),
}

/// The arguments of the clone command: a shallow recursive clone when no ref is requested;
/// a full clone otherwise (the requested ref is checked out afterwards).
pub open spec fn clone_args(url: Seq<char>, git_ref: Option<String>, clone_path: Seq<char>) -> Seq<
    Seq<char>,
> {
    if git_ref is None {
        seq!["clone"@, "--depth"@, "1"@, "--recursive"@, url, clone_path]
    } else {
        seq!["clone"@, url, clone_path]
    }
}

/// The first line of `s` (up to the first newline), if `s` is not empty.
pub open spec fn first_line(s: Seq<char>) -> Option<Seq<char>> {
    if s.len() == 0 {
        None
    } else {
        Some(s.subrange(0, find_char_from(s, 0, '\n')))
    }
}

/// `a` is `RunGit` with these arguments, directory and task.
pub open spec fn is_git_action(a: RepoAction, args: Seq<Seq<char>>, in_clone_dir: bool, task: Seq<char>) -> bool {
    a matches RepoAction::RunGit { args: g, in_clone_dir: d, task: t } && string_views(g@) == args
        && d == in_clone_dir && t@ == task
}

/// `a` is a failure of the git command described by `task`.
pub open spec fn is_git_failure(a: RepoAction, task: Seq<char>) -> bool {
    a matches RepoAction::Fail(e) && e matches CompileSketchesError::GitCommandFailed { task: t }
        && t@ == task
}

/// The submodule update command.
pub open spec fn submodule_args() -> Seq<Seq<char>> {
    seq!["submodule"@, "update"@, "--init"@, "--recursive"@, "--depth"@, "1"@]
}

fn git_action(args: Vec<String>, in_clone_dir: bool, task: &str) -> (r: RepoAction)
    ensures
        is_git_action(r, string_views(args@), in_clone_dir, task@),
{
    RepoAction::RunGit { args, in_clone_dir, task: owned(task) }
}

fn git_failure(task: &str) -> (r: RepoAction)
    ensures
        is_git_failure(r, task@),
{
    RepoAction::Fail(CompileSketchesError::GitCommandFailed { task: owned(task) })
}

fn checkout_action(git_ref: &str) -> (r: RepoAction)
    ensures
        is_git_action(r, seq!["checkout"@, git_ref@], true, "checkout requested git ref"@),
{
    let mut args: Vec<String> = Vec::new();
    push_owned(&mut args, "checkout");
    push_owned(&mut args, git_ref);
    assert(string_views(args@) =~= seq!["checkout"@, git_ref@]);
    git_action(args, true, "checkout requested git ref")
}

fn submodule_action() -> (r: RepoAction)
    ensures
        is_git_action(r, submodule_args(), true, "initialize git submodules"@),
{
    let mut args: Vec<String> = Vec::new();
    push_owned(&mut args, "submodule");
    push_owned(&mut args, "update");
    push_owned(&mut args, "--init");
    push_owned(&mut args, "--recursive");
    push_owned(&mut args, "--depth");
    push_owned(&mut args, "1");
    assert(string_views(args@) =~= submodule_args());
    git_action(args, true, "initialize git submodules")
}

impl RepoInstall {
    /// Starts an installation from a repository: the first action is the clone.
    pub fn start(url: &str, git_ref: Option<String>, source_path: &str, clone_path: &str) -> (r: (
        Self,
        RepoAction,
    ))
        ensures
            r.0.url@ == url@,
            r.0.git_ref == git_ref,
            r.0.source_path@ == source_path@,
            r.0.clone_path@ == clone_path@,
            r.0.step == RepoInstallStep::Cloning,
            is_git_action(r.1, clone_args(url@, git_ref, clone_path@), false, "clone repository"@),
    {
        let mut args: Vec<String> = Vec::new();
        push_owned(&mut args, "clone");
        if git_ref.is_none() {
            push_owned(&mut args, "--depth");
            push_owned(&mut args, "1");
            push_owned(&mut args, "--recursive");
        }
        push_owned(&mut args, url);
        push_owned(&mut args, clone_path);
        assert(string_views(args@) =~= clone_args(url@, git_ref, clone_path@));
        let action = git_action(args, false, "clone repository");
        (
            RepoInstall {
                url: owned(url),
                git_ref,
                source_path: owned(source_path),
                clone_path: owned(clone_path),
                step: RepoInstallStep::Cloning,
            },
            action,
        )
    }

    /// Takes the result of the last git command and gives the next action:
    ///
    /// - after the clone: fail if it failed; else check out the requested ref, resolve
    ///   `latest` with `git rev-parse`, or (no ref) initialise the submodules;
    /// - after `rev-parse latest`: check out its trimmed output if it succeeded, else list
    ///   the tags newest first;
    /// - after listing tags: check out the first tag (trimmed); fail when the listing
    ///   failed or is empty;
    /// - after the checkout: initialise the submodules (fail if the checkout failed);
    /// - after the submodules: install from `source_path` inside the clone (fail if they
    ///   failed).
    pub fn on_git_result(&mut self, success: bool, stdout: &str) -> (r: RepoAction)
        requires
            old(self).step != RepoInstallStep::Finished,
        ensures
            final(self).url == old(self).url,
            final(self).git_ref == old(self).git_ref,
            final(self).source_path == old(self).source_path,
            final(self).clone_path == old(self).clone_path,
            r is Fail ==> final(self).step == RepoInstallStep::Finished,
            (r is RunGit) <==> final(self).step != RepoInstallStep::Finished,
            final(self).step.commands_left() < old(self).step.commands_left(),
            match old(self).step {
                RepoInstallStep::Cloning => if !success {
                    is_git_failure(r, "clone repository"@)
                } else {
                    match old(self).git_ref {
                        None => final(self).step == RepoInstallStep::UpdatingSubmodules
                            && is_git_action(r, submodule_args(), true, "initialize git submodules"@),
                        Some(g) => if g@ == "latest"@ {
                            final(self).step == RepoInstallStep::ResolvingLatest && is_git_action(
                                r,
                                seq!["rev-parse"@, g@],
                                true,
                                "resolve `latest` with `git rev-parse`"@,
                            )
                        } else {
                            final(self).step == RepoInstallStep::CheckingOut && is_git_action(
                                r,
                                seq!["checkout"@, g@],
                                true,
                                "checkout requested git ref"@,
                            )
                        },
                    }
                },
                RepoInstallStep::ResolvingLatest => if success {
                    final(self).step == RepoInstallStep::CheckingOut && is_git_action(
                        r,
                        seq!["checkout"@, trim(stdout@)],
                        true,
                        "checkout requested git ref"@,
                    )
                } else {
                    final(self).step == RepoInstallStep::ListingTags && is_git_action(
                        r,
                        seq!["tag"@, "--sort=-creatordate"@],
                        true,
                        "list tags for resolving `latest`"@,
                    )
                },
                RepoInstallStep::ListingTags => if !success {
                    is_git_failure(r, "list tags for resolving `latest`"@)
                } else {
                    match first_line(stdout@) {
                        None => is_git_failure(r, "resolve `latest` git ref from available tags"@),
                        Some(l) => final(self).step == RepoInstallStep::CheckingOut
                            && is_git_action(
                            r,
                            seq!["checkout"@, trim(l)],
                            true,
                            "checkout requested git ref"@,
                        ),
                    }
                },
                RepoInstallStep::CheckingOut => if !success {
                    is_git_failure(r, "checkout requested git ref"@)
                } else {
                    final(self).step == RepoInstallStep::UpdatingSubmodules && is_git_action(
                        r,
                        submodule_args(),
                        true,
                        "initialize git submodules"@,
                    )
                },
                RepoInstallStep::UpdatingSubmodules => if !success {
                    is_git_failure(r, "initialize git submodules"@)
                } else {
                    final(self).step == RepoInstallStep::Finished && (r matches RepoAction::InstallFromPath {
                        source_path,
                    } && source_path@ == path_join(old(self).clone_path@, old(self).source_path@))
                },
                RepoInstallStep::Finished => false,
            },
    {
        match self.step {
            RepoInstallStep::Cloning => {
                if !success {
                    self.step = RepoInstallStep::Finished;
                    return git_failure("clone repository");
                }
                match &self.git_ref {
                    None => {
                        self.step = RepoInstallStep::UpdatingSubmodules;
                        submodule_action()
                    },
                    Some(g) => {
                        if same_text(g.as_str(), "latest") {
                            let mut args: Vec<String> = Vec::new();
                            push_owned(&mut args, "rev-parse");
                            push_owned(&mut args, g.as_str());
                            assert(string_views(args@) =~= seq!["rev-parse"@, g@]);
                            self.step = RepoInstallStep::ResolvingLatest;
                            git_action(args, true, "resolve `latest` with `git rev-parse`")
                        } else {
                            let a = checkout_action(g.as_str());
                            self.step = RepoInstallStep::CheckingOut;
                            a
                        }
                    },
                }
            },
            RepoInstallStep::ResolvingLatest => {
                if success {
                    let v = chars_of(stdout);
                    let t = trim_chars(&v);
                    let resolved = string_from_chars(&t);
                    self.step = RepoInstallStep::CheckingOut;
                    checkout_action(resolved.as_str())
                } else {
                    let mut args: Vec<String> = Vec::new();
                    push_owned(&mut args, "tag");
                    push_owned(&mut args, "--sort=-creatordate");
                    assert(string_views(args@) =~= seq!["tag"@, "--sort=-creatordate"@]);
                    self.step = RepoInstallStep::ListingTags;
                    git_action(args, true, "list tags for resolving `latest`")
                }
            },
            RepoInstallStep::ListingTags => {
                if !success {
                    self.step = RepoInstallStep::Finished;
                    return git_failure("list tags for resolving `latest`");
                }
                let v = chars_of(stdout);
                if v.len() == 0 {
                    self.step = RepoInstallStep::Finished;
                    return git_failure("resolve `latest` git ref from available tags");
                }
                let end = find_char(&v, 0, '\n');
                proof {
                    crate::text::lemma_find_char_from(v@, 0, '\n');
                }
                let mut line: Vec<char> = Vec::new();
                let mut k: usize = 0;
                while k < end
                    invariant
                        k <= end <= v@.len(),
                        line@ == v@.subrange(0, k as int),
                    decreases end - k,
                {
                    line.push(v[k]);
                    k = k + 1;
                    assert(line@ =~= v@.subrange(0, k as int));
                }
                let t = trim_chars(&line);
                let tag = string_from_chars(&t);
                self.step = RepoInstallStep::CheckingOut;
                checkout_action(tag.as_str())
            },
            RepoInstallStep::CheckingOut => {
                if !success {
                    self.step = RepoInstallStep::Finished;
                    return git_failure("checkout requested git ref");
                }
                self.step = RepoInstallStep::UpdatingSubmodules;
                submodule_action()
            },
            RepoInstallStep::UpdatingSubmodules => {
                self.step = RepoInstallStep::Finished;
                if !success {
                    return git_failure("initialize git submodules");
                }
                RepoAction::InstallFromPath {
                    source_path: join_path(self.clone_path.as_str(), self.source_path.as_str()),
                }
            },
            RepoInstallStep::Finished => {
                RepoAction::Fail(CompileSketchesError::GitCommandFailed { task: owned("install from repository") })
            },
        }
    }
}

} // verus!
