//! The driver of the library: settings, default paths, and the decisions taken while
//! compiling sketches and assembling the report.
use vstd::prelude::*;

pub mod compiler;
pub mod install;

use crate::driver::compiler::SketchCompiler;
use crate::error::CompileSketchesError;
use crate::paths::{join_path, path_join, parent_of, path_parent, has_sketch_extension, path_has_sketch_extension};
use crate::report::{
    base_report_fits, summary_fits,
    apply_base_report, base_report_in_range, board_size_of, find_by_name, get_board_sizes_from_summary,
    get_sizes_summary_report, size_with_base, sizes_summary, sketch_sizes, summary_in_range,
    warnings_with_base,
};
use crate::report_model::{report_is_valid, Board, BoardSize, Report, Sketch, SketchSizeKind};
use crate::serde_types::{
    all_classified, mappings_view, no_dependencies, sort_dependencies, DepMapping, Dependencies,
    PairsView,
};
use crate::text::{concat, owned, replace_char, replace_char_str, same_text, split_whitespace,
    split_whitespace_str, string_views};

verus! {

// ---------------------------------------------------------------------------------------
// Default paths
// ---------------------------------------------------------------------------------------

/// The paths that `arduino-cli` uses, stemming from one root directory.
#[derive(Debug)]
pub struct DefaultPaths {
    /// The path to the Arduino CLI user directory (`<root>/Arduino`).
    pub arduino_cli_user_directory_path: String,
    /// The path to the Arduino libraries directory (`<root>/Arduino/libraries`).
    pub libraries_path: String,
    /// The path to the user platforms directory (`<root>/Arduino/hardware`).
    pub user_platforms_path: String,
    /// The path to the Arduino CLI data directory (`<root>/.arduino15`).
    pub arduino_cli_data_directory_path: String,
    /// The path to the Board Manager platforms directory (`<root>/.arduino15/packages`).
    pub board_manager_platforms_path: String,
}

/// `p` holds the default paths stemming from `root`.
pub open spec fn paths_rooted_at(p: DefaultPaths, root: Seq<char>) -> bool {
    let user = path_join(root, "Arduino"@);
    let data = path_join(root, ".arduino15"@);
    &&& p.arduino_cli_user_directory_path@ == user
    &&& p.libraries_path@ == path_join(user, "libraries"@)
    &&& p.user_platforms_path@ == path_join(user, "hardware"@)
    &&& p.arduino_cli_data_directory_path@ == data
    &&& p.board_manager_platforms_path@ == path_join(data, "packages"@)
}

/// The home directory of the current user, if it can be determined.
///
/// Trusted: calls `directories::UserDirs::new` and reads `UserDirs::home_dir`; the home
/// directory depends on the environment, so nothing is stated of it.
#[verifier::external_body]
fn user_home_dir() -> Option<String> {
    directories::UserDirs::new().map(|dirs| dirs.home_dir().to_string_lossy().to_string())
}

impl DefaultPaths {
    /// The default paths stemming from `root` (useful to isolate arduino-cli resources).
    pub fn new_in(root: &str) -> (r: Self)
        ensures
            paths_rooted_at(r, root@),
    {
        let arduino_cli_user_directory_path = join_path(root, "Arduino");
        let libraries_path = join_path(arduino_cli_user_directory_path.as_str(), "libraries");
        let user_platforms_path = join_path(arduino_cli_user_directory_path.as_str(), "hardware");
        let arduino_cli_data_directory_path = join_path(root, ".arduino15");
        let board_manager_platforms_path = join_path(
            arduino_cli_data_directory_path.as_str(),
            "packages",
        );
        DefaultPaths {
            arduino_cli_user_directory_path,
            libraries_path,
            user_platforms_path,
            arduino_cli_data_directory_path,
            board_manager_platforms_path,
        }
    }
}

impl Default for DefaultPaths {
    /// The default paths stemming from the user's home directory (or `.` when it cannot be
    /// determined).
    fn default() -> (r: Self)
        ensures
            exists|root: Seq<char>| paths_rooted_at(r, root),
    {
        let home = match user_home_dir() {
            Some(h) => h,
            None => owned("."),
        };
        let r = DefaultPaths::new_in(home.as_str());
        assert(paths_rooted_at(r, home@));
        r
    }
}

// ---------------------------------------------------------------------------------------
// Settings
// ---------------------------------------------------------------------------------------

/// The settings of a run, as given on the command line or in the environment.
#[derive(Debug)]
pub struct CliArgs {
    /// The desired version of arduino-cli ("latest" for the most recent release).
    pub cli_version: String,
    /// The fully qualified board name to target for compilation.
    pub fqbn: String,
    /// A YAML list of platforms to install before compilation.
    pub platforms: String,
    /// A YAML list of libraries to install before compilation.
    pub libraries: String,
    /// A YAML list of paths to sketches to compile (or whitespace-separated paths).
    pub sketch_paths: String,
    /// Additional flags to pass to arduino-cli during compilation (a YAML list, or
    /// whitespace-separated).
    pub cli_compile_flags: Option<String>,
    /// Enable verbose logging.
    pub verbose: bool,
    /// Exit with a non-zero code if any compilation fails.
    pub fail_on_compile_error: bool,
    /// Enable reports about change in compiled size (pull request events only).
    pub enable_deltas_report: bool,
    /// Enable reports about compilation warnings.
    pub enable_warnings_report: bool,
    /// The destination path to save reports (JSON files).
    pub sketches_report_path: String,
}

/// The main struct used to drive library behavior: what to install, what to compile, and
/// where to put the reports.
#[derive(Debug)]
pub struct CompileSketches {
    /// The version of the Arduino CLI to be used.
    pub cli_version: String,
    /// The platform dependencies to be used.
    pub platforms: Dependencies,
    /// The library dependencies to be used.
    pub libraries: Dependencies,
    /// The paths to the sketches to be compiled.
    pub sketch_paths: Vec<String>,
    /// Whether to fail on compile errors (defaults to `true`).
    pub fail_on_compile_error: bool,
    /// Whether to generate the deltas report (defaults to `false`; PR events only).
    pub enable_deltas_report: bool,
    /// The path for storing generated reports.
    pub sketches_report_path: String,
    /// The path used for installing libraries.
    pub libraries_path: String,
    /// The path used for installing platforms.
    pub user_platforms_path: String,
    /// The path used for installing platforms from the Arduino Board Manager.
    pub board_manager_platforms_path: String,
    /// Temporary paths to delete just before a normal exit.
    pub clean_up_paths: Vec<String>,
    /// The sketch compiler shared by parallel compilation tasks.
    pub sketch_compiler: SketchCompiler,
}

impl Default for CompileSketches {
    /// Reasonable defaults: default paths, FQBN `arduino:avr:uno`, the latest arduino-cli,
    /// failing on compile errors, no deltas report, reports in `Reports`.
    fn default() -> (r: Self)
        ensures
            r.cli_version@ == "latest"@,
            r.platforms@ == no_dependencies(),
            r.libraries@ == no_dependencies(),
            r.sketch_paths@.len() == 0,
            r.fail_on_compile_error,
            !r.enable_deltas_report,
            r.sketches_report_path@ == "Reports"@,
            r.clean_up_paths@.len() == 0,
            r.sketch_compiler.fqbn@ == "arduino:avr:uno"@,
            r.sketch_compiler.cli_compile_flags@.len() == 0,
            r.sketch_compiler.arduino_cli_path is None,
            !r.sketch_compiler.enable_warnings_report,
            !r.sketch_compiler.verbose,
            exists|p: DefaultPaths, root: Seq<char>|
                paths_rooted_at(p, root) && r.libraries_path == p.libraries_path
                    && r.user_platforms_path == p.user_platforms_path
                    && r.board_manager_platforms_path == p.board_manager_platforms_path
                    && r.sketch_compiler.arduino_cli_user_directory_path
                    == p.arduino_cli_user_directory_path
                    && r.sketch_compiler.arduino_cli_data_directory_path
                    == p.arduino_cli_data_directory_path,
    {
        let default_paths = DefaultPaths::default();
        let ghost p = default_paths;
        let sketch_compiler = SketchCompiler {
            fqbn: owned("arduino:avr:uno"),
            cli_compile_flags: Vec::new(),
            arduino_cli_path: None,
            arduino_cli_user_directory_path: default_paths.arduino_cli_user_directory_path,
            arduino_cli_data_directory_path: default_paths.arduino_cli_data_directory_path,
            enable_warnings_report: false,
            verbose: false,
        };
        CompileSketches {
            cli_version: owned("latest"),
            platforms: Dependencies::default(),
            libraries: Dependencies::default(),
            sketch_paths: Vec::new(),
            fail_on_compile_error: true,
            enable_deltas_report: false,
            sketches_report_path: owned("Reports"),
            libraries_path: default_paths.libraries_path,
            user_platforms_path: default_paths.user_platforms_path,
            board_manager_platforms_path: default_paths.board_manager_platforms_path,
            clean_up_paths: Vec::new(),
            sketch_compiler,
        }
    }
}

// ---------------------------------------------------------------------------------------
// Decoding the settings
// ---------------------------------------------------------------------------------------

/// The list of mappings that `serde_saphyr::from_str` decodes from `input` (as
/// `Vec<BTreeMap<String, String>>`, each mapping in key order); `None` when decoding fails.
pub uninterp spec fn yaml_mapping_list(input: Seq<char>) -> Option<Seq<PairsView>>;

/// Decodes a YAML list of string-to-string mappings.
///
/// Trusted: calls `serde_saphyr::from_str`; the contract only names the result.
#[verifier::external_body]
fn decode_yaml_mapping_list(input: &str) -> (r: Result<Vec<DepMapping>, serde_saphyr::Error>)
    ensures
        match r {
            Ok(v) => yaml_mapping_list(input@) == Some(mappings_view(v@)),
            Err(_) => yaml_mapping_list(input@) is None,
        },
{
    serde_saphyr::from_str::<Vec<std::collections::BTreeMap<String, String>>>(input).map(
        |list| list.into_iter().map(|m| DepMapping { entries: m.into_iter().collect() }).collect(),
    )
}

/// The list of strings that `serde_saphyr::from_str` decodes from `input` (as
/// `Vec<String>`); `None` when decoding fails.
pub uninterp spec fn yaml_string_list(input: Seq<char>) -> Option<Seq<Seq<char>>>;

/// Decodes a YAML list of strings.
///
/// Trusted: calls `serde_saphyr::from_str`; the contract only names the result.
#[verifier::external_body]
fn decode_yaml_string_list(input: &str) -> (r: Result<Vec<String>, serde_saphyr::Error>)
    ensures
        match r {
            Ok(v) => yaml_string_list(input@) == Some(string_views(v@)),
            Err(_) => yaml_string_list(input@) is None,
        },
{
    serde_saphyr::from_str::<Vec<String>>(input)
}

/// A list given either as a YAML list of strings or, failing that, as whitespace-separated
/// words.
pub open spec fn word_list(input: Seq<char>) -> Seq<Seq<char>> {
    match yaml_string_list(input) {
        Some(list) => list,
        None => split_whitespace(input),
    }
}

/// Decodes a list given as a YAML list of strings or as whitespace-separated words.
pub fn parse_word_list(input: &str) -> (r: Vec<String>)
    ensures
        string_views(r@) == word_list(input@),
{
    match decode_yaml_string_list(input) {
        Ok(list) => list,
        Err(_) => split_whitespace_str(input),
    }
}

/// The decoded dependency list `input` could not be used: it did not decode (a
/// `DecodeYamlDepList` error naming `dep_type` and the input), or one of its mappings could
/// not be classified (`ParseDependencyMapping`).
pub open spec fn dep_list_error(
    input: Seq<char>,
    dep_type: Seq<char>,
    e: CompileSketchesError,
) -> bool {
    match yaml_mapping_list(input) {
        None => e matches CompileSketchesError::DecodeYamlDepList { dep_type: t, input: i, .. }
            && t@ == dep_type && i@ == input,
        Some(list) => !all_classified(list) && e is ParseDependencyMapping,
    }
}

/// The dependency list `input` decodes and classifies into `d`.
pub open spec fn dep_list_ok(input: Seq<char>, d: Dependencies) -> bool {
    yaml_mapping_list(input) matches Some(list) && all_classified(list) && d@
        == sort_dependencies(list)
}

/// Decodes a YAML list of dependencies (`dep_type` is "platforms" or "libraries").
pub fn parse_dependency_list(input: String, dep_type: &str) -> (r: Result<
    Dependencies,
    CompileSketchesError,
>)
    ensures
        match r {
            Ok(d) => dep_list_ok(input@, d),
            Err(e) => dep_list_error(input@, dep_type@, e),
        },
{
    match decode_yaml_mapping_list(input.as_str()) {
        Ok(list) => Dependencies::from_input(list),
        Err(e) => Err(
            CompileSketchesError::DecodeYamlDepList {
                dep_type: owned(dep_type),
                input,
                source: Box::new(e),
            },
        ),
    }
}

impl CompileSketches {
    /// Builds the driver from the settings of a run and the default paths: the dependency
    /// lists are decoded from YAML, the sketch paths and compile flags from YAML lists or
    /// whitespace-separated words.
    pub fn from_cli_args(args: CliArgs, default_paths: DefaultPaths) -> (r: Result<
        Self,
        CompileSketchesError,
    >)
        ensures
            match r {
                Ok(cs) => {
                    &&& dep_list_ok(args.platforms@, cs.platforms)
                    &&& dep_list_ok(args.libraries@, cs.libraries)
                    &&& string_views(cs.sketch_paths@) == word_list(args.sketch_paths@)
                    &&& string_views(cs.sketch_compiler.cli_compile_flags@) == match args.cli_compile_flags {
                        Some(f) => word_list(f@),
                        None => Seq::empty(),
                    }
                    &&& cs.cli_version == args.cli_version
                    &&& cs.sketch_compiler.fqbn == args.fqbn
                    &&& cs.sketch_compiler.arduino_cli_path is None
                    &&& cs.sketch_compiler.enable_warnings_report == args.enable_warnings_report
                    &&& cs.sketch_compiler.verbose == args.verbose
                    &&& cs.fail_on_compile_error == args.fail_on_compile_error
                    &&& cs.enable_deltas_report == args.enable_deltas_report
                    &&& cs.sketches_report_path == args.sketches_report_path
                    &&& cs.libraries_path == default_paths.libraries_path
                    &&& cs.user_platforms_path == default_paths.user_platforms_path
                    &&& cs.board_manager_platforms_path == default_paths.board_manager_platforms_path
                    &&& cs.sketch_compiler.arduino_cli_user_directory_path
                        == default_paths.arduino_cli_user_directory_path
                    &&& cs.sketch_compiler.arduino_cli_data_directory_path
                        == default_paths.arduino_cli_data_directory_path
                    &&& cs.clean_up_paths@.len() == 0
                },
                Err(e) => if yaml_mapping_list(args.platforms@) matches Some(pl) && all_classified(
                    pl,
                ) {
                    dep_list_error(args.libraries@, "libraries"@, e)
                } else {
                    dep_list_error(args.platforms@, "platforms"@, e)
                },
            },
    {
        let platforms = parse_dependency_list(args.platforms, "platforms")?;
        let libraries = parse_dependency_list(args.libraries, "libraries")?;
        let sketch_paths = parse_word_list(args.sketch_paths.as_str());
        let cli_compile_flags = match &args.cli_compile_flags {
            Some(flags) => parse_word_list(flags.as_str()),
            None => {
                let v: Vec<String> = Vec::new();
                assert(string_views(v@) =~= Seq::<Seq<char>>::empty());
                v
            },
        };
        let sketch_compiler = SketchCompiler {
            fqbn: args.fqbn,
            cli_compile_flags,
            arduino_cli_path: None,
            arduino_cli_user_directory_path: default_paths.arduino_cli_user_directory_path,
            arduino_cli_data_directory_path: default_paths.arduino_cli_data_directory_path,
            enable_warnings_report: args.enable_warnings_report,
            verbose: args.verbose,
        };
        Ok(
            CompileSketches {
                cli_version: args.cli_version,
                platforms,
                libraries,
                sketch_paths,
                fail_on_compile_error: args.fail_on_compile_error,
                enable_deltas_report: args.enable_deltas_report,
                sketches_report_path: args.sketches_report_path,
                libraries_path: default_paths.libraries_path,
                user_platforms_path: default_paths.user_platforms_path,
                board_manager_platforms_path: default_paths.board_manager_platforms_path,
                clean_up_paths: Vec::new(),
                sketch_compiler,
            },
        )
    }

    /// Relocates the paths used by this instance to those of `new_paths` (before any
    /// installation or compilation).
    pub fn relocate_paths(&mut self, new_paths: DefaultPaths)
        ensures
            final(self).libraries_path == new_paths.libraries_path,
            final(self).user_platforms_path == new_paths.user_platforms_path,
            final(self).board_manager_platforms_path == new_paths.board_manager_platforms_path,
            final(self).sketch_compiler.arduino_cli_user_directory_path
                == new_paths.arduino_cli_user_directory_path,
            final(self).sketch_compiler.arduino_cli_data_directory_path
                == new_paths.arduino_cli_data_directory_path,
            final(self).cli_version == old(self).cli_version,
            final(self).platforms == old(self).platforms,
            final(self).libraries == old(self).libraries,
            final(self).sketch_paths == old(self).sketch_paths,
            final(self).fail_on_compile_error == old(self).fail_on_compile_error,
            final(self).enable_deltas_report == old(self).enable_deltas_report,
            final(self).sketches_report_path == old(self).sketches_report_path,
            final(self).clean_up_paths == old(self).clean_up_paths,
            final(self).sketch_compiler.fqbn == old(self).sketch_compiler.fqbn,
            final(self).sketch_compiler.cli_compile_flags == old(self).sketch_compiler.cli_compile_flags,
            final(self).sketch_compiler.arduino_cli_path == old(self).sketch_compiler.arduino_cli_path,
            final(self).sketch_compiler.enable_warnings_report == old(
                self,
            ).sketch_compiler.enable_warnings_report,
            final(self).sketch_compiler.verbose == old(self).sketch_compiler.verbose,
    {
        self.libraries_path = new_paths.libraries_path;
        self.user_platforms_path = new_paths.user_platforms_path;
        self.board_manager_platforms_path = new_paths.board_manager_platforms_path;
        self.sketch_compiler.arduino_cli_user_directory_path =
        new_paths.arduino_cli_user_directory_path;
        self.sketch_compiler.arduino_cli_data_directory_path =
        new_paths.arduino_cli_data_directory_path;
    }
}


// ---------------------------------------------------------------------------------------
// Finding sketches
// ---------------------------------------------------------------------------------------

/// The directory recorded for a file found while searching a directory for sketches: its
/// parent, when the file has a sketch extension.
pub open spec fn sketch_dir_of(file: Seq<char>) -> Option<Seq<char>> {
    if has_sketch_extension(file) {
        parent_of(file)
    } else {
        None
    }
}

/// The directory to record for a file found while searching for sketches (see
/// [`sketch_dir_of`]). Whether the path is a file is left to the caller.
pub fn sketch_dir_for(file: &str) -> (r: Option<String>)
    ensures
        match r {
            Some(d) => sketch_dir_of(file@) == Some(d@),
            None => sketch_dir_of(file@) is None,
        },
{
    if path_has_sketch_extension(file) {
        path_parent(file)
    } else {
        None
    }
}

/// No path occurs twice in `paths`.
pub open spec fn no_duplicates(paths: Seq<Seq<char>>) -> bool {
    forall|i: int, j: int| 0 <= i < j < paths.len() ==> paths[i] != paths[j]
}

/// Adds `path` to the set of found sketches `found` unless it is already there: a list
/// without duplicates stays without duplicates.
pub fn add_found_sketch(found: &mut Vec<String>, path: String)
    ensures
        no_duplicates(string_views(old(found)@)) ==> no_duplicates(string_views(final(found)@)),
        string_views(old(found)@).contains(path@) ==> final(found)@ == old(found)@,
        !string_views(old(found)@).contains(path@) ==> string_views(final(found)@) == string_views(
            old(found)@,
        ).push(path@),
{
    let mut i: usize = 0;
    while i < found.len()
        invariant
            i <= found@.len(),
            forall|k: int| 0 <= k < i ==> found@[k]@ != path@,
        decreases found.len() - i,
    {
        if found[i] == path {
            assert(string_views(found@)[i as int] == path@);
            return;
        }
        i = i + 1;
    }
    let ghost before = string_views(found@);
    assert(!before.contains(path@)) by {
        assert forall|k: int| 0 <= k < before.len() implies before[k] != path@ by {
            assert(before[k] == found@[k]@);
        }
    }
    found.push(path);
    assert(string_views(found@) =~= before.push(path@));
    assert(no_duplicates(before) ==> no_duplicates(string_views(found@))) by {
        let after = string_views(found@);
        if no_duplicates(before) {
            assert forall|i: int, j: int| 0 <= i < j < after.len() implies after[i] != after[j] by {
                if j == before.len() {
                    assert(before.contains(before[i]));
                } else {
                    assert(after[i] == before[i] && after[j] == before[j]);
                }
            }
        }
    }
}

// ---------------------------------------------------------------------------------------
// The report of a run
// ---------------------------------------------------------------------------------------

/// The report file for a board: `<reports>/<FQBN with every ':' replaced by '-'>.json`.
pub open spec fn report_file(report_path: Seq<char>, fqbn: Seq<char>) -> Seq<char> {
    path_join(report_path, replace_char(fqbn, ':', '-') + ".json"@)
}

/// The URL of a commit of a GitHub repository (`owner/name`).
pub open spec fn commit_url_of(repo: Seq<char>, commit_hash: Seq<char>) -> Seq<char> {
    "https://github.com/"@ + repo + "/commit/"@ + commit_hash
}

/// The URL of a commit of a GitHub repository.
pub fn commit_url(repo: &str, commit_hash: &str) -> (r: String)
    ensures
        r@ == commit_url_of(repo@, commit_hash@),
{
    let a = concat("https://github.com/", repo);
    let b = concat(a.as_str(), "/commit/");
    concat(b.as_str(), commit_hash)
}

/// The sizes of each sketch once compared with the base compilation (when deltas are
/// enabled).
pub open spec fn sizes_after_base(reports: Seq<Sketch>, base: Seq<Sketch>, deltas: bool) -> Seq<
    Seq<SketchSizeKind>,
> {
    reports.map_values(
        |s: Sketch|
            if deltas {
                match find_by_name(base, s.name@) {
                    Some(b) => s.sizes@.map_values(|k: SketchSizeKind| size_with_base(k, b.sizes@)),
                    None => s.sizes@,
                }
            } else {
                s.sizes@
            },
    )
}

/// The board sizes of a report, from the summary of the sketch sizes: `None` when the
/// summary is empty.
pub open spec fn board_sizes_of(summary: Seq<SketchSizeKind>) -> Option<Seq<BoardSize>> {
    if summary.len() == 0 {
        None
    } else {
        Some(summary.map_values(|k: SketchSizeKind| board_size_of(k)))
    }
}

/// The summary has what a report needs: at least one size, each with a maximum.
pub open spec fn summary_is_complete(summary: Seq<SketchSizeKind>) -> bool {
    summary.len() > 0 && forall|k: int| 0 <= k < summary.len() ==> (#[trigger] board_size_of(
        summary[k],
    )).maximum_of() is Some
}

/// `report` is the report of a run: one board (the FQBN) with the sketches (compared with
/// the base compilation when deltas are enabled), the sizes of its summary, and the commit.
pub open spec fn is_run_report(
    report: Report,
    commit_hash: Seq<char>,
    repo: Seq<char>,
    fqbn: Seq<char>,
    reports: Seq<Sketch>,
    base: Seq<Sketch>,
    deltas: bool,
) -> bool {
    let summary = sizes_summary(sizes_after_base(reports, base, deltas));
    &&& report.commit_hash@ == commit_hash
    &&& report.commit_url@ == commit_url_of(repo, commit_hash)
    &&& report.boards@.len() == 1
    &&& report.boards@[0].board@ == fqbn
    &&& match (report.boards@[0].sizes, board_sizes_of(summary)) {
        (Some(v), Some(w)) => v@ == w,
        (None, None) => true,
        _ => false,
    }
    &&& report.boards@[0].sketches@.len() == reports.len()
    &&& forall|i: int|
        0 <= i < reports.len() ==> {
            let before = #[trigger] reports[i];
            let after = report.boards@[0].sketches@[i];
            &&& after.name == before.name
            &&& after.compilation_success == before.compilation_success
            &&& after.sizes@ == sizes_after_base(reports, base, deltas)[i]
            &&& after.warnings == if deltas {
                match find_by_name(base, before.name@) {
                    Some(b) => warnings_with_base(before.warnings, b.warnings),
                    None => before.warnings,
                }
            } else {
                before.warnings
            }
        }
}

/// `r` is what assembling the report of a run gives: the report of the run (see
/// [`is_run_report`]) when its summary is complete, else `IncompleteReport` carrying it.
pub open spec fn assembled_report(
    cs: CompileSketches,
    commit_hash: Seq<char>,
    repo: Seq<char>,
    reports: Seq<Sketch>,
    base: Seq<Sketch>,
    r: Result<Report, CompileSketchesError>,
) -> bool {
    let summary = sizes_summary(sizes_after_base(reports, base, cs.enable_deltas_report));
    match r {
        Ok(report) => summary_is_complete(summary) && is_run_report(
            report,
            commit_hash,
            repo,
            cs.sketch_compiler.fqbn@,
            reports,
            base,
            cs.enable_deltas_report,
        ),
        Err(e) => !summary_is_complete(summary) && (e matches CompileSketchesError::IncompleteReport(
            report,
        ) && is_run_report(
            report,
            commit_hash,
            repo,
            cs.sketch_compiler.fqbn@,
            reports,
            base,
            cs.enable_deltas_report,
        )),
    }
}

/// The sketch reports can be assembled without overflow: the comparison with the base
/// report (when deltas are enabled) and the summary of the compared sizes compute only
/// values that fit their types.
pub open spec fn report_inputs_fit(reports: Seq<Sketch>, base: Seq<Sketch>, deltas: bool) -> bool {
    &&& deltas ==> base_report_in_range(reports, base)
    &&& summary_in_range(sizes_after_base(reports, base, deltas))
}

/// A copy of a sketch report.
fn copy_sketch(s: &Sketch) -> (r: Sketch)
    ensures
        r.name@ == s.name@,
        r.compilation_success == s.compilation_success,
        r.sizes@ == s.sizes@,
        r.warnings == s.warnings,
{
    let mut sizes: Vec<SketchSizeKind> = Vec::new();
    let mut k: usize = 0;
    while k < s.sizes.len()
        invariant
            k <= s.sizes@.len(),
            sizes@ == s.sizes@.take(k as int),
        decreases s.sizes.len() - k,
    {
        sizes.push(s.sizes[k]);
        k = k + 1;
        assert(sizes@ =~= s.sizes@.take(k as int));
    }
    assert(sizes@ =~= s.sizes@);
    Sketch {
        name: owned(s.name.as_str()),
        compilation_success: s.compilation_success,
        sizes,
        warnings: s.warnings,
    }
}

impl CompileSketches {
    /// The file that the report is written to (see [`report_file`]).
    pub fn report_file_path(&self) -> (r: String)
        ensures
            r@ == report_file(self.sketches_report_path@, self.sketch_compiler.fqbn@),
    {
        let name = replace_char_str(self.sketch_compiler.fqbn.as_str(), ':', '-');
        let file = concat(name.as_str(), ".json");
        join_path(self.sketches_report_path.as_str(), file.as_str())
    }

    /// Whether the base ref must be compiled too: deltas are enabled and the event is a
    /// pull request.
    pub fn needs_base_compilation(&self, event_name: Option<&str>) -> (r: bool)
        ensures
            r == (self.enable_deltas_report && (event_name matches Some(e) && e@
                == "pull_request"@)),
    {
        match event_name {
            Some(e) => self.enable_deltas_report && same_text(e, "pull_request"),
            None => false,
        }
    }

    /// Assembles the report of a run from the sketch reports of the head ref: compared with
    /// the base ref's reports when deltas are enabled, summarised into the board's sizes.
    /// A report without usable board sizes is returned as `IncompleteReport`.
    pub fn assemble_report(
        &self,
        commit_hash: String,
        repo: &str,
        sketch_reports: Vec<Sketch>,
        base_sketch_reports: &[Sketch],
    ) -> (r: Result<Report, CompileSketchesError>)
        requires
            self.enable_deltas_report ==> base_report_in_range(
                sketch_reports@,
                base_sketch_reports@,
            ),
            summary_in_range(
                sizes_after_base(sketch_reports@, base_sketch_reports@, self.enable_deltas_report),
            ),
        ensures
            assembled_report(
                *self,
                commit_hash@,
                repo@,
                sketch_reports@,
                base_sketch_reports@,
                r,
            ),
    {
        let ghost initial = sketch_reports@;
        let ghost after_sizes = sizes_after_base(
            initial,
            base_sketch_reports@,
            self.enable_deltas_report,
        );
        let mut sketches = sketch_reports;
        if self.enable_deltas_report {
            apply_base_report(&mut sketches, base_sketch_reports);
        }
        assert(sketch_sizes(sketches@) =~= after_sizes);
        let summary = get_sizes_summary_report(&sketches);
        let board_sizes = get_board_sizes_from_summary(&summary);
        let url = commit_url(repo, commit_hash.as_str());
        let mut boards: Vec<Board> = Vec::new();
        boards.push(
            Board { board: self.sketch_compiler.fqbn.clone(), sketches, sizes: board_sizes },
        );
        let report = Report { boards, commit_hash, commit_url: url };
        let valid = report.is_valid();
        proof {
            let b = report.boards@[0];
            assert(report_is_valid(report) <==> crate::report_model::board_is_complete(b)) by {
                if crate::report_model::board_is_complete(b) {
                    assert forall|i: int| 0 <= i < report.boards@.len() implies crate::report_model::board_is_complete(
                        #[trigger] report.boards@[i],
                    ) by {
                        assert(i == 0);
                    }
                }
            }
            if summary@.len() > 0 {
                let v = b.sizes.unwrap()@;
                assert(crate::report_model::board_is_complete(b) <==> summary_is_complete(summary@)) by {
                    if summary_is_complete(summary@) {
                        assert forall|j: int| 0 <= j < v.len() implies (#[trigger] v[j]).maximum_of() is Some by {
                            assert(v[j] == board_size_of(summary@[j]));
                        }
                    }
                    if crate::report_model::board_is_complete(b) {
                        assert forall|k: int| 0 <= k < summary@.len() implies (#[trigger] board_size_of(
                            summary@[k],
                        )).maximum_of() is Some by {
                            assert(v[k] == board_size_of(summary@[k]));
                        }
                    }
                }
            }
        }
        if !valid {
            return Err(CompileSketchesError::IncompleteReport(report));
        }
        Ok(report)
    }

    /// Assembles the report of a run (see [`CompileSketches::assemble_report`]) when no
    /// difference or running total it computes overflows its type; `None` otherwise.
    pub fn assemble_report_checked(
        &self,
        commit_hash: String,
        repo: &str,
        sketch_reports: Vec<Sketch>,
        base_sketch_reports: &[Sketch],
    ) -> (r: Option<Result<Report, CompileSketchesError>>)
        ensures
            r is None <==> !report_inputs_fit(
                sketch_reports@,
                base_sketch_reports@,
                self.enable_deltas_report,
            ),
            r matches Some(res) ==> assembled_report(
                *self,
                commit_hash@,
                repo@,
                sketch_reports@,
                base_sketch_reports@,
                res,
            ),
    {
        let deltas = self.enable_deltas_report;
        if deltas && !base_report_fits(&sketch_reports, base_sketch_reports) {
            return None;
        }
        let mut compared: Vec<Sketch> = Vec::new();
        let mut i: usize = 0;
        while i < sketch_reports.len()
            invariant
                i <= sketch_reports@.len(),
                compared@.len() == i,
                forall|k: int|
                    0 <= k < i ==> {
                        &&& (#[trigger] compared@[k]).name@ == sketch_reports@[k].name@
                        &&& compared@[k].compilation_success == sketch_reports@[k].compilation_success
                        &&& compared@[k].sizes@ == sketch_reports@[k].sizes@
                        &&& compared@[k].warnings == sketch_reports@[k].warnings
                    },
            decreases sketch_reports.len() - i,
        {
            compared.push(copy_sketch(&sketch_reports[i]));
            i = i + 1;
        }
        let ghost copies = compared@;
        if deltas {
            apply_base_report(&mut compared, base_sketch_reports);
        }
        assert(sketch_sizes(compared@) =~= sizes_after_base(
            sketch_reports@,
            base_sketch_reports@,
            deltas,
        )) by {
            assert forall|k: int| 0 <= k < compared@.len() implies #[trigger] sketch_sizes(compared@)[k]
                == sizes_after_base(sketch_reports@, base_sketch_reports@, deltas)[k] by {
                assert(copies[k].name@ == sketch_reports@[k].name@);
            }
        }
        if !summary_fits(&compared) {
            return None;
        }
        Some(self.assemble_report(commit_hash, repo, sketch_reports, base_sketch_reports))
    }

    /// The outcome of a run once the report is written: `CompilationFailed` when a
    /// head-ref compilation failed and failing on compile errors is enabled.
    pub fn compilation_outcome(&self, all_compilations_successful: bool) -> (r: Result<
        (),
        CompileSketchesError,
    >)
        ensures
            r is Err <==> (self.fail_on_compile_error && !all_compilations_successful),
            r matches Err(e) ==> e is CompilationFailed,
    {
        if self.fail_on_compile_error && !all_compilations_successful {
            Err(CompileSketchesError::CompilationFailed)
        } else {
            Ok(())
        }
    }
}

} // verus!
