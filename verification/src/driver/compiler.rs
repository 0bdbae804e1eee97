//! Compilation of sketches with `arduino-cli`: the command lines, and the bookkeeping of
//! the results of compilation tasks.
use vstd::prelude::*;

use crate::error::CompileSketchesError;
use crate::report::{get_sizes_from_output, get_warning_count_from_output, sizes_from_output};
use crate::report_model::{blank_size, SketchSize, Sketch, SketchSizeKind, SketchWarnings, AbsCount};
use crate::output_parse::warning_count;
use crate::text::{concat, extend_strings, join, join_strings, owned, push_owned, string_views};

verus! {

/// Commonly used resources for compiling sketches (shared by parallel compilation tasks).
#[derive(Debug, Clone)]
pub struct SketchCompiler {
    /// The fully qualified board name (FQBN) for which to compile.
    pub fqbn: String,
    /// The user-specified extra arguments passed to `arduino-cli compile`.
    pub cli_compile_flags: Vec<String>,
    /// The path to the Arduino CLI executable, once installed.
    pub arduino_cli_path: Option<String>,
    /// The path to the Arduino CLI user directory.
    pub arduino_cli_user_directory_path: String,
    /// The path to the Arduino CLI data directory.
    pub arduino_cli_data_directory_path: String,
    /// Whether to report compilation warnings (requires arduino-cli v0.14.0-rc.1 or later).
    pub enable_warnings_report: bool,
    /// Whether to pass `--verbose` to `arduino-cli compile` and show its output.
    pub verbose: bool,
}

impl Default for SketchCompiler {
    fn default() -> (r: Self)
        ensures
            r.fqbn@ == Seq::<char>::empty(),
            r.cli_compile_flags@.len() == 0,
            r.arduino_cli_path is None,
            r.arduino_cli_user_directory_path@ == Seq::<char>::empty(),
            r.arduino_cli_data_directory_path@ == Seq::<char>::empty(),
            !r.enable_warnings_report,
            !r.verbose,
    {
        SketchCompiler {
            fqbn: String::new(),
            cli_compile_flags: Vec::new(),
            arduino_cli_path: None,
            arduino_cli_user_directory_path: String::new(),
            arduino_cli_data_directory_path: String::new(),
            enable_warnings_report: false,
            verbose: false,
        }
    }
}

/// A command to run: the program, its arguments and extra environment variables.
#[derive(Debug)]
pub struct CliCommand {
    /// The program to run.
    pub program: String,
    /// The arguments, in order.
    pub args: Vec<String>,
    /// Environment variables (name, value) set for the command.
    pub env: Vec<(String, String)>,
}

/// The environment that points `arduino-cli` to its data and user directories.
pub open spec fn cli_env(c: SketchCompiler) -> Seq<(Seq<char>, Seq<char>)> {
    seq![
        ("ARDUINO_DIRECTORIES_DATA"@, c.arduino_cli_data_directory_path@),
        ("ARDUINO_DIRECTORIES_USER"@, c.arduino_cli_user_directory_path@),
    ]
}

/// The views of (name, value) pairs.
pub open spec fn env_views(env: Seq<(String, String)>) -> Seq<(Seq<char>, Seq<char>)> {
    env.map_values(|p: (String, String)| (p.0@, p.1@))
}

/// The arguments of `arduino-cli compile` for a sketch: the FQBN, the sketch, the user's
/// flags, `--verbose` when verbose, and `--clean --warnings all` when warnings are
/// reported.
pub open spec fn compile_args(c: SketchCompiler, sketch_path: Seq<char>) -> Seq<Seq<char>> {
    seq!["compile"@, "--fqbn"@, c.fqbn@, sketch_path] + string_views(c.cli_compile_flags@) + (
    if c.verbose {
        seq!["--verbose"@]
    } else {
        Seq::empty()
    }) + (if c.enable_warnings_report {
        seq!["--clean"@, "--warnings"@, "all"@]
    } else {
        Seq::empty()
    })
}

/// Enabling the warnings report only appends `--clean --warnings all` to the compile
/// command: all other arguments stay as they are, in the same order.
pub proof fn law_warnings_report_adds_clean(c: SketchCompiler, sketch_path: Seq<char>)
    ensures
        compile_args(SketchCompiler { enable_warnings_report: true, ..c }, sketch_path)
            == compile_args(SketchCompiler { enable_warnings_report: false, ..c }, sketch_path)
            + seq!["--clean"@, "--warnings"@, "all"@],
{
    let on = SketchCompiler { enable_warnings_report: true, ..c };
    let off = SketchCompiler { enable_warnings_report: false, ..c };
    assert(compile_args(on, sketch_path) =~= compile_args(off, sketch_path) + seq![
        "--clean"@,
        "--warnings"@,
        "all"@,
    ]);
}

impl SketchCompiler {
    /// The `arduino-cli` command with the given arguments, its data and user directories set
    /// in the environment; fails when the path of `arduino-cli` is not known yet.
    pub fn build_cli_command(&self, args: &Vec<String>) -> (r: Result<CliCommand, CompileSketchesError>)
        ensures
            match r {
                Ok(cmd) => self.arduino_cli_path matches Some(p) && cmd.program@ == p@
                    && string_views(cmd.args@) == string_views(args@) && env_views(cmd.env@)
                    == cli_env(*self),
                Err(e) => self.arduino_cli_path is None && e is ArduinoCliNotFound,
            },
    {
        let program = match &self.arduino_cli_path {
            Some(cli_path) => cli_path.clone(),
            None => {
                return Err(CompileSketchesError::ArduinoCliNotFound);
            },
        };
        let mut cmd_args: Vec<String> = Vec::new();
        extend_strings(&mut cmd_args, args);
        assert(string_views(cmd_args@) =~= string_views(args@));
        let mut env: Vec<(String, String)> = Vec::new();
        env.push((owned("ARDUINO_DIRECTORIES_DATA"), self.arduino_cli_data_directory_path.clone()));
        env.push((owned("ARDUINO_DIRECTORIES_USER"), self.arduino_cli_user_directory_path.clone()));
        assert(env_views(env@) =~= cli_env(*self));
        Ok(CliCommand { program, args: cmd_args, env })
    }

    /// The `arduino-cli compile` command for a sketch (see [`compile_args`]).
    pub fn compile_command(&self, sketch_path: &str) -> (r: Result<CliCommand, CompileSketchesError>)
        ensures
            match r {
                Ok(cmd) => self.arduino_cli_path matches Some(p) && cmd.program@ == p@
                    && string_views(cmd.args@) == compile_args(*self, sketch_path@) && env_views(
                    cmd.env@,
                ) == cli_env(*self),
                Err(e) => self.arduino_cli_path is None && e is ArduinoCliNotFound,
            },
    {
        let mut args: Vec<String> = Vec::new();
        push_owned(&mut args, "compile");
        push_owned(&mut args, "--fqbn");
        push_owned(&mut args, self.fqbn.as_str());
        push_owned(&mut args, sketch_path);
        extend_strings(&mut args, &self.cli_compile_flags);
        if self.verbose {
            push_owned(&mut args, "--verbose");
        }
        if self.enable_warnings_report {
            push_owned(&mut args, "--clean");
            push_owned(&mut args, "--warnings");
            push_owned(&mut args, "all");
        }
        assert(string_views(args@) =~= compile_args(*self, sketch_path@));
        self.build_cli_command(&args)
    }
}

/// How a command is shown in logs: the program, a space, and the arguments separated by
/// spaces.
pub open spec fn command_text(cmd: CliCommand) -> Seq<char> {
    cmd.program@ + " "@ + join(string_views(cmd.args@), " "@)
}

/// The text of a command as shown in logs.
pub fn invoked_command(cmd: &CliCommand) -> (r: String)
    ensures
        r@ == command_text(*cmd),
{
    let head = concat(cmd.program.as_str(), " ");
    let tail = join_strings(&cmd.args, " ");
    concat(head.as_str(), tail.as_str())
}

/// The `git` arguments that check out `git_ref` in the project's repository.
pub open spec fn checkout_args(git_ref: Seq<char>) -> Seq<Seq<char>> {
    seq!["checkout"@, git_ref]
}

/// The `git` arguments that check out `git_ref` (see [`checkout_args`]).
pub fn checkout_ref_args(git_ref: &str) -> (r: Vec<String>)
    ensures
        string_views(r@) == checkout_args(git_ref@),
{
    let mut args: Vec<String> = Vec::new();
    push_owned(&mut args, "checkout");
    push_owned(&mut args, git_ref);
    assert(string_views(args@) =~= checkout_args(git_ref@));
    args
}

/// The `git` arguments that check out again what was checked out before the last checkout
/// (`git checkout -`).
pub open spec fn restore_args() -> Seq<Seq<char>> {
    seq!["checkout"@, "-"@]
}

/// The `git` arguments that return to the head ref after the base batch (see
/// [`restore_args`]).
pub fn restore_head_args() -> (r: Vec<String>)
    ensures
        string_views(r@) == restore_args(),
{
    let mut args: Vec<String> = Vec::new();
    push_owned(&mut args, "checkout");
    push_owned(&mut args, "-");
    assert(string_views(args@) =~= restore_args());
    args
}

/// The phases of compiling the sketches of a run. With a base ref to compare against, the
/// head ref is compiled first as one batch; then the base ref is checked out in the same
/// repository path and compiled as a second batch; then the head ref is checked out again.
#[derive(Debug, Clone, Copy, PartialEq, Eq, Structural)]
pub enum CompilationPhase {
    /// Compile every sketch as the working tree holds it (the head ref).
    HeadBatch,
    /// Check out the base ref (see [`checkout_ref_args`]).
    CheckoutBase,
    /// Compile every sketch that exists at the base ref.
    BaseBatch,
    /// Check out the head ref again (see [`restore_head_args`]).
    RestoreHead,
    /// Nothing more to do.
    Done,
}

impl CompilationPhase {
    /// The most phases that can still follow this one.
    pub open spec fn phases_left(self) -> nat {
        match self {
            CompilationPhase::HeadBatch => 4,
            CompilationPhase::CheckoutBase => 3,
            CompilationPhase::BaseBatch => 2,
            CompilationPhase::RestoreHead => 1,
            CompilationPhase::Done => 0,
        }
    }
}

/// The phase after `phase`: `with_base` tells whether a base ref is compiled too,
/// `succeeded` whether the work of `phase` succeeded (it decides only after the checkout
/// of the base ref, whose failure skips the base batch).
pub open spec fn next_phase_of(phase: CompilationPhase, with_base: bool, succeeded: bool) -> CompilationPhase {
    match phase {
        CompilationPhase::HeadBatch => if with_base {
            CompilationPhase::CheckoutBase
        } else {
            CompilationPhase::Done
        },
        CompilationPhase::CheckoutBase => if succeeded {
            CompilationPhase::BaseBatch
        } else {
            CompilationPhase::Done
        },
        CompilationPhase::BaseBatch => CompilationPhase::RestoreHead,
        CompilationPhase::RestoreHead => CompilationPhase::Done,
        CompilationPhase::Done => CompilationPhase::Done,
    }
}

/// The phase after `phase` (see [`next_phase_of`]); every step brings the run closer to
/// `Done`.
pub fn next_phase(phase: CompilationPhase, with_base: bool, succeeded: bool) -> (r: CompilationPhase)
    ensures
        r == next_phase_of(phase, with_base, succeeded),
        phase != CompilationPhase::Done ==> r.phases_left() < phase.phases_left(),
{
    match phase {
        CompilationPhase::HeadBatch => if with_base {
            CompilationPhase::CheckoutBase
        } else {
            CompilationPhase::Done
        },
        CompilationPhase::CheckoutBase => if succeeded {
            CompilationPhase::BaseBatch
        } else {
            CompilationPhase::Done
        },
        CompilationPhase::BaseBatch => CompilationPhase::RestoreHead,
        CompilationPhase::RestoreHead => CompilationPhase::Done,
        CompilationPhase::Done => CompilationPhase::Done,
    }
}

/// The base batch comes only right after a successful checkout of the base ref, which
/// comes only right after the head batch when a base ref is compiled; without a base ref
/// the head batch is all. With a base ref and a successful checkout the phases are: head
/// batch, checkout, base batch, checkout of the head ref again, done.
pub proof fn law_base_batch_after_head_batch(phase: CompilationPhase, with_base: bool, succeeded: bool)
    ensures
        next_phase_of(phase, with_base, succeeded) == CompilationPhase::BaseBatch ==> phase
            == CompilationPhase::CheckoutBase && succeeded,
        next_phase_of(phase, with_base, succeeded) == CompilationPhase::CheckoutBase ==> phase
            == CompilationPhase::HeadBatch && with_base,
        !with_base ==> next_phase_of(CompilationPhase::HeadBatch, with_base, succeeded)
            == CompilationPhase::Done,
        with_base ==> ({
            let p1 = next_phase_of(CompilationPhase::HeadBatch, with_base, true);
            let p2 = next_phase_of(p1, with_base, true);
            let p3 = next_phase_of(p2, with_base, true);
            let p4 = next_phase_of(p3, with_base, true);
            &&& p1 == CompilationPhase::CheckoutBase
            &&& p2 == CompilationPhase::BaseBatch
            &&& p3 == CompilationPhase::RestoreHead
            &&& p4 == CompilationPhase::Done
        }),
{
}

// ---------------------------------------------------------------------------------------
// Results of compilation tasks
// ---------------------------------------------------------------------------------------

/// Which ref a compilation task compiled.
#[derive(Debug, Clone, Copy, PartialEq, Eq, Structural)]
pub enum CompileRef {
    /// The head ref (the commit being tested).
    Head,
    /// The base ref of a pull request.
    Base,
}

/// The outcome of one compilation task; `E` is the error of a task that could not run.
#[derive(Debug)]
pub enum CompilationTaskResult<E> {
    /// `arduino-cli compile` ran (successfully or not).
    Completed {
        /// The name of the sketch in reports.
        relative_sketch_path: String,
        /// The combined output of the command.
        output: String,
        /// Whether the compilation succeeded.
        success: bool,
        /// The command, as shown in logs.
        invoked_cmd: String,
        /// How long the compilation took.
        duration: std::time::Duration,
    },
    /// The compilation could not be run at all.
    Errored {
        /// The name of the sketch in reports.
        relative_sketch_path: String,
        /// Why the compilation could not be run.
        error: E,
        /// How long the attempt took.
        duration: std::time::Duration,
    },
}

/// A compilation task's result, tagged with the ref it compiled.
#[derive(Debug)]
pub struct CompileTaskEnvelope<E> {
    /// The ref that was compiled.
    pub compile_ref: CompileRef,
    /// The outcome of the task.
    pub result: CompilationTaskResult<E>,
}

/// The sizes recorded for a sketch whose compilation failed: RAM and flash, both blank.
pub open spec fn failed_sizes() -> Seq<SketchSizeKind> {
    seq![SketchSizeKind::Ram { size: blank_size() }, SketchSizeKind::Flash { size: blank_size() }]
}

/// `s` is the report of a sketch named `name` whose compilation produced `output`: sizes
/// from the output when it succeeded, blank otherwise; the warning count of the output when
/// warnings are reported.
pub open spec fn sketch_from_output(
    s: Sketch,
    name: Seq<char>,
    output: Seq<char>,
    success: bool,
    warnings_report: bool,
) -> bool {
    &&& s.name@ == name
    &&& s.compilation_success == success
    &&& s.sizes@ == if success {
        sizes_from_output(output)
    } else {
        failed_sizes()
    }
    &&& s.warnings == if warnings_report {
        Some(
            SketchWarnings {
                current: AbsCount { absolute: warning_count(output) as i32 },
                previous: AbsCount { absolute: 0 },
                delta: AbsCount { absolute: 0 },
            },
        )
    } else {
        None
    }
}

/// The report of one compiled sketch, built from the output of its compilation.
pub fn sketch_report(
    relative_sketch_path: String,
    output: &str,
    success: bool,
    enable_warnings_report: bool,
) -> (r: Sketch)
    ensures
        sketch_from_output(r, relative_sketch_path@, output@, success, enable_warnings_report),
{
    let sizes = if success {
        get_sizes_from_output(output)
    } else {
        let mut v: Vec<SketchSizeKind> = Vec::new();
        v.push(SketchSizeKind::Ram { size: SketchSize::default() });
        v.push(SketchSizeKind::Flash { size: SketchSize::default() });
        assert(v@ =~= failed_sizes());
        v
    };
    let warnings = if enable_warnings_report {
        Some(get_warning_count_from_output(output))
    } else {
        None
    };
    Sketch { name: relative_sketch_path, compilation_success: success, sizes, warnings }
}

/// The reports gathered from finished compilation tasks.
#[derive(Debug)]
pub struct JoinState {
    /// Reports of the sketches compiled at the head ref.
    pub sketch_reports: Vec<Sketch>,
    /// Reports of the sketches compiled at the base ref.
    pub base_sketch_reports: Vec<Sketch>,
    /// Whether every head-ref compilation ran and succeeded so far.
    pub all_compilations_successful: bool,
}

impl JoinState {
    /// No reports yet, and no failure.
    pub fn new() -> (r: Self)
        ensures
            r.sketch_reports@.len() == 0,
            r.base_sketch_reports@.len() == 0,
            r.all_compilations_successful,
    {
        JoinState {
            sketch_reports: Vec::new(),
            base_sketch_reports: Vec::new(),
            all_compilations_successful: true,
        }
    }

    /// Records the result of one compilation task: a task that ran adds a sketch report to
    /// the list of its ref; a failure at the head ref (a failed compilation or a task that
    /// could not run) clears `all_compilations_successful`; failures at the base ref never
    /// do.
    pub fn record<E>(&mut self, envelope: CompileTaskEnvelope<E>, enable_warnings_report: bool)
        ensures
            final(self).all_compilations_successful == (old(self).all_compilations_successful
                && !(envelope.compile_ref == CompileRef::Head && match envelope.result {
                CompilationTaskResult::Completed { success, .. } => !success,
                CompilationTaskResult::Errored { .. } => true,
            })),
            match envelope.result {
                CompilationTaskResult::Completed { relative_sketch_path, output, success, .. } => {
                    if envelope.compile_ref == CompileRef::Base {
                        &&& final(self).sketch_reports@ == old(self).sketch_reports@
                        &&& final(self).base_sketch_reports@.len() == old(
                            self,
                        ).base_sketch_reports@.len() + 1
                        &&& final(self).base_sketch_reports@.drop_last() == old(
                            self,
                        ).base_sketch_reports@
                        &&& sketch_from_output(
                            final(self).base_sketch_reports@.last(),
                            relative_sketch_path@,
                            output@,
                            success,
                            enable_warnings_report,
                        )
                    } else {
                        &&& final(self).base_sketch_reports@ == old(self).base_sketch_reports@
                        &&& final(self).sketch_reports@.len() == old(self).sketch_reports@.len()
                            + 1
                        &&& final(self).sketch_reports@.drop_last() == old(self).sketch_reports@
                        &&& sketch_from_output(
                            final(self).sketch_reports@.last(),
                            relative_sketch_path@,
                            output@,
                            success,
                            enable_warnings_report,
                        )
                    }
                },
                CompilationTaskResult::Errored { .. } => {
                    &&& final(self).sketch_reports@ == old(self).sketch_reports@
                    &&& final(self).base_sketch_reports@ == old(self).base_sketch_reports@
                },
            },
    {
        let compile_ref = envelope.compile_ref;
        match envelope.result {
            CompilationTaskResult::Completed { relative_sketch_path, output, success, .. } => {
                if !success && compile_ref == CompileRef::Head {
                    self.all_compilations_successful = false;
                }
                let sketch = sketch_report(
                    relative_sketch_path,
                    output.as_str(),
                    success,
                    enable_warnings_report,
                );
                if compile_ref == CompileRef::Base {
                    self.base_sketch_reports.push(sketch);
                } else {
                    self.sketch_reports.push(sketch);
                }
            },
            CompilationTaskResult::Errored { .. } => {
                if compile_ref == CompileRef::Head {
                    self.all_compilations_successful = false;
                }
            },
        }
    }
}

} // verus!
