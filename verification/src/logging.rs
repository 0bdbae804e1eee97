//! How log records are shown: the level filter of a run, which records are shown, the
//! label of each level, and the shape of a log line.
//!
//! Writing to standard output and coloring the labels belong to the program that installs
//! the logger; this module decides what is written.
use vstd::prelude::*;

use crate::serde_types::opt_str_view;
use crate::text::{concat, owned, same_text, str_starts_with, starts_with};

verus! {

/// The severity of a log record, from the most severe to the least.
#[derive(Debug, Clone, Copy, PartialEq, Eq, Structural)]
pub enum LogLevel {
    /// An error.
    Error,
    /// A warning.
    Warn,
    /// Information.
    Info,
    /// Debugging details.
    Debug,
    /// Tracing details.
    Trace,
}

impl LogLevel {
    /// The rank of a level: 1 for `Error` up to 5 for `Trace`.
    pub open spec fn rank(self) -> int {
        match self {
            LogLevel::Error => 1,
            LogLevel::Warn => 2,
            LogLevel::Info => 3,
            LogLevel::Debug => 4,
            LogLevel::Trace => 5,
        }
    }

    /// The label of a level: its upper-case name, right-aligned in five columns.
    pub open spec fn label_of(self) -> Seq<char> {
        match self {
            LogLevel::Error => "ERROR"@,
            LogLevel::Warn => " WARN"@,
            LogLevel::Info => " INFO"@,
            LogLevel::Debug => "DEBUG"@,
            LogLevel::Trace => "TRACE"@,
        }
    }

    /// The label of a level (see [`LogLevel::label_of`]).
    pub fn label(&self) -> (r: String)
        ensures
            r@ == self.label_of(),
    {
        match self {
            LogLevel::Error => owned("ERROR"),
            LogLevel::Warn => owned(" WARN"),
            LogLevel::Info => owned(" INFO"),
            LogLevel::Debug => owned("DEBUG"),
            LogLevel::Trace => owned("TRACE"),
        }
    }

    /// The rank of a level (see [`LogLevel::rank`]).
    fn rank_exec(&self) -> (r: u8)
        ensures
            r == self.rank(),
    {
        match self {
            LogLevel::Error => 1,
            LogLevel::Warn => 2,
            LogLevel::Info => 3,
            LogLevel::Debug => 4,
            LogLevel::Trace => 5,
        }
    }

    /// Whether a record of this level passes the filter `max_level`: it is at least as
    /// severe.
    pub fn passes(&self, max_level: &LogLevel) -> (r: bool)
        ensures
            r == (self.rank() <= max_level.rank()),
    {
        self.rank_exec() <= max_level.rank_exec()
    }
}

/// The level filter of a run: debugging details when verbose, information otherwise.
pub fn max_level_for(verbose: bool) -> (r: LogLevel)
    ensures
        r == (if verbose {
            LogLevel::Debug
        } else {
            LogLevel::Info
        }),
{
    if verbose {
        LogLevel::Debug
    } else {
        LogLevel::Info
    }
}

/// The target of records that drive a CI workflow's log grouping; they are written as they
/// are, whatever the filter.
pub open spec fn ci_command_target() -> Seq<char> {
    "CI_LOG_CMD"@
}

/// The shape of a log line.
#[derive(Debug, Clone, Copy, PartialEq, Eq, Structural)]
pub enum LineShape {
    /// The message alone.
    Bare,
    /// `[LABEL]: message`.
    Labelled,
    /// `[LABEL]{module:line}: message`.
    Located,
}

/// The record comes from this program: no module is known, or the module is one of this
/// project's crates.
pub open spec fn is_own_module(module: Option<Seq<char>>) -> bool {
    match module {
        None => true,
        Some(m) => starts_with(m, "arduino_compile_sketches"@) || starts_with(
            m,
            "compile_sketches"@,
        ),
    }
}

/// How a record is shown: CI commands bare, whatever the filter; other records only when
/// they pass the filter, labelled when they come from this program and located otherwise.
pub open spec fn line_shape_of(target: Seq<char>, module: Option<Seq<char>>, passes: bool) -> Option<
    LineShape,
> {
    if target == ci_command_target() {
        Some(LineShape::Bare)
    } else if !passes {
        None
    } else if is_own_module(module) {
        Some(LineShape::Labelled)
    } else {
        Some(LineShape::Located)
    }
}

/// Decides how a record is shown (see [`line_shape_of`]); `passes` tells whether the
/// record passes the level filter. `None`: it is not shown.
pub fn line_shape(target: &str, module: Option<&str>, passes: bool) -> (r: Option<LineShape>)
    ensures
        r == line_shape_of(target@, opt_str_view(module), passes),
{
    if same_text(target, "CI_LOG_CMD") {
        return Some(LineShape::Bare);
    }
    if !passes {
        return None;
    }
    let own = match module {
        None => true,
        Some(m) => str_starts_with(m, "arduino_compile_sketches") || str_starts_with(
            m,
            "compile_sketches",
        ),
    };
    if own {
        Some(LineShape::Labelled)
    } else {
        Some(LineShape::Located)
    }
}

/// The text of a log line of the given shape.
pub open spec fn log_line_text(
    shape: LineShape,
    label: Seq<char>,
    module: Seq<char>,
    line: Seq<char>,
    message: Seq<char>,
) -> Seq<char> {
    match shape {
        LineShape::Bare => message,
        LineShape::Labelled => "["@ + label + "]: "@ + message,
        LineShape::Located => "["@ + label + "]{"@ + module + ":"@ + line + "}: "@ + message,
    }
}

/// Builds a log line (see [`log_line_text`]); `label` is the (possibly colored) level
/// label and `line` the source line number as text.
pub fn format_log_line(shape: LineShape, label: &str, module: &str, line: &str, message: &str) -> (r:
    String)
    ensures
        r@ == log_line_text(shape, label@, module@, line@, message@),
{
    match shape {
        LineShape::Bare => owned(message),
        LineShape::Labelled => {
            let a = concat("[", label);
            let b = concat(a.as_str(), "]: ");
            concat(b.as_str(), message)
        },
        LineShape::Located => {
            let a = concat("[", label);
            let b = concat(a.as_str(), "]{");
            let c = concat(b.as_str(), module);
            let d = concat(c.as_str(), ":");
            let e = concat(d.as_str(), line);
            let f = concat(e.as_str(), "}: ");
            concat(f.as_str(), message)
        },
    }
}

/// Verbose runs show debugging details and hide tracing; other runs show information and
/// hide debugging details. Errors and warnings always pass.
pub proof fn law_verbose_shows_debug(verbose: bool)
    ensures
        ({
            let max = if verbose {
                LogLevel::Debug
            } else {
                LogLevel::Info
            };
            &&& LogLevel::Error.rank() <= max.rank()
            &&& LogLevel::Warn.rank() <= max.rank()
            &&& LogLevel::Info.rank() <= max.rank()
            &&& (LogLevel::Debug.rank() <= max.rank() <==> verbose)
            &&& !(LogLevel::Trace.rank() <= max.rank())
        }),
{
}

} // verus!
