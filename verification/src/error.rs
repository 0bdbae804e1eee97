//! The errors that the library reports.
use vstd::prelude::*;

use crate::report_model::Report;

verus! {

/// The error raised by `serde_saphyr` when a YAML document cannot be decoded.
#[verifier::external_type_specification]
#[verifier::external_body]
pub struct ExYamlError(serde_saphyr::Error);

/// Error type that is returned when something went wrong.
#[derive(Debug)]
pub enum CompileSketchesError {
    /// A URL could not be parsed.
    UrlParse(url::ParseError),
    /// A Git reference (`"base"` or `"head"`) could not be found for the repository.
    UnknownGitRef(String),
    /// Decoding a YAML list of dependencies (`dep_type` is "platforms" or "libraries") failed.
    DecodeYamlDepList {
        /// The type of dependency being decoded.
        dep_type: String,
        /// The input string that could not be decoded.
        input: String,
        /// The underlying error of the YAML decoder.
        source: Box<serde_saphyr::Error>,
    },
    /// No sketches were found for the provided paths.
    NoSketchesFound,
    /// A YAML mapping of a dependency has none of the keys that identify a dependency.
    ParseDependencyMapping,
    /// An `arduino-cli` command emitted a non-zero exit code.
    ArduinoCliCommandFailed {
        /// The combined output of the command.
        output: String,
    },
    /// The `arduino-cli` binary is not known (not installed yet).
    ArduinoCliNotFound,
    /// One or more compilations failed.
    CompilationFailed,
    /// A git command failed (emitted a non-zero exit code).
    GitCommandFailed {
        /// The task that failed.
        task: String,
    },
    /// A required field of a platform dependency is missing.
    PlatformDepMissingField {
        /// The key of the missing field.
        key: String,
        /// The ID of the dependency that is missing the field.
        id: String,
    },
    /// The destination path of an installation has no final name (e.g. it ends in `..`).
    MalformedInstallDestPathName(String),
    /// The installation path already exists (and overwriting was not requested).
    InstallPathAlreadyExists {
        /// The path that already exists.
        path: String,
    },
    /// The archive format (judged by the file name) is not supported.
    ArchiveFormatUnsupported(String),
    /// The generated report does not have enough data to form usable feedback.
    IncompleteReport(Report),
}

} // verus!
