//! The logic of `arduino-compile-sketches`: the settings of a run, the dependencies to
//! install and how, the `arduino-cli` commands, the reading of compiler output, and the
//! assembly of the JSON report of sketch sizes and warnings, with its comparison against a
//! base ref.
pub mod driver;
pub mod error;
pub mod logging;
pub mod output_parse;
pub mod paths;
pub mod report;
pub mod report_model;
pub mod serde_types;
pub mod text;
pub mod utils;
