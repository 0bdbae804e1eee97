# arduino_compile_sketches

Compiles the Arduino sketches of a project with `arduino-cli`, installs the platforms and
libraries they depend on, and writes a JSON report of their flash and RAM sizes and of the
number of compiler warnings, optionally compared with the base ref of a pull request.

## Layout

- `src/` is the library, verified with Verus:
  - `driver.rs`: the settings of a run (decoded from YAML lists or words), default paths,
    finding sketches, and the assembly of the report (with a checked variant that refuses
    inputs whose differences or totals overflow);
  - `driver/compiler.rs`: the `arduino-cli compile` command, the order of the head and
    base batches (head batch, `git checkout` of the base ref in the same repository path,
    base batch, checkout of the head ref again), and the bookkeeping of finished
    compilation tasks;
  - `driver/install.rs` and its `libraries`/`platforms` modules: the decisions of installing
    arduino-cli and dependencies (cache reuse, destinations, archive formats, the git steps
    of an installation from a repository as a state machine);
  - `report.rs` and `report_model.rs`: deltas against a base compilation and the size
    summary, with the laws they obey;
  - `output_parse.rs`: reading sizes, warnings and the arduino-cli version from command
    output, each as a grammar stated in spec functions;
  - `serde_types.rs`: the classification of dependency mappings and the lookup of installed
    platforms;
  - `logging.rs`, `paths.rs`, `text.rs`, `utils.rs`: log line shapes, path and string
    helpers, durations and git refs.
- `tests/`: tests of the library on concrete values.
- `app/`: the program around the library: command line, logger, downloads, archives,
  processes, the file system and the JSON artifact.
