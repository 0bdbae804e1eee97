use arduino_compile_sketches::driver::compiler::{
    checkout_ref_args, invoked_command, next_phase, restore_head_args, CompilationPhase, CompilationTaskResult, CompileRef, CompileTaskEnvelope,
    JoinState, SketchCompiler,
};
use arduino_compile_sketches::driver::install::platforms::default_platform;
use arduino_compile_sketches::driver::install::{
    archive_format, check_cli_version, cli_archive_names, cli_cache_decision, cli_command_result,
    cli_download_url, download_file_name, existing_destination_action, get_archive_root_path,
    install_destination, ArchiveEntry, ArchiveFormat, CliCacheDecision, RepoAction, RepoInstall,
    RepoInstallStep, VersionCheck,
};
use arduino_compile_sketches::driver::{
    commit_url, parse_word_list, CliArgs, CompileSketches, DefaultPaths,
};
use arduino_compile_sketches::error::CompileSketchesError;
use arduino_compile_sketches::report_model::{SizeValue, SketchSizeKind};
use arduino_compile_sketches::serde_types::{
    Dependencies, DownloadEntry, InstalledPlatform, InstalledPlatforms,
};
use std::time::Duration;

#[test]
fn fail_compile_task_exec() {
    let compiler = SketchCompiler::default();
    let sketch = "sketches/test_sketch.ino";
    let result = compiler.compile_command(sketch);
    assert!(
        matches!(result, Err(CompileSketchesError::ArduinoCliNotFound)),
        "Expected error when Arduino CLI path is not set"
    );
}

#[test]
fn compile_command_with_warnings_report() {
    let compiler = SketchCompiler {
        fqbn: "arduino:avr:uno".to_string(),
        cli_compile_flags: vec!["--optimize-for-debug".to_string()],
        arduino_cli_path: Some("/opt/bin/arduino-cli".to_string()),
        arduino_cli_user_directory_path: "/home/u/Arduino".to_string(),
        arduino_cli_data_directory_path: "/home/u/.arduino15".to_string(),
        enable_warnings_report: true,
        verbose: true,
    };
    let cmd = compiler.compile_command("sketches/blink").unwrap();
    assert_eq!(cmd.program, "/opt/bin/arduino-cli");
    assert_eq!(
        cmd.args,
        vec![
            "compile", "--fqbn", "arduino:avr:uno", "sketches/blink", "--optimize-for-debug",
            "--verbose", "--clean", "--warnings", "all"
        ]
    );
    assert_eq!(
        cmd.env,
        vec![
            ("ARDUINO_DIRECTORIES_DATA".to_string(), "/home/u/.arduino15".to_string()),
            ("ARDUINO_DIRECTORIES_USER".to_string(), "/home/u/Arduino".to_string()),
        ]
    );
    assert_eq!(
        invoked_command(&cmd),
        "/opt/bin/arduino-cli compile --fqbn arduino:avr:uno sketches/blink --optimize-for-debug --verbose --clean --warnings all"
    );
}

#[test]
fn base_ref_batch_order() {
    assert_eq!(checkout_ref_args("abc123"), vec!["checkout", "abc123"]);
    assert_eq!(restore_head_args(), vec!["checkout", "-"]);
    // with a base ref: head batch, checkout, base batch, back to the head ref
    let mut phase = CompilationPhase::HeadBatch;
    let mut seen = vec![phase];
    while phase != CompilationPhase::Done {
        phase = next_phase(phase, true, true);
        seen.push(phase);
    }
    assert_eq!(
        seen,
        vec![
            CompilationPhase::HeadBatch,
            CompilationPhase::CheckoutBase,
            CompilationPhase::BaseBatch,
            CompilationPhase::RestoreHead,
            CompilationPhase::Done
        ]
    );
    // a failed checkout skips the base batch; without a base ref the head batch is all
    assert_eq!(next_phase(CompilationPhase::CheckoutBase, true, false), CompilationPhase::Done);
    assert_eq!(next_phase(CompilationPhase::HeadBatch, false, true), CompilationPhase::Done);
}

#[test]
fn join_state_records_results() {
    let mut state = JoinState::new();
    state.record::<CompileSketchesError>(
        CompileTaskEnvelope {
            compile_ref: CompileRef::Base,
            result: CompilationTaskResult::Completed {
                relative_sketch_path: "S".into(),
                output: "broken".into(),
                success: false,
                invoked_cmd: String::new(),
                duration: Duration::from_secs(1),
            },
        },
        false,
    );
    // a failure at the base ref does not count
    assert!(state.all_compilations_successful);
    assert_eq!(state.base_sketch_reports.len(), 1);
    state.record::<CompileSketchesError>(
        CompileTaskEnvelope {
            compile_ref: CompileRef::Head,
            result: CompilationTaskResult::Completed {
                relative_sketch_path: "S".into(),
                output: "a.c:1:1: warning: x\nSketch uses 10 bytes (0%) of program storage space. Maximum is 100 bytes.".into(),
                success: true,
                invoked_cmd: String::new(),
                duration: Duration::from_secs(1),
            },
        },
        true,
    );
    assert!(state.all_compilations_successful);
    assert_eq!(state.sketch_reports.len(), 1);
    assert_eq!(state.sketch_reports[0].warnings.unwrap().current.absolute, 1);
    state.record::<CompileSketchesError>(
        CompileTaskEnvelope {
            compile_ref: CompileRef::Head,
            result: CompilationTaskResult::Errored {
                relative_sketch_path: "T".into(),
                error: CompileSketchesError::ArduinoCliNotFound,
                duration: Duration::from_secs(0),
            },
        },
        true,
    );
    assert!(!state.all_compilations_successful, "overall compilation reported as successful");
    assert_eq!(state.sketch_reports.len(), 1);
}

#[test]
fn failed_compilation_has_blank_sizes() {
    let mut state = JoinState::new();
    state.record::<CompileSketchesError>(
        CompileTaskEnvelope {
            compile_ref: CompileRef::Head,
            result: CompilationTaskResult::Completed {
                relative_sketch_path: "S".into(),
                output: "Sketch uses 10 bytes".into(),
                success: false,
                invoked_cmd: String::new(),
                duration: Duration::from_secs(1),
            },
        },
        false,
    );
    let sketch = &state.sketch_reports[0];
    assert!(!sketch.compilation_success);
    assert!(sketch.warnings.is_none());
    assert_eq!(sketch.sizes.len(), 2);
    assert!(matches!(sketch.sizes[0], SketchSizeKind::Ram { .. }));
    assert!(matches!(sketch.sizes[1], SketchSizeKind::Flash { .. }));
    for size in &sketch.sizes {
        let s = match size {
            SketchSizeKind::Ram { size } | SketchSizeKind::Flash { size } => size,
        };
        assert_eq!(s.current.absolute, SizeValue::NotApplicable);
    }
    assert!(!state.all_compilations_successful);
}

#[test]
fn find_archive_root() {
    let dir = "tests/archive_root_assets/has-file";
    let entries = vec![
        ArchiveEntry { path: format!("{dir}/file.txt"), is_dir: false },
        ArchiveEntry { path: format!("{dir}/folder"), is_dir: true },
    ];
    assert_eq!(get_archive_root_path(dir, &entries), dir);

    let dir = "tests/archive_root_assets/has-folders";
    let entries = vec![
        ArchiveEntry { path: format!("{dir}/one"), is_dir: true },
        ArchiveEntry { path: format!("{dir}/two"), is_dir: true },
    ];
    assert_eq!(get_archive_root_path(dir, &entries), dir);

    let dir = "tests/archive_root_assets/has-root";
    let entries = vec![
        ArchiveEntry { path: format!("{dir}/__MACOSX"), is_dir: true },
        ArchiveEntry { path: format!("{dir}/root"), is_dir: true },
    ];
    assert_eq!(get_archive_root_path(dir, &entries), format!("{dir}/root"));

    assert_eq!(get_archive_root_path("empty", &vec![]), "empty");
}

#[test]
fn bad_platform_name() {
    let fake_url = "file:///non-existent.zip";
    let valid_name = "vendor:arch";
    let bad_deps = vec![
        // missing name entirely
        DownloadEntry {
            source_url: fake_url.to_string(),
            destination_name: None,
            source_path: Some("archive-root".to_string()),
        },
        // missing vendor and arch in name
        DownloadEntry {
            source_url: fake_url.to_string(),
            destination_name: Some(String::new()),
            ..Default::default()
        },
        // missing arch in name
        DownloadEntry {
            source_url: fake_url.to_string(),
            destination_name: Some("vendor".to_string()),
            ..Default::default()
        },
        // good form but bad installed version to instigate unknown parent path error
        DownloadEntry {
            source_url: fake_url.to_string(),
            destination_name: Some(valid_name.to_string()),
            ..Default::default()
        },
    ];
    let driver = CompileSketches {
        platforms: Dependencies::default(),
        board_manager_platforms_path: "/tmp/board_manager".to_string(),
        ..Default::default()
    };
    let installed_platforms = InstalledPlatforms {
        platforms: vec![InstalledPlatform {
            id: valid_name.to_string(),
            installed_version: "/".to_string(), // leaves an installation path without parent
            latest_version: None,
        }],
    };
    for (dep, err_key) in bad_deps.into_iter().zip([
        "name",
        "name's vendor",
        "name's architecture",
        "destination-path parent",
    ]) {
        let err_id = dep.destination_name.clone().unwrap_or(fake_url.to_string());
        let Err(CompileSketchesError::PlatformDepMissingField { key, id }) =
            driver.platform_download_destination(&dep, &installed_platforms)
        else {
            panic!("Expected error when installing platform dependency");
        };
        if err_key == "destination-path parent" {
            assert!(id.ends_with("/"));
        } else {
            assert_eq!(id, err_id);
        }
        assert_eq!(key, err_key);
    }
}

#[test]
fn platform_destinations() {
    let driver = CompileSketches {
        user_platforms_path: "/home/u/Arduino/hardware".to_string(),
        board_manager_platforms_path: "/home/u/.arduino15/packages".to_string(),
        ..Default::default()
    };
    let installed = InstalledPlatforms {
        platforms: vec![InstalledPlatform {
            id: "arduino:avr".to_string(),
            installed_version: "1.8.6".to_string(),
            latest_version: Some("1.8.6".to_string()),
        }],
    };
    let p = driver.get_platform_installation_path("arduino:avr", &installed).unwrap();
    assert_eq!(p.path, "/home/u/.arduino15/packages/arduino/hardware/avr/1.8.6");
    assert!(p.is_overwrite);
    let p = driver.get_platform_installation_path("vendor:arch:board", &installed).unwrap();
    assert_eq!(p.path, "/home/u/Arduino/hardware/vendor/arch");
    assert!(!p.is_overwrite);
    let dep = DownloadEntry {
        source_url: "https://example.com/p.zip".to_string(),
        source_path: None,
        destination_name: Some("vendor:arch".to_string()),
    };
    let d = driver.platform_download_destination(&dep, &installed).unwrap();
    assert_eq!(d.parent, "/home/u/Arduino/hardware/vendor");
    assert_eq!(d.file_name.as_deref(), Some("arch"));
    assert!(d.overwrite);
}

#[test]
fn default_paths_new_in() {
    let p = DefaultPaths::new_in("/work");
    assert_eq!(p.arduino_cli_user_directory_path, "/work/Arduino");
    assert_eq!(p.libraries_path, "/work/Arduino/libraries");
    assert_eq!(p.user_platforms_path, "/work/Arduino/hardware");
    assert_eq!(p.arduino_cli_data_directory_path, "/work/.arduino15");
    assert_eq!(p.board_manager_platforms_path, "/work/.arduino15/packages");

    let mut driver = CompileSketches::default();
    driver.relocate_paths(DefaultPaths::new_in("/tmp/ws"));
    assert_eq!(driver.libraries_path, "/tmp/ws/Arduino/libraries");
    assert_eq!(driver.sketch_compiler.arduino_cli_data_directory_path, "/tmp/ws/.arduino15");
    assert_eq!(driver.sketch_compiler.fqbn, "arduino:avr:uno");
}

fn cli_args(platforms: &str) -> CliArgs {
    CliArgs {
        cli_version: "latest".to_string(),
        fqbn: "arduino:avr:uno".to_string(),
        platforms: platforms.to_string(),
        libraries: "- name: Servo\n- name: Stepper\n  version: 1.1.3\n".to_string(),
        sketch_paths: "examples/a examples/b".to_string(),
        cli_compile_flags: Some("- --export-binaries\n".to_string()),
        verbose: false,
        fail_on_compile_error: true,
        enable_deltas_report: false,
        enable_warnings_report: false,
        sketches_report_path: "sketches-reports".to_string(),
    }
}

#[test]
fn settings_from_cli_args() {
    let cs = CompileSketches::from_cli_args(cli_args("- name: arduino:avr\n"), DefaultPaths::new_in("/r"))
        .unwrap();
    assert_eq!(cs.platforms.manager.len(), 1);
    assert_eq!(cs.platforms.manager[0].name, "arduino:avr");
    assert_eq!(cs.libraries.manager.len(), 2);
    assert_eq!(cs.libraries.manager[1].version.as_deref(), Some("1.1.3"));
    assert_eq!(cs.sketch_paths, vec!["examples/a", "examples/b"]);
    assert_eq!(cs.sketch_compiler.cli_compile_flags, vec!["--export-binaries"]);
    assert_eq!(cs.libraries_path, "/r/Arduino/libraries");
    assert_eq!(cs.report_file_path(), "sketches-reports/arduino-avr-uno.json");

    let err = CompileSketches::from_cli_args(cli_args("- invalid-key: x\n"), DefaultPaths::new_in("/r"));
    assert!(matches!(err, Err(CompileSketchesError::ParseDependencyMapping)));
    let err = CompileSketches::from_cli_args(cli_args("[unclosed"), DefaultPaths::new_in("/r"));
    assert!(matches!(err, Err(CompileSketchesError::DecodeYamlDepList { .. })));
}

#[test]
fn word_lists() {
    assert_eq!(parse_word_list("- one\n- two words\n"), vec!["one", "two words"]);
    assert_eq!(parse_word_list("  one   two "), vec!["one", "two"]);
}

#[test]
fn default_platform_from_fqbn() {
    assert_eq!(default_platform("arduino:avr:uno").as_deref(), Some("arduino:avr"));
    assert_eq!(default_platform("esp32:esp32:esp32s3:opt=1").as_deref(), Some("esp32:esp32"));
    assert_eq!(default_platform("bogus"), None);
    let mut cs = CompileSketches::default();
    cs.add_default_platform();
    assert_eq!(cs.platforms.manager.len(), 1);
    assert_eq!(cs.platforms.manager[0].name, "arduino:avr");
}

#[test]
fn run_outcome_and_base_compilation() {
    let mut cs = CompileSketches::default();
    assert!(matches!(cs.compilation_outcome(false), Err(CompileSketchesError::CompilationFailed)));
    assert!(cs.compilation_outcome(true).is_ok());
    cs.fail_on_compile_error = false;
    assert!(cs.compilation_outcome(false).is_ok());
    assert!(!cs.needs_base_compilation(Some("pull_request")));
    cs.enable_deltas_report = true;
    assert!(cs.needs_base_compilation(Some("pull_request")));
    assert!(!cs.needs_base_compilation(Some("push")));
    assert!(!cs.needs_base_compilation(None));
    assert_eq!(
        commit_url("owner/repo", "abc"),
        "https://github.com/owner/repo/commit/abc"
    );
}

#[test]
fn arduino_cli_install_names() {
    let (archive, bin) = cli_archive_names("1.2.3", false);
    assert_eq!(archive, "arduino-cli_1.2.3_Linux_64bit.tar.gz");
    assert_eq!(bin, "arduino-cli");
    let (archive, bin) = cli_archive_names("latest", true);
    assert_eq!(archive, "arduino-cli_latest_Windows_64bit.zip");
    assert_eq!(bin, "arduino-cli.exe");
    assert_eq!(
        cli_download_url("x.zip"),
        "https://downloads.arduino.cc/arduino-cli/x.zip"
    );
}

#[test]
fn arduino_cli_cache() {
    assert_eq!(cli_cache_decision(true, "1.2.3", None), CliCacheDecision::ReuseCached);
    assert_eq!(cli_cache_decision(true, "LATEST", Some(100)), CliCacheDecision::ReuseRecentLatest);
    assert_eq!(cli_cache_decision(true, "latest", Some(86400)), CliCacheDecision::Download);
    assert_eq!(cli_cache_decision(true, "latest", None), CliCacheDecision::Download);
    assert_eq!(cli_cache_decision(false, "1.2.3", Some(1)), CliCacheDecision::Download);
}

#[test]
fn arduino_cli_version_check() {
    let out = "arduino-cli  Version: 1.2.3 Commit: abcdef Date: 2025-01-01";
    assert!(matches!(check_cli_version(out, "1.2.3"), VersionCheck::Matches(v) if v == "1.2.3"));
    assert!(matches!(check_cli_version(out, "latest"), VersionCheck::Matches(v) if v == "1.2.3"));
    assert!(matches!(check_cli_version(out, "1.0.0"), VersionCheck::Mismatch(v) if v == "1.2.3"));
    assert!(matches!(check_cli_version("nothing", "1.0.0"), VersionCheck::Unknown));
    assert!(matches!(
        cli_command_result(false, "boom".to_string()),
        Err(CompileSketchesError::ArduinoCliCommandFailed { output }) if output == "boom"
    ));
    assert_eq!(cli_command_result(true, "ok".to_string()).unwrap(), "ok");
}

#[test]
fn install_destinations() {
    assert_eq!(install_destination("libs/MyLib", "/dest", None).unwrap(), "/dest/MyLib");
    assert_eq!(install_destination("libs/MyLib", "/dest", Some("Other")).unwrap(), "/dest/Other");
    assert!(matches!(
        install_destination("..", "/dest", None),
        Err(CompileSketchesError::MalformedInstallDestPathName(p)) if p == ".."
    ));
    assert_eq!(existing_destination_action(false, false, "/d").unwrap(), false);
    assert_eq!(existing_destination_action(true, true, "/d").unwrap(), true);
    assert!(matches!(
        existing_destination_action(true, false, "/d"),
        Err(CompileSketchesError::InstallPathAlreadyExists { path }) if path == "/d"
    ));
}

#[test]
fn archive_formats_and_file_names() {
    assert_eq!(archive_format("a.zip").unwrap(), ArchiveFormat::Zip);
    assert_eq!(archive_format("a.tar.gz").unwrap(), ArchiveFormat::TarGz);
    assert_eq!(archive_format("a.tgz").unwrap(), ArchiveFormat::TarGz);
    assert_eq!(archive_format("a.tar").unwrap(), ArchiveFormat::Tar);
    assert!(matches!(
        archive_format("a.7z"),
        Err(CompileSketchesError::ArchiveFormatUnsupported(n)) if n == "a.7z"
    ));
    assert_eq!(
        download_file_name("https://example.com/dl/platform.zip?x=1").unwrap(),
        "platform.zip"
    );
    assert!(matches!(download_file_name("not a url"), Err(CompileSketchesError::UrlParse(_))));
}

fn git_args(action: &RepoAction) -> Vec<String> {
    match action {
        RepoAction::RunGit { args, .. } => args.clone(),
        _ => panic!("expected a git command"),
    }
}

#[test]
fn repository_install_with_latest() {
    let (mut install, first) =
        RepoInstall::start("https://e.com/r.git", Some("latest".to_string()), "lib", "/tmp/clone");
    // with a requested ref the repository is cloned whole, then the ref is checked out
    assert_eq!(git_args(&first), vec!["clone", "https://e.com/r.git", "/tmp/clone"]);
    let a = install.on_git_result(true, "");
    assert_eq!(git_args(&a), vec!["rev-parse", "latest"]);
    let a = install.on_git_result(false, "");
    assert_eq!(git_args(&a), vec!["tag", "--sort=-creatordate"]);
    let a = install.on_git_result(true, " v2.0 \nv1.0\n");
    assert_eq!(git_args(&a), vec!["checkout", "v2.0"]);
    let a = install.on_git_result(true, "");
    assert_eq!(git_args(&a), vec!["submodule", "update", "--init", "--recursive", "--depth", "1"]);
    let a = install.on_git_result(true, "");
    assert!(matches!(a, RepoAction::InstallFromPath { source_path } if source_path == "/tmp/clone/lib"));
    assert_eq!(install.step, RepoInstallStep::Finished);
}

#[test]
fn repository_install_failure() {
    let (mut install, first) = RepoInstall::start("https://e.com/r.git", None, "", "/tmp/c");
    assert_eq!(
        git_args(&first),
        vec!["clone", "--depth", "1", "--recursive", "https://e.com/r.git", "/tmp/c"]
    );
    let a = install.on_git_result(false, "");
    assert!(matches!(
        a,
        RepoAction::Fail(CompileSketchesError::GitCommandFailed { task }) if task == "clone repository"
    ));
    assert_eq!(install.step, RepoInstallStep::Finished);
}

#[test]
fn warnings_report_only_appends_clean() {
    let mut compiler = SketchCompiler::default();
    compiler.arduino_cli_path = Some("cli".to_string());
    let off = compiler.compile_command("s").unwrap().args;
    compiler.enable_warnings_report = true;
    let on = compiler.compile_command("s").unwrap().args;
    let mut expected = off.clone();
    expected.extend(["--clean", "--warnings", "all"].map(String::from));
    assert_eq!(on, expected);
}

#[test]
fn found_sketches_are_distinct() {
    let mut found = Vec::new();
    arduino_compile_sketches::driver::add_found_sketch(&mut found, "a".to_string());
    arduino_compile_sketches::driver::add_found_sketch(&mut found, "b".to_string());
    arduino_compile_sketches::driver::add_found_sketch(&mut found, "a".to_string());
    assert_eq!(found, vec!["a", "b"]);
}
