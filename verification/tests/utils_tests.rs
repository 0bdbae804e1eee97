use arduino_compile_sketches::text::{chars_of, parse_digits, u64_to_string};
use arduino_compile_sketches::paths::{
    extension, is_dir_hidden, path_has_sketch_extension,
    path_relative_to_workspace,
};
use arduino_compile_sketches::driver::{sketch_dir_for, DefaultPaths};
use arduino_compile_sketches::utils::{
    base_ref_from_event, fmt_duration, fmt_secs, head_ref_from_event, ref_from_git_output,
    GitRefInfo, PrEventInfo, PullRequestInfo,
};
use std::time::Duration;

#[test]
fn duration_str() {
    assert_eq!(fmt_duration(&Duration::from_secs(45)), "45s");
    assert_eq!(fmt_duration(&Duration::from_secs(75)), "1m 15s");
    assert_eq!(fmt_duration(&Duration::from_secs(3600)), "1h 0m 0s");
    assert_eq!(fmt_duration(&Duration::from_secs(3665)), "1h 1m 5s");
}

#[test]
fn duration_drops_fractions() {
    assert_eq!(fmt_duration(&Duration::from_millis(59_999)), "59s");
    assert_eq!(fmt_secs(0), "0s");
    assert_eq!(fmt_secs(90061), "25h 1m 1s");
}

fn pr_event() -> PrEventInfo {
    PrEventInfo {
        pull_request: PullRequestInfo {
            base: GitRefInfo { sha: "base-sha".to_string() },
            head: GitRefInfo { sha: "head-sha".to_string() },
        },
    }
}

#[test]
fn base_ref_from_event_payload() {
    let event = pr_event();
    let val = base_ref_from_event("pull_request", Some(&event), None);
    assert_eq!(val.unwrap(), "base-sha");
}

#[test]
fn base_ref_from_push_event() {
    let val = base_ref_from_event("push", None, Some("base-sha".to_string()));
    assert_eq!(val.unwrap(), "base-sha");
    assert!(base_ref_from_event("unsupported", None, Some("x".to_string())).is_none());
}

#[test]
fn head_refs_from_events() {
    let event = pr_event();
    assert_eq!(head_ref_from_event("pull_request", Some(&event), None).unwrap(), "head-sha");
    assert_eq!(
        head_ref_from_event("push", None, Some("Some SHA".to_string())).unwrap(),
        "Some SHA"
    );
    assert!(head_ref_from_event("unsupported", Some(&event), None).is_none());
    assert_eq!(ref_from_git_output(true, " abc123\n").unwrap(), "abc123");
    assert!(ref_from_git_output(false, "abc123").is_none());
}

#[test]
fn test_path_is_sketch_file_and_dir() {
    assert!(path_has_sketch_extension("/tmp/x/test.ino"));
    assert!(path_has_sketch_extension("/tmp/x/test.pde"));
    assert!(!path_has_sketch_extension("/tmp/x/readme.txt"));
    assert!(!path_has_sketch_extension("/tmp/x"));
}

#[test]
fn skip_hidden_path() {
    assert!(is_dir_hidden("/tmp/.test-dummy"));
    assert!(!is_dir_hidden("/tmp/visible"));
}

#[test]
fn path_helpers() {
    // paths are joined as `Path::join` joins them
    assert_eq!(DefaultPaths::new_in("/a/b").libraries_path, "/a/b/Arduino/libraries");
    assert_eq!(DefaultPaths::new_in("/a/b/").arduino_cli_data_directory_path, "/a/b/.arduino15");
    assert_eq!(
        arduino_compile_sketches::driver::install::install_destination("lib", "/a", Some("/c")).unwrap(),
        "/c"
    );
    assert_eq!(sketch_dir_for("/a/b/c.ino").as_deref(), Some("/a/b"));
    assert_eq!(sketch_dir_for("c.ino").as_deref(), Some(""));
    assert_eq!(sketch_dir_for("/a/b/readme.md"), None);
    assert!(is_dir_hidden("/a/.git"));
    assert!(!is_dir_hidden("/a/.."));
    assert_eq!(extension("sketch.ino").as_deref(), Some("ino"));
    assert_eq!(extension(".hidden"), None);
    assert_eq!(path_relative_to_workspace("/other/a", "/ws", "../other/a"), "../other/a");
    assert_eq!(path_relative_to_workspace("/ws/examples/a", "/ws", "examples/a/"), "examples/a");
}

#[test]
fn decimal_round_trip() {
    for n in [0u64, 7, 10, 12345, u64::MAX] {
        let text = u64_to_string(n);
        assert_eq!(text, n.to_string());
        let chars = chars_of(&text);
        assert_eq!(parse_digits(&chars, 0, chars.len(), u64::MAX), Some(n));
    }
}

#[test]
fn refs_fall_back_to_git() {
    // an event payload without the expected fields names no ref, for any event kind ...
    for event in ["push", "pull_request", "unsupported"] {
        assert!(base_ref_from_event(event, None, None).is_none());
        assert!(head_ref_from_event(event, None, None).is_none());
    }
    // ... and the ref printed by `git rev-parse` is taken instead, trimmed
    assert_eq!(ref_from_git_output(true, "0123abcd\n").unwrap(), "0123abcd");
    assert!(ref_from_git_output(false, "fatal: not a git repository\n").is_none());
}
