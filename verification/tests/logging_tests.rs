use arduino_compile_sketches::logging::{format_log_line, line_shape, max_level_for, LineShape, LogLevel};

#[test]
fn level_labels() {
    assert_eq!(LogLevel::Error.label(), "ERROR");
    assert_eq!(LogLevel::Warn.label(), " WARN");
    assert_eq!(LogLevel::Info.label(), " INFO");
    assert_eq!(LogLevel::Debug.label(), "DEBUG");
    assert_eq!(LogLevel::Trace.label(), "TRACE");
}

#[test]
fn verbose_enables_debug() {
    assert_eq!(max_level_for(true), LogLevel::Debug);
    assert_eq!(max_level_for(false), LogLevel::Info);
    assert!(LogLevel::Debug.passes(&max_level_for(true)));
    assert!(!LogLevel::Debug.passes(&max_level_for(false)));
    assert!(!LogLevel::Trace.passes(&max_level_for(true)));
    assert!(LogLevel::Error.passes(&max_level_for(false)));
}

#[test]
fn line_shapes() {
    let max = LogLevel::Info;
    assert_eq!(line_shape("CI_LOG_CMD", None, LogLevel::Trace.passes(&max)), Some(LineShape::Bare));
    assert_eq!(
        line_shape("x", Some("arduino_compile_sketches::driver"), LogLevel::Info.passes(&max)),
        Some(LineShape::Labelled)
    );
    assert_eq!(line_shape("x", None, true), Some(LineShape::Labelled));
    assert_eq!(line_shape("x", Some("reqwest::connect"), true), Some(LineShape::Located));
    assert_eq!(line_shape("x", Some("reqwest::connect"), LogLevel::Debug.passes(&max)), None);
    assert_eq!(format_log_line(LineShape::Bare, "ERROR", "m", "1", "::group::x"), "::group::x");
    assert_eq!(format_log_line(LineShape::Labelled, " INFO", "m", "1", "hello"), "[ INFO]: hello");
    assert_eq!(
        format_log_line(LineShape::Located, " WARN", "hyper::proto", "42", "slow"),
        "[ WARN]{hyper::proto:42}: slow"
    );
}
