use arduino_compile_sketches::driver::CompileSketches;
use arduino_compile_sketches::report::get_sizes_from_output;
use arduino_compile_sketches::report_model::{SizeValue, SketchSizeKind};

#[test]
fn report_get_sizes_from_output() {
    let output = "Sketch uses 802 bytes (1%) of program storage space. Maximum is 1604 bytes.\
        Global variables use 22 bytes (0%) of dynamic memory, leaving 6122 bytes for local variables. Maximum is 33 bytes.";
    let sizes = get_sizes_from_output(output);
    assert_eq!(sizes.len(), 2);
    for size in &sizes {
        match size {
            SketchSizeKind::Flash { size } => {
                let Some(SizeValue::Known(max_size)) = size.maximum else {
                    panic!("expected max flash size parsed from output");
                };
                assert_eq!(max_size, 1604);
                let abs_size = match &size.current.absolute {
                    SizeValue::Known(n) => *n,
                    _ => 0_i64,
                };
                assert_eq!(abs_size, 802);
            }
            SketchSizeKind::Ram { size } => {
                let Some(SizeValue::Known(max_size)) = size.maximum else {
                    panic!("expected max ram size parsed from output");
                };
                assert_eq!(max_size, 33);
                let abs_size = match &size.current.absolute {
                    SizeValue::Known(n) => *n,
                    _ => 0_i64,
                };
                assert_eq!(abs_size, 22);
            }
        }
    }
}

use arduino_compile_sketches::report::{
    apply_base_report, get_sizes_summary_report, get_warning_count_from_output,
};
use arduino_compile_sketches::report_model::{
    AbsCount, Ratio, Sketch, SketchDeltaSize, SketchSize, SketchWarnings,
};

#[test]
fn report_get_warning_count_from_output() {
    let out = "file.c:10:5: warning: something\nfile.c:20:2: warning: another\nno-warning-line";
    let cnt = get_warning_count_from_output(out);
    assert_eq!(cnt.current.absolute, 2);
}

#[test]
fn report_get_sizes_summary_report() {
    // two sketches S1 and S2 each include previous values
    let sk1 = Sketch {
        name: "S1".into(),
        compilation_success: true,
        sizes: vec![SketchSizeKind::Flash {
            size: SketchSize {
                maximum: None,
                current: SketchDeltaSize { absolute: SizeValue::Known(110), relative: None },
                previous: Some(SketchDeltaSize { absolute: SizeValue::Known(100), relative: None }),
                delta: None,
            },
        }],
        warnings: None,
    };
    let sk2 = Sketch {
        name: "S2".into(),
        compilation_success: true,
        sizes: vec![SketchSizeKind::Flash {
            size: SketchSize {
                maximum: None,
                current: SketchDeltaSize { absolute: SizeValue::Known(90), relative: None },
                previous: Some(SketchDeltaSize { absolute: SizeValue::Known(100), relative: None }),
                delta: None,
            },
        }],
        warnings: None,
    };

    let sketch_reports = vec![sk1, sk2];

    let res = get_sizes_summary_report(&sketch_reports);
    assert_eq!(res.len(), 1);
    match &res[0] {
        SketchSizeKind::Flash { size } => {
            assert!(matches!(size.current.absolute, SizeValue::Known(200)));
            assert!(matches!(
                size.previous.as_ref().map(|v| &v.absolute),
                Some(SizeValue::Known(200))
            ));
            assert!(matches!(size.delta.as_ref().map(|v| &v.absolute), Some(SizeValue::Known(0))));
        }
        _ => panic!("expected flash size kind"),
    }
}

#[test]
fn report_apply_base_report_sets_warnings_delta() {
    let mut sketches = vec![Sketch {
        name: "S1".into(),
        compilation_success: true,
        sizes: vec![],
        warnings: Some(SketchWarnings {
            current: AbsCount { absolute: 5 },
            previous: AbsCount::default(),
            delta: AbsCount::default(),
        }),
    }];

    let base_sketches = vec![Sketch {
        name: "S1".into(),
        compilation_success: true,
        sizes: vec![],
        warnings: Some(SketchWarnings {
            current: AbsCount { absolute: 2 },
            previous: AbsCount::default(),
            delta: AbsCount::default(),
        }),
    }];

    apply_base_report(&mut sketches, &base_sketches);
    let warnings = sketches[0].warnings.as_ref().unwrap();
    assert_eq!(warnings.previous.absolute, 2);
    assert_eq!(warnings.delta.absolute, 3);
}

fn flash(current: i64, maximum: Option<u64>) -> SketchSizeKind {
    SketchSizeKind::Flash {
        size: SketchSize {
            maximum: maximum.map(SizeValue::Known),
            current: SketchDeltaSize { absolute: SizeValue::Known(current), relative: None },
            previous: None,
            delta: None,
        },
    }
}

fn ram(current: i64) -> SketchSizeKind {
    SketchSizeKind::Ram {
        size: SketchSize {
            maximum: Some(SizeValue::Known(2048)),
            current: SketchDeltaSize { absolute: SizeValue::Known(current), relative: None },
            previous: None,
            delta: None,
        },
    }
}

#[test]
fn base_report_size_delta_is_difference() {
    let mut sketches = vec![
        Sketch { name: "A".into(), compilation_success: true, sizes: vec![flash(900, Some(1000)), ram(50)], warnings: None },
        Sketch { name: "B".into(), compilation_success: true, sizes: vec![flash(10, None)], warnings: None },
    ];
    let base = vec![Sketch {
        name: "A".into(),
        compilation_success: true,
        sizes: vec![ram(80), flash(1000, Some(1000))],
        warnings: None,
    }];
    apply_base_report(&mut sketches, &base);
    match &sketches[0].sizes[0] {
        SketchSizeKind::Flash { size } => {
            assert_eq!(size.previous.unwrap().absolute, SizeValue::Known(1000));
            let delta = size.delta.unwrap();
            assert_eq!(delta.absolute, SizeValue::Known(-100));
            assert_eq!(
                delta.relative,
                Some(SizeValue::Known(Ratio { numerator: -100, denominator: 1000 }))
            );
        }
        _ => panic!("expected flash size kind"),
    }
    match &sketches[0].sizes[1] {
        SketchSizeKind::Ram { size } => {
            assert_eq!(size.previous.unwrap().absolute, SizeValue::Known(80));
            assert_eq!(size.delta.unwrap().absolute, SizeValue::Known(-30));
        }
        _ => panic!("expected ram size kind"),
    }
    // a sketch absent from the base report is left as it was
    assert_eq!(sketches[1].sizes[0], flash(10, None));
}

#[test]
fn summary_of_flash_and_ram() {
    let sketches = vec![
        Sketch { name: "A".into(), compilation_success: true, sizes: vec![flash(100, Some(500)), ram(10)], warnings: None },
        Sketch { name: "B".into(), compilation_success: true, sizes: vec![flash(50, Some(700)), ram(5)], warnings: None },
    ];
    let res = get_sizes_summary_report(&sketches);
    assert_eq!(res.len(), 2);
    match &res[0] {
        SketchSizeKind::Flash { size } => {
            assert_eq!(size.current.absolute, SizeValue::Known(150));
            assert_eq!(size.maximum, Some(SizeValue::Known(700)));
            assert!(size.previous.is_none());
            assert!(size.delta.is_none());
        }
        _ => panic!("expected flash size kind first"),
    }
    match &res[1] {
        SketchSizeKind::Ram { size } => assert_eq!(size.current.absolute, SizeValue::Known(15)),
        _ => panic!("expected ram size kind second"),
    }
}

#[test]
fn no_sizes_in_output_are_not_applicable() {
    let sizes = get_sizes_from_output("nothing to see here");
    assert_eq!(sizes.len(), 2);
    for size in &sizes {
        let s = match size {
            SketchSizeKind::Flash { size } => size,
            SketchSizeKind::Ram { size } => size,
        };
        assert_eq!(s.current.absolute, SizeValue::NotApplicable);
    }
    assert_eq!(get_warning_count_from_output("no warnings at all").current.absolute, 0);
}

fn counted(current: i64, previous: i64) -> SketchSizeKind {
    SketchSizeKind::Flash {
        size: SketchSize {
            maximum: Some(SizeValue::Known(1000)),
            current: SketchDeltaSize { absolute: SizeValue::Known(current), relative: None },
            previous: Some(SketchDeltaSize { absolute: SizeValue::Known(previous), relative: None }),
            delta: None,
        },
    }
}

fn current_total(sketches: &[Sketch]) -> Option<SizeValue<i64>> {
    get_sizes_summary_report(sketches).first().map(|k| match k {
        SketchSizeKind::Flash { size } | SketchSizeKind::Ram { size } => size.current.absolute,
    })
}

#[test]
fn summary_totals_split() {
    let a = Sketch { name: "A".into(), compilation_success: true, sizes: vec![counted(30, 20)], warnings: None };
    let b = Sketch { name: "B".into(), compilation_success: true, sizes: vec![counted(-5, 7)], warnings: None };
    let a2 = Sketch { name: "A".into(), compilation_success: true, sizes: vec![counted(30, 20)], warnings: None };
    let b2 = Sketch { name: "B".into(), compilation_success: true, sizes: vec![counted(-5, 7)], warnings: None };
    let both = vec![a, b];
    assert_eq!(current_total(&both), Some(SizeValue::Known(25)));
    assert_eq!(current_total(&[a2]), Some(SizeValue::Known(30)));
    assert_eq!(current_total(&[b2]), Some(SizeValue::Known(-5)));
    match &get_sizes_summary_report(&both)[0] {
        SketchSizeKind::Flash { size } => {
            assert_eq!(size.previous.unwrap().absolute, SizeValue::Known(27));
            assert_eq!(size.delta.unwrap().absolute, SizeValue::Known(-2));
        }
        _ => panic!("expected flash size kind"),
    }
}

#[test]
fn warnings_of_lines_add_up() {
    let a = "x.c:1:2: warning: a\nx.c:3:4: warning: b";
    let b = "y.c:5:6: warning: c\nnote: nothing";
    let both = format!("{a}\n{b}");
    assert_eq!(get_warning_count_from_output(a).current.absolute, 2);
    assert_eq!(get_warning_count_from_output(b).current.absolute, 1);
    assert_eq!(get_warning_count_from_output(&both).current.absolute, 3);
    // a marker cut by a line break is no warning
    assert_eq!(get_warning_count_from_output("x.c:1:2:\n warning: a").current.absolute, 0);
}

#[test]
fn bounded_report_assembly() {
    let cs = CompileSketches::default();
    let sketches = vec![Sketch {
        name: "A".into(),
        compilation_success: true,
        sizes: vec![flash(100, Some(1000)), ram(10)],
        warnings: None,
    }];
    let report = cs.assemble_report_checked("abc".into(), "o/r", sketches, &[]).unwrap().unwrap();
    assert_eq!(report.commit_url, "https://github.com/o/r/commit/abc");
    assert_eq!(report.boards.len(), 1);
    assert_eq!(report.boards[0].board, "arduino:avr:uno");
    assert_eq!(report.boards[0].sketches.len(), 1);
    assert_eq!(report.boards[0].sizes.as_ref().unwrap().len(), 2);

    // a sketch without a known maximum gives an incomplete report, returned with the error
    let sketches = vec![Sketch {
        name: "A".into(),
        compilation_success: false,
        sizes: vec![flash(100, None)],
        warnings: None,
    }];
    let r = cs.assemble_report_checked("abc".into(), "o/r", sketches, &[]).unwrap();
    assert!(matches!(
        r,
        Err(arduino_compile_sketches::error::CompileSketchesError::IncompleteReport(_))
    ));

    // large sizes are fine as long as their total fits in an i64 ...
    let large = vec![Sketch {
        name: "A".into(),
        compilation_success: true,
        sizes: vec![flash(i64::MAX, Some(1)), ram(1 << 50)],
        warnings: None,
    }];
    assert!(cs.assemble_report_checked("abc".into(), "o/r", large, &[]).unwrap().is_ok());
    // ... a total that overflows is refused
    let huge = vec![
        Sketch { name: "A".into(), compilation_success: true, sizes: vec![flash(i64::MAX, Some(1))], warnings: None },
        Sketch { name: "B".into(), compilation_success: true, sizes: vec![flash(1, Some(1))], warnings: None },
    ];
    assert!(cs.assemble_report_checked("abc".into(), "o/r", huge, &[]).is_none());
}

#[test]
fn base_comparison_twice_is_once() {
    let make = || {
        vec![Sketch {
            name: "A".into(),
            compilation_success: true,
            sizes: vec![flash(900, Some(1000)), ram(50)],
            warnings: Some(SketchWarnings {
                current: AbsCount { absolute: 4 },
                previous: AbsCount::default(),
                delta: AbsCount::default(),
            }),
        }]
    };
    let base = vec![Sketch {
        name: "A".into(),
        compilation_success: true,
        sizes: vec![flash(800, Some(1000)), ram(60)],
        warnings: Some(SketchWarnings {
            current: AbsCount { absolute: 1 },
            previous: AbsCount::default(),
            delta: AbsCount::default(),
        }),
    }];
    let mut once = make();
    apply_base_report(&mut once, &base);
    let mut twice = make();
    apply_base_report(&mut twice, &base);
    apply_base_report(&mut twice, &base);
    assert_eq!(once[0].sizes, twice[0].sizes);
    assert_eq!(once[0].warnings, twice[0].warnings);
    assert_eq!(once[0].warnings.unwrap().delta.absolute, 3);
}

#[test]
fn sizes_from_first_stating_lines() {
    let first = "Sketch uses 802 bytes (1%) of program storage space. Maximum is 1604 bytes.\n\
        Global variables use 22 bytes (0%) of dynamic memory, leaving 6122 bytes for local variables. Maximum is 33 bytes.";
    let later = "Sketch uses 9 bytes (1%) of program storage space. Maximum is 10 bytes.\n\
        Global variables use 1 bytes (0%) of dynamic memory. Maximum is 2 bytes.";
    let alone = get_sizes_from_output(first);
    let both = get_sizes_from_output(&format!("{first}\n{later}"));
    assert_eq!(alone, both);
    match &both[0] {
        SketchSizeKind::Flash { size } => {
            assert_eq!(size.current.absolute, SizeValue::Known(802));
            assert_eq!(size.maximum, Some(SizeValue::Known(1604)));
        }
        _ => panic!("expected flash size kind"),
    }
    match &both[1] {
        SketchSizeKind::Ram { size } => {
            assert_eq!(size.current.absolute, SizeValue::Known(22));
            assert_eq!(size.maximum, Some(SizeValue::Known(33)));
        }
        _ => panic!("expected ram size kind"),
    }
}
