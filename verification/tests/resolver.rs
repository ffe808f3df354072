use catr::{get_args, resolve, Config, Exit, Matched, Numbering};

fn strings(items: &[&str]) -> Vec<String> {
    items.iter().map(|s| s.to_string()).collect()
}

#[test]
fn no_arguments_read_standard_input() {
    let config = get_args(Vec::new()).unwrap();
    assert_eq!(config.sources(), &strings(&["-"]));
    assert!(!config.number_all_lines());
    assert!(!config.number_nonblank_lines());
    assert_eq!(config.numbering(), Numbering::Off);
}

#[test]
fn sources_keep_their_order() {
    let config = get_args(strings(&["b.txt", "-", "a.txt"])).unwrap();
    assert_eq!(config.sources(), &strings(&["b.txt", "-", "a.txt"]));
}

#[test]
fn short_number_flag() {
    let config = get_args(strings(&["-n", "a.txt"])).unwrap();
    assert_eq!(config.sources(), &strings(&["a.txt"]));
    assert!(config.number_all_lines());
    assert!(!config.number_nonblank_lines());
    assert_eq!(config.numbering(), Numbering::AllLines);
}

#[test]
fn long_number_flag() {
    let config = get_args(strings(&["--number"])).unwrap();
    assert_eq!(config.sources(), &strings(&["-"]));
    assert_eq!(config.numbering(), Numbering::AllLines);
}

#[test]
fn short_nonblank_flag() {
    let config = get_args(strings(&["-b", "a.txt"])).unwrap();
    assert!(!config.number_all_lines());
    assert!(config.number_nonblank_lines());
    assert_eq!(config.numbering(), Numbering::NonblankLines);
}

#[test]
fn long_nonblank_flag() {
    let config = get_args(strings(&["a.txt", "--number-nonblank"])).unwrap();
    assert_eq!(config.sources(), &strings(&["a.txt"]));
    assert_eq!(config.numbering(), Numbering::NonblankLines);
}

#[test]
fn both_flags_are_a_usage_error() {
    for args in [
        strings(&["-n", "-b"]),
        strings(&["-b", "-n", "a.txt"]),
        strings(&["--number", "--number-nonblank"]),
        strings(&["-nb"]),
    ] {
        match get_args(args) {
            Err(exit @ Exit::Usage(_)) => {
                assert!(exit.is_failure());
                assert!(!exit.text().is_empty());
            }
            other => panic!("expected a usage error, got {:?}", other),
        }
    }
}

#[test]
fn unknown_flag_is_a_usage_error() {
    match get_args(strings(&["--frobnicate"])) {
        Err(exit @ Exit::Usage(_)) => assert!(exit.is_failure()),
        other => panic!("expected a usage error, got {:?}", other),
    }
}

#[test]
fn version_is_a_successful_exit() {
    for flag in ["-V", "--version"] {
        match get_args(strings(&[flag])) {
            Err(exit @ Exit::Version) => {
                assert!(!exit.is_failure());
                assert_eq!(exit.text(), "catr 0.1.0");
            }
            other => panic!("expected the version, got {:?}", other),
        }
    }
}

#[test]
fn version_wins_over_sources() {
    assert!(matches!(get_args(strings(&["a.txt", "-V", "-n"])), Err(Exit::Version)));
}

#[test]
fn help_is_a_successful_exit() {
    for flag in ["-h", "--help"] {
        match get_args(strings(&[flag])) {
            Err(exit @ Exit::Help(_)) => {
                assert!(!exit.is_failure());
                assert!(exit.text().contains("--number-nonblank"));
            }
            other => panic!("expected help, got {:?}", other),
        }
    }
}

#[test]
fn names_after_a_double_dash_are_sources() {
    let config = get_args(strings(&["--", "-n", "-b"])).unwrap();
    assert_eq!(config.sources(), &strings(&["-n", "-b"]));
    assert_eq!(config.numbering(), Numbering::Off);
}

#[test]
fn resolve_refuses_both_flags() {
    let matched = Matched {
        sources: Some(strings(&["a.txt"])),
        number: true,
        number_nonblank: true,
        version: false,
    };
    match resolve(matched) {
        Err(exit @ Exit::Usage(_)) => {
            assert!(exit.is_failure());
            assert_eq!(
                exit.text(),
                "error: --number and --number-nonblank cannot be used together"
            );
        }
        other => panic!("expected a usage error, got {:?}", other),
    }
}

#[test]
fn resolve_defaults_to_standard_input() {
    for sources in [None, Some(Vec::new())] {
        let matched = Matched { sources, number: false, number_nonblank: true, version: false };
        let config = resolve(matched).unwrap();
        assert_eq!(config.sources(), &strings(&["-"]));
        assert_eq!(config.numbering(), Numbering::NonblankLines);
    }
}

#[test]
fn resolve_puts_the_version_before_the_sources() {
    let matched = Matched {
        sources: Some(strings(&["a.txt"])),
        number: true,
        number_nonblank: false,
        version: true,
    };
    assert!(matches!(resolve(matched), Err(Exit::Version)));
}

#[test]
fn resolve_puts_the_conflict_before_the_version() {
    let matched = Matched { sources: None, number: true, number_nonblank: true, version: true };
    assert!(matches!(resolve(matched), Err(Exit::Usage(_))));
    assert!(matches!(get_args(strings(&["-n", "-b", "-V"])), Err(Exit::Usage(_))));
}

#[test]
fn exit_from_report() {
    let usage = Exit::from_report(true, "bad".to_string());
    assert!(matches!(usage, Exit::Usage(_)));
    assert_eq!(usage.text(), "bad");
    let help = Exit::from_report(false, "usage".to_string());
    assert!(matches!(help, Exit::Help(_)));
    assert_eq!(help.text(), "usage");
    assert!(!help.is_failure());
}

#[test]
fn config_new_holds_the_invariant() {
    assert!(Config::new(strings(&["a"]), true, true).is_none());
    let config = Config::new(Vec::new(), true, false).unwrap();
    assert_eq!(config.sources(), &strings(&["-"]));
    assert!(config.number_all_lines());
    let config = Config::new(strings(&["x", "y"]), false, false).unwrap();
    assert_eq!(config.sources(), &strings(&["x", "y"]));
    assert_eq!(config.numbering(), Numbering::Off);
}
