use lib::args::{parse_args, ParsedArgs};

fn strings(v: &[&str]) -> Vec<String> {
    v.iter().map(|s| s.to_string()).collect()
}

#[test]
fn no_argument_runs_full_report() {
    assert!(matches!(parse_args(&strings(&[])), Ok(ParsedArgs::Run { package: None })));
}

#[test]
fn help_words_ask_for_help() {
    for w in ["-h", "--help", "help"] {
        assert!(matches!(parse_args(&strings(&[w])), Ok(ParsedArgs::Help)));
    }
}

#[test]
fn package_name_runs_package_report() {
    match parse_args(&strings(&["requests"])) {
        Ok(ParsedArgs::Run { package: Some(p) }) => assert_eq!(p, "requests"),
        _ => panic!("expected a package run"),
    }
}

#[test]
fn unknown_option_is_refused_with_status_2() {
    match parse_args(&strings(&["--version"])) {
        Err((m, c)) => {
            assert_eq!(m, "Option inconnue: --version\nUtilise: pythoninfo --help");
            assert_eq!(c, 2);
        }
        _ => panic!("expected an error"),
    }
}

#[test]
fn lone_dash_is_an_unknown_option() {
    match parse_args(&strings(&["-"])) {
        Err((m, c)) => {
            assert_eq!(m, "Option inconnue: -\nUtilise: pythoninfo --help");
            assert_eq!(c, 2);
        }
        _ => panic!("expected an error"),
    }
}

#[test]
fn help_is_case_sensitive() {
    match parse_args(&strings(&["HELP"])) {
        Ok(ParsedArgs::Run { package: Some(p) }) => assert_eq!(p, "HELP"),
        _ => panic!("expected a package run"),
    }
}

#[test]
fn two_arguments_are_refused_with_status_2() {
    match parse_args(&strings(&["a", "b"])) {
        Err((m, c)) => {
            assert_eq!(m, "Utilise: pythoninfo --help");
            assert_eq!(c, 2);
        }
        _ => panic!("expected an error"),
    }
    assert!(parse_args(&strings(&["--completion", "zsh"])).is_err());
}
