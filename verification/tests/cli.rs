use rnmx::dispatch::{dispatch, Action};
use rnmx::flags::{classify_flag, eq_ignore_case, FlagKind};
use rnmx::request::{parse_request, UsageError};

#[test]
fn parse_four_elements_fills_all_fields() {
    let args = vec![
        "rnmx".to_string(),
        "-p".to_string(),
        "hello.txt".to_string(),
        "bye.txt".to_string(),
    ];
    let req = parse_request(args).unwrap();
    assert_eq!(req.flag, "-p");
    assert_eq!(req.source.as_deref(), Some("hello.txt"));
    assert_eq!(req.destination.as_deref(), Some("bye.txt"));
}

#[test]
fn parse_two_elements_keeps_flag_only() {
    let args = vec!["rnmx".to_string(), "-h".to_string()];
    let req = parse_request(args).unwrap();
    assert_eq!(req.flag, "-h");
    assert!(req.source.is_none());
    assert!(req.destination.is_none());
}

#[test]
fn parse_three_elements_keeps_flag_only() {
    let args = vec!["rnmx".to_string(), "-p".to_string(), "only.txt".to_string()];
    let req = parse_request(args).unwrap();
    assert_eq!(req.flag, "-p");
    assert!(req.source.is_none());
    assert!(req.destination.is_none());
}

#[test]
fn parse_five_elements_keeps_flag_only() {
    let args = vec![
        "rnmx".to_string(),
        "-p".to_string(),
        "a".to_string(),
        "b".to_string(),
        "c".to_string(),
    ];
    let req = parse_request(args).unwrap();
    assert_eq!(req.flag, "-p");
    assert!(req.source.is_none());
    assert!(req.destination.is_none());
}

#[test]
fn parse_without_flag_is_missing_flag() {
    assert!(matches!(
        parse_request(vec!["rnmx".to_string()]),
        Err(UsageError::MissingFlag)
    ));
    assert!(matches!(
        parse_request(Vec::new()),
        Err(UsageError::MissingFlag)
    ));
}

#[test]
fn flag_matching_ignores_ascii_case() {
    assert!(eq_ignore_case("AbC", "aBc"));
    assert!(eq_ignore_case("--PATH", "--path"));
    assert!(!eq_ignore_case("a", "b"));
    assert!(!eq_ignore_case("ab", "abc"));
    assert!(!eq_ignore_case("-p", "-p "));
}

#[test]
fn flag_dispatch_is_case_insensitive() {
    assert_eq!(classify_flag("-p"), FlagKind::Rename);
    assert_eq!(classify_flag("-P"), FlagKind::Rename);
    assert_eq!(classify_flag("--PATH"), FlagKind::Rename);
    assert_eq!(classify_flag("--Path"), FlagKind::Rename);
    assert_eq!(classify_flag("-h"), FlagKind::Help);
    assert_eq!(classify_flag("-H"), FlagKind::Help);
    assert_eq!(classify_flag("--HeLp"), FlagKind::Help);
    assert_eq!(classify_flag("-I"), FlagKind::Info);
    assert_eq!(classify_flag("--INFO"), FlagKind::Info);
    assert_eq!(classify_flag("-x"), FlagKind::Unknown);
    assert_eq!(classify_flag("--p"), FlagKind::Unknown);
    assert_eq!(classify_flag(""), FlagKind::Unknown);
}

#[test]
fn help_flag_routes_to_help() {
    let args = vec!["rnmx".to_string(), "-h".to_string()];
    let action = dispatch(parse_request(args).unwrap()).unwrap();
    assert!(matches!(action, Action::ShowHelp));
}

#[test]
fn info_flag_routes_to_info() {
    let args = vec!["rnmx".to_string(), "-i".to_string()];
    let action = dispatch(parse_request(args).unwrap()).unwrap();
    assert!(matches!(action, Action::ShowInfo));
}

#[test]
fn rename_file_request_routes_to_rename() {
    let args = vec![
        "rnmx".to_string(),
        "-p".to_string(),
        "hello.txt".to_string(),
        "bye.txt".to_string(),
    ];
    match dispatch(parse_request(args).unwrap()).unwrap() {
        Action::Rename { asset, new_path } => {
            assert_eq!(asset.path(), "hello.txt");
            assert_eq!(new_path, "bye.txt");
        }
        _ => panic!("expected a rename action"),
    }
}

#[test]
fn rename_directory_request_routes_to_rename() {
    let args = vec![
        "rnmx".to_string(),
        "-p".to_string(),
        "hello".to_string(),
        "bye".to_string(),
    ];
    match dispatch(parse_request(args).unwrap()).unwrap() {
        Action::Rename { asset, new_path } => {
            assert_eq!(asset.path(), "hello");
            assert_eq!(new_path, "bye");
        }
        _ => panic!("expected a rename action"),
    }
}

#[test]
fn uppercase_rename_flag_routes_to_rename() {
    let args = vec![
        "rnmx".to_string(),
        "--PATH".to_string(),
        "hello".to_string(),
        "bye".to_string(),
    ];
    assert!(matches!(
        dispatch(parse_request(args).unwrap()),
        Ok(Action::Rename { .. })
    ));
}

#[test]
fn unknown_flag_is_reported() {
    let args = vec!["rnmx".to_string(), "-x".to_string()];
    let r = dispatch(parse_request(args).unwrap());
    assert!(matches!(r, Err(UsageError::UnknownFlag)));
}

#[test]
fn rename_flag_without_paths_is_missing_paths() {
    let args = vec!["rnmx".to_string(), "-p".to_string()];
    let r = dispatch(parse_request(args).unwrap());
    assert!(matches!(r, Err(UsageError::MissingPaths)));

    let args = vec!["rnmx".to_string(), "-p".to_string(), "only.txt".to_string()];
    let r = dispatch(parse_request(args).unwrap());
    assert!(matches!(r, Err(UsageError::MissingPaths)));
}
