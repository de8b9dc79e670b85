use fileops::cli::{declines, dispatch, is_refusal, plan_removal, validate, Action, Args, Removal, RemovalError, UsageError};

fn args(install: bool, delete: bool, move_file: bool, url: Option<&str>, move_to: Option<&str>) -> Args {
    Args {
        delete,
        install,
        move_file,
        path: "target.bin".to_string(),
        move_to: move_to.map(|s| s.to_string()),
        url: url.map(|s| s.to_string()),
    }
}

#[test]
fn conflicting_modes_rejected() {
    let cases = [
        args(true, true, false, Some("http://x"), None),
        args(true, false, true, Some("http://x"), Some("d")),
        args(false, true, true, None, Some("d")),
        args(true, true, true, Some("http://x"), Some("d")),
    ];
    for a in &cases {
        assert_eq!(validate(a), Err(UsageError::ConflictingModes));
        assert!(matches!(dispatch(a), Err(UsageError::ConflictingModes)));
    }
}

#[test]
fn each_usage_error() {
    assert_eq!(validate(&args(false, false, false, None, None)), Err(UsageError::NoAction));
    assert_eq!(validate(&args(false, true, false, Some("u"), None)), Err(UsageError::UrlNotAllowed));
    assert_eq!(validate(&args(false, false, true, Some("u"), Some("d"))), Err(UsageError::UrlNotAllowed));
    assert_eq!(validate(&args(false, false, true, None, None)), Err(UsageError::MissingMoveTo));
    assert_eq!(validate(&args(true, false, false, None, None)), Err(UsageError::MissingUrl));
    assert_eq!(
        validate(&args(true, false, false, Some("u"), Some("d"))),
        Err(UsageError::MoveToNotAllowed)
    );
    assert_eq!(validate(&args(false, true, false, None, Some("d"))), Err(UsageError::MoveToNotAllowed));
    assert!(matches!(
        dispatch(&args(true, false, false, Some("u"), Some("d"))),
        Err(UsageError::MoveToNotAllowed)
    ));
    assert_eq!(UsageError::MoveToNotAllowed.message(), "install/delete mode does not take --move-to");
    assert_eq!(UsageError::NoAction.message(), "No action specified");
    assert_eq!(
        UsageError::ConflictingModes.message(),
        "Can only use one of --install, --delete, or --move-file at a time"
    );
    assert_eq!(UsageError::UrlNotAllowed.message(), "delete/move mode does not take a URL");
    assert_eq!(UsageError::MissingMoveTo.message(), "move mode requires --move-to");
    assert_eq!(UsageError::MissingUrl.message(), "install mode requires a URL");
}

#[test]
fn valid_lines_dispatch() {
    match dispatch(&args(true, false, false, Some("http://h/f"), None)) {
        Ok(Action::Install { url, path }) => {
            assert_eq!(url, "http://h/f");
            assert_eq!(path, "target.bin");
        }
        _ => panic!("expected install"),
    }
    match dispatch(&args(false, true, false, None, None)) {
        Ok(Action::Delete { path }) => assert_eq!(path, "target.bin"),
        _ => panic!("expected delete"),
    }
    match dispatch(&args(false, false, true, None, Some("dest"))) {
        Ok(Action::Move { from, to }) => {
            assert_eq!(from, "target.bin");
            assert_eq!(to, "dest");
        }
        _ => panic!("expected move"),
    }
}

#[test]
fn delete_answered_n_is_declined() {
    assert!(declines("n\n"));
    assert!(declines("no"));
    assert!(declines("  NO \r\n"));
    assert!(declines("N"));
    assert!(!declines("y\n"));
    assert!(!declines("yes"));
    assert!(!declines("nope"));
    assert!(!declines(""));
}

#[test]
fn refusal_words() {
    assert!(is_refusal(&"n".to_string()));
    assert!(is_refusal(&"no".to_string()));
    assert!(!is_refusal(&"No".to_string()));
    assert!(!is_refusal(&" n".to_string()));
}

#[test]
fn removal_plans() {
    assert_eq!(plan_removal(false, false), Err(RemovalError::NotFound));
    assert_eq!(plan_removal(true, true), Ok(Removal::File));
    assert_eq!(plan_removal(true, false), Ok(Removal::Tree));
}
