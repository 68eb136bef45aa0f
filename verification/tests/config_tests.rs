use mirror_watch::config::check_arg_count;
use mirror_watch::config::validate_paths;
use mirror_watch::config::ConfigError;
use mirror_watch::config::Mirror;
use mirror_watch::config::PathKind;
use mirror_watch::events::is_significant;
use mirror_watch::events::ChangeEvent;

#[test]
fn significance_table() {
    assert!(is_significant(&ChangeEvent::Created(String::from("a.txt"))));
    assert!(is_significant(&ChangeEvent::Removed(String::from("a.txt"))));
    assert!(is_significant(&ChangeEvent::Written(String::from("a.txt"))));
    assert!(is_significant(&ChangeEvent::Renamed(
        String::from("a.txt"),
        String::from("b.txt")
    )));
    assert!(!is_significant(&ChangeEvent::Other));
}

#[test]
fn significance_is_stateless() {
    let event = ChangeEvent::Written(String::from("x"));
    assert!(is_significant(&event));
    assert!(is_significant(&event));
    assert!(!is_significant(&ChangeEvent::Other));
    assert!(!is_significant(&ChangeEvent::Other));
}

#[test]
fn zero_arguments_rejected() {
    let args: Vec<String> = vec![];
    match check_arg_count(&args) {
        Err(ConfigError::MissingArguments { given }) => assert_eq!(given, 0),
        _ => panic!("expected a missing-arguments error"),
    }
}

#[test]
fn one_argument_rejected() {
    let args = vec![String::from("source")];
    match check_arg_count(&args) {
        Err(ConfigError::MissingArguments { given }) => assert_eq!(given, 1),
        _ => panic!("expected a missing-arguments error"),
    }
}

#[test]
fn two_arguments_rejected() {
    let args = vec![String::from("source"), String::from("target")];
    match check_arg_count(&args) {
        Err(ConfigError::MissingArguments { given }) => assert_eq!(given, 2),
        _ => panic!("expected a missing-arguments error"),
    }
}

#[test]
fn three_arguments_accepted() {
    let args = vec![
        String::from("source"),
        String::from("target"),
        String::from("exclusions"),
    ];
    assert!(check_arg_count(&args).is_ok());
}

#[test]
fn source_that_is_a_file_rejected() {
    let result = validate_paths(
        "source",
        "target",
        "exclusions",
        PathKind::File,
        PathKind::Directory,
        PathKind::File,
    );
    match result {
        Err(ConfigError::NotADirectory { path }) => assert_eq!(path, "source"),
        _ => panic!("expected a not-a-directory error for the source"),
    }
}

#[test]
fn target_that_is_missing_rejected() {
    let result = validate_paths(
        "source",
        "target",
        "exclusions",
        PathKind::Directory,
        PathKind::Other,
        PathKind::File,
    );
    match result {
        Err(ConfigError::NotADirectory { path }) => assert_eq!(path, "target"),
        _ => panic!("expected a not-a-directory error for the target"),
    }
}

#[test]
fn missing_exclusion_file_rejected() {
    let result = validate_paths(
        "source",
        "target",
        "exclusions",
        PathKind::Directory,
        PathKind::Directory,
        PathKind::Other,
    );
    match result {
        Err(ConfigError::NotAFile { path }) => assert_eq!(path, "exclusions"),
        _ => panic!("expected a not-a-file error for the exclusion list"),
    }
}

#[test]
fn valid_paths_accepted() {
    let result = validate_paths(
        "source",
        "target",
        "exclusions",
        PathKind::Directory,
        PathKind::Directory,
        PathKind::File,
    );
    let mirror = result.expect("valid configuration must be accepted");
    assert_eq!(mirror.source, "source");
    assert_eq!(mirror.target, "target");
    assert_eq!(mirror.ignorefile, "exclusions");
}

#[test]
fn mirror_getters() {
    let mirror = Mirror::new("a", "b", "c");
    assert_eq!(mirror.monitored(), "a");
    assert_eq!(mirror.target(), "b");
}
