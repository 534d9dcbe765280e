use tomlconf::{
    ConfigFind, ConfigOpen, ConfigPath, ConfigRecord, ConfigSaveError, IoError, ParseError, find,
    from_path, open,
};

fn path(dir: &str, name: &str) -> ConfigPath {
    ConfigPath { dir: dir.to_owned(), name: name.to_owned() }
}

fn record(output: &str, number: u64) -> ConfigRecord {
    ConfigRecord { output: output.to_owned(), number }
}

fn io_error(detail: &str) -> IoError {
    IoError { detail: detail.to_owned() }
}

fn parse_error(detail: &str) -> ParseError {
    ParseError { detail: detail.to_owned() }
}

#[test]
fn open_on_failed_read_is_inaccessible() {
    // A nonexistent path reads as an I/O failure, never as invalid or valid.
    let r = open::<ConfigRecord>(Err(io_error("No such file or directory")));
    match r {
        ConfigOpen::FileInaccessible(e) => assert_eq!(e.detail, "No such file or directory"),
        _ => panic!("a failed read must be classified inaccessible"),
    }
}

#[test]
fn open_on_malformed_text_is_invalid() {
    let r = open::<ConfigRecord>(Ok(Err(parse_error("expected `=`"))));
    match r {
        ConfigOpen::FileInvalid(e) => assert_eq!(e.detail, "expected `=`"),
        _ => panic!("refused text must be classified invalid"),
    }
}

#[test]
fn open_on_parsed_record_is_valid() {
    let r = open(Ok(Ok(record("hello", 2))));
    match r {
        ConfigOpen::FileValid(cfg) => {
            assert_eq!(cfg.output, "hello");
            assert_eq!(cfg.number, 2);
        },
        _ => panic!("a parsed record must be classified valid"),
    }
}

#[test]
fn from_path_without_file_is_does_not_exist() {
    let r = from_path::<ConfigRecord>(path("/etc/app", "c.toml"), None);
    match &r {
        ConfigFind::DoesNotExist(p) => assert_eq!(p.name, "c.toml"),
        _ => panic!("an absent file must be classified as missing"),
    }
    assert!(r.config().is_none());
    assert!(r.into_config().is_none());
}

#[test]
fn from_path_with_valid_file_exposes_the_record() {
    let r = from_path(path("/etc/app", "c.toml"), Some(Ok(Ok(record("x", 9)))));
    assert_eq!(r.config().unwrap().number, 9);
    let p = r.path().unwrap();
    assert_eq!(p.dir, "/etc/app");
    let cfg = r.into_config().unwrap();
    assert_eq!(cfg.output, "x");
}

#[test]
fn find_without_a_resolution_is_no_path() {
    let r = find::<ConfigRecord>(None, None);
    assert!(matches!(r, ConfigFind::NoPath));
}

#[test]
fn find_with_a_resolution_classifies_the_probe() {
    let missing = find::<ConfigRecord>(Some(path("/etc/app", "c.toml")), None);
    assert!(matches!(missing, ConfigFind::DoesNotExist(_)));
    let found = find(Some(path("/etc/app", "c.toml")), Some(Ok(Ok(record("x", 9)))));
    match found {
        ConfigFind::Exists(p, ConfigOpen::FileValid(cfg)) => {
            assert_eq!(p.name, "c.toml");
            assert_eq!(cfg.number, 9);
        },
        _ => panic!("a resolved path with a valid file must be found"),
    }
}

#[test]
fn find_path_accessor_is_none_only_without_a_path() {
    let missing = from_path::<ConfigRecord>(path("/etc/app", "c.toml"), None);
    assert!(missing.path().is_some());
    let nowhere = ConfigFind::<ConfigRecord>::NoPath;
    assert!(nowhere.path().is_none());
}

#[test]
fn into_result_splits_found_from_the_rest() {
    let found = from_path(path("/d", "f"), Some(Ok(Ok(record("a", 1)))));
    assert!(found.into_result().is_ok());
    let missing = from_path::<ConfigRecord>(path("/d", "f"), None);
    assert!(missing.into_result().is_err());

    let valid = open(Ok(Ok(record("a", 1))));
    assert!(valid.into_result().is_ok());
    let invalid = open::<ConfigRecord>(Ok(Err(parse_error("bad"))));
    assert!(invalid.into_result().is_err());
}

#[test]
fn locating_twice_with_an_unchanged_filesystem_matches() {
    let first = from_path(path("/etc/app", "c.toml"), Some(Ok(Ok(record("x", 9)))));
    let second = from_path(path("/etc/app", "c.toml"), Some(Ok(Ok(record("x", 9)))));
    assert_eq!(first.describe(), second.describe());
    assert_eq!(first.into_config().unwrap().output, second.into_config().unwrap().output);
}

#[test]
fn descriptions_name_the_failure_and_the_path() {
    let unreadable = open::<ConfigRecord>(Err(io_error("denied")));
    assert_eq!(unreadable.describe(), "Cannot access file: denied");
    let invalid = open::<ConfigRecord>(Ok(Err(parse_error("bad"))));
    assert_eq!(invalid.describe(), "Cannot read configuration: bad");
    let valid = open(Ok(Ok(record("a", 1))));
    assert_eq!(valid.describe(), "Successfully read file");

    let missing = from_path::<ConfigRecord>(path("/etc/app", "c.toml"), None);
    assert_eq!(missing.describe(), "File does not exist: /etc/app/c.toml");
    let found = from_path(path("/etc/app", "c.toml"), Some(Ok(Ok(record("a", 1)))));
    assert_eq!(found.describe(), "Successfully read file at /etc/app/c.toml");
    let nowhere = ConfigFind::<ConfigRecord>::NoPath;
    assert_eq!(nowhere.describe(), "Cannot find config path.");
}

#[test]
fn save_errors_wrap_their_causes() {
    let io = ConfigSaveError::from(io_error("disk full"));
    match io {
        ConfigSaveError::FileInaccessible(e) => assert_eq!(e.detail, "disk full"),
        _ => panic!("an I/O failure must map to FileInaccessible"),
    }
    let ser = ConfigSaveError::from(tomlconf::SerError { detail: "unsupported".to_owned() });
    match ser {
        ConfigSaveError::SerializeFailure(e) => assert_eq!(e.detail, "unsupported"),
        _ => panic!("a codec failure must map to SerializeFailure"),
    }
}
