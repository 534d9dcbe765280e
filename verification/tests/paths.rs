use tomlconf::{ConfigPath, find_path, get_backup, locate_path};

fn path(dir: &str, name: &str) -> ConfigPath {
    ConfigPath { dir: dir.to_owned(), name: name.to_owned() }
}

#[test]
fn backup_keeps_directory_and_prefixes_name() {
    let p = path("/home/user/.config/tool", "config.toml");
    let b = get_backup(&p).unwrap();
    assert_eq!(b.dir, "/home/user/.config/tool");
    assert_eq!(b.name, ".bkp.config.toml");
}

#[test]
fn backup_of_empty_name_is_none() {
    let p = path("/home/user/.config/tool", "");
    assert!(get_backup(&p).is_none());
}

#[test]
fn backup_is_deterministic() {
    let p = path("/etc/app", "settings.toml");
    let b1 = get_backup(&p).unwrap();
    let b2 = get_backup(&p).unwrap();
    assert_eq!(b1.dir, b2.dir);
    assert_eq!(b1.name, b2.name);
}

#[test]
fn backup_is_injective_for_distinct_names() {
    let a = path("/etc/app", "one.toml");
    let b = path("/etc/app", "two.toml");
    let ba = get_backup(&a).unwrap();
    let bb = get_backup(&b).unwrap();
    assert_eq!(ba.dir, bb.dir);
    assert_ne!(ba.name, bb.name);
}

#[test]
fn display_joins_directory_and_name() {
    let p = path("/home/user/.config/tool", "config.toml");
    assert_eq!(p.display(), "/home/user/.config/tool/config.toml");
}

#[test]
fn duplicate_is_equal() {
    let p = path("/srv", "a.toml");
    let q = p.duplicate();
    assert_eq!(q.dir, p.dir);
    assert_eq!(q.name, p.name);
}

#[test]
fn locate_path_joins_the_resolved_directory() {
    let located = locate_path(Some("/home/user/.config/tool".to_owned()), "config.toml");
    let p = located.unwrap();
    assert_eq!(p.dir, "/home/user/.config/tool");
    assert_eq!(p.name, "config.toml");
}

#[test]
fn locate_path_is_none_exactly_without_a_resolution() {
    assert!(locate_path(None, "config.toml").is_none());
    assert!(locate_path(Some("/etc".to_owned()), "config.toml").is_some());
}

#[test]
fn find_path_uses_the_given_filename() {
    // The base directory depends on the machine; the file name never does.
    match find_path("", "Acme", "Tool", "config.toml") {
        Some(p) => assert_eq!(p.name, "config.toml"),
        None => (),
    }
}
