use multidav::config::{
    dirs_from_args, ensure_some_dir, get_dir_name, has_duplicate_names, load_dirs, name_or_rootdir,
    parse_dir_args, parse_dir_str, pick_addr, pick_port, ConfigError, DavDirConfig, DEFAULT_ADDR, DEFAULT_PORT,
};
use multidav::dav::{FsAsDir, FsAsFile, FsMeta};

fn pair(d: &DavDirConfig) -> (&str, &str) {
    (d.path.as_str(), d.name.as_str())
}

#[test]
fn dir_name_is_last_component() {
    assert_eq!(get_dir_name("/srv/share"), "share");
    assert_eq!(get_dir_name("/srv/share/"), "share");
    assert_eq!(get_dir_name("docs"), "docs");
}

#[test]
fn dir_name_without_component_is_rootdir() {
    assert_eq!(get_dir_name("/"), "rootdir");
    assert_eq!(get_dir_name("./"), "rootdir");
    assert_eq!(get_dir_name(".."), "rootdir");
}

#[test]
fn entry_with_name() {
    assert_eq!(parse_dir_str("/srv/a@pics"), Some(("/srv/a".to_string(), "pics".to_string())));
    assert_eq!(parse_dir_str("/srv/a@pics@more"), Some(("/srv/a".to_string(), "pics".to_string())));
    assert_eq!(parse_dir_str("/srv/a@"), Some(("/srv/a".to_string(), "".to_string())));
}

#[test]
fn entry_without_name() {
    assert_eq!(parse_dir_str("/srv/music"), Some(("/srv/music".to_string(), "music".to_string())));
    assert_eq!(parse_dir_str(""), Some(("".to_string(), "rootdir".to_string())));
}

#[test]
fn entries_parse_in_order() {
    let v = parse_dir_args(vec!["/a/x".to_string(), "/b@y".to_string()]);
    assert_eq!(v.len(), 2);
    assert_eq!(pair(&v[0]), ("/a/x", "x"));
    assert_eq!(pair(&v[1]), ("/b", "y"));
}

#[test]
fn no_entries_means_current_dir() {
    let v = dirs_from_args(None);
    assert_eq!(v.len(), 1);
    assert_eq!(pair(&v[0]), ("./", "rootdir"));
    let v = dirs_from_args(Some(vec![]));
    assert_eq!(v.len(), 1);
    assert_eq!(pair(&v[0]), ("./", "rootdir"));
}

#[test]
fn empty_list_gets_current_dir() {
    let mut v: Vec<DavDirConfig> = Vec::new();
    ensure_some_dir(&mut v);
    assert_eq!(v.len(), 1);
    assert_eq!(pair(&v[0]), ("./", "rootdir"));
    ensure_some_dir(&mut v);
    assert_eq!(v.len(), 1);
}

#[test]
fn duplicate_names_are_found() {
    let v = parse_dir_args(vec!["/a/x".to_string(), "/b@y".to_string()]);
    assert!(!has_duplicate_names(&v));
    let v = parse_dir_args(vec!["/a/x".to_string(), "/b@y".to_string(), "/c/x".to_string()]);
    assert!(has_duplicate_names(&v));
}

#[test]
fn port_precedence() {
    assert_eq!(pick_port(Some(9000), Some("81")), Ok(9000));
    assert_eq!(pick_port(None, Some("81")), Ok(81));
    assert_eq!(pick_port(None, None), Ok(DEFAULT_PORT));
    assert_eq!(DEFAULT_PORT, 8080);
    assert_eq!(pick_port(None, Some("http")), Err(ConfigError::InvalidPort));
    assert_eq!(pick_port(None, Some("70000")), Err(ConfigError::InvalidPort));
    assert_eq!(pick_port(None, Some("+0443")), Ok(443));
    assert_eq!(pick_port(None, Some("65535")), Ok(65535));
    assert_eq!(pick_port(None, Some("65536")), Err(ConfigError::InvalidPort));
    assert_eq!(pick_port(None, Some("")), Err(ConfigError::InvalidPort));
    assert_eq!(pick_port(None, Some("+")), Err(ConfigError::InvalidPort));
    assert_eq!(pick_port(None, Some("-1")), Err(ConfigError::InvalidPort));
    assert_eq!(pick_port(None, Some(" 80")), Err(ConfigError::InvalidPort));
}

#[test]
fn addr_precedence() {
    assert_eq!(pick_addr(Some("0.0.0.0".into()), Some("10.0.0.1".into())), "0.0.0.0");
    assert_eq!(pick_addr(None, Some("10.0.0.1".into())), "10.0.0.1");
    assert_eq!(pick_addr(None, None), DEFAULT_ADDR);
    assert_eq!(DEFAULT_ADDR, "127.0.0.1");
}

#[test]
fn load_dirs_appends_sections() {
    let v = load_dirs(Some(vec!["/a@one".to_string()]), vec![Some("/srv/two".to_string())]).unwrap();
    assert_eq!(v.len(), 2);
    assert_eq!(pair(&v[0]), ("/a", "one"));
    assert_eq!(pair(&v[1]), ("/srv/two", "two"));
}

#[test]
fn load_dirs_defaults_to_current_dir() {
    let v = load_dirs(None, vec![]).unwrap();
    assert_eq!(v.len(), 1);
    assert_eq!(pair(&v[0]), ("./", "rootdir"));
}

#[test]
fn load_dirs_rejects_section_without_path() {
    let r = load_dirs(None, vec![Some("/x".to_string()), None]);
    assert_eq!(r.err(), Some(ConfigError::MissingDirPath));
}

#[test]
fn synthetic_entries() {
    let d = FsAsDir::new("alpha".to_string());
    assert_eq!(d.name(), b"alpha".to_vec());
    assert_eq!(d.metadata().len(), 1);
    let m = FsMeta::default();
    assert_eq!(m.len(), 1);
    assert!(m.is_dir());
    let f = FsAsFile::default();
    assert_eq!(f.metadata().len(), 1);
}

#[test]
fn file_name_or_rootdir() {
    assert_eq!(name_or_rootdir(Some("x".to_string())), "x");
    assert_eq!(name_or_rootdir(None), "rootdir");
}

