use multidav::config::parse_dir_args;
use multidav::multifs::{Dispatch, FsErrorKind, MultiFs};

fn two() -> MultiFs<u32> {
    MultiFs::from_mounts(vec![("alpha".to_string(), 10), ("beta".to_string(), 20)])
}

fn one() -> MultiFs<u32> {
    MultiFs::from_mounts(vec![("only".to_string(), 7)])
}

#[test]
fn single_mount_forwards_path_unchanged() {
    let fs = one();
    for p in ["/", "", "/alpha/docs/a.txt", "weird//path@x"] {
        let d = fs.open(p, "").ok().unwrap();
        assert_eq!(d.index, 0);
        assert_eq!(d.path, p);
        assert_eq!(*fs.backend(d.index), 7);
        match fs.read_dir(p, "").ok().unwrap() {
            Dispatch::Delegate(d) => assert_eq!(d.path, p),
            Dispatch::Local(_) => panic!("single mount has no synthetic root"),
        }
    }
    let t = fs.rename("/a", "/b", "").ok().unwrap();
    assert_eq!((t.index, t.from.as_str(), t.to.as_str()), (0, "/a", "/b"));
}

#[test]
fn root_paths_route_to_root() {
    let fs = two();
    assert!(matches!(fs.route("/", ""), Ok(None)));
    assert!(matches!(fs.route("", ""), Ok(None)));
}

#[test]
fn known_mount_routes_with_inner_path() {
    let fs = two();
    let d = fs.route("/beta/docs/a.txt", "").ok().unwrap().unwrap();
    assert_eq!(d.index, 1);
    assert_eq!(d.path, "/docs/a.txt");
    assert_eq!(*fs.backend(d.index), 20);
}

#[test]
fn unknown_mount_is_not_found() {
    let fs = two();
    assert_eq!(fs.route("/gamma/x", "").err(), Some(FsErrorKind::NotFound));
    assert_eq!(fs.get_fs("gamma"), Err(FsErrorKind::NotFound));
    assert_eq!(fs.get_fs("beta"), Ok(1));
    assert_eq!(fs.metadata("/gamma/x", "").err(), Some(FsErrorKind::NotFound));
}

#[test]
fn read_dir_at_root_lists_mounts() {
    let fs = two();
    match fs.read_dir("/", "").ok().unwrap() {
        Dispatch::Local(v) => {
            assert_eq!(v.len(), 2);
            let mut names: Vec<Vec<u8>> = v.iter().map(|e| e.name()).collect();
            names.sort();
            assert_eq!(names, vec![b"alpha".to_vec(), b"beta".to_vec()]);
            for e in v.iter() {
                assert!(e.metadata().is_dir());
                assert_eq!(e.metadata().len(), 1);
            }
        }
        Dispatch::Delegate(_) => panic!("root listing expected"),
    }
}

#[test]
fn read_dir_in_mount_delegates() {
    let fs = two();
    match fs.read_dir("/alpha/sub", "").ok().unwrap() {
        Dispatch::Delegate(d) => {
            assert_eq!(d.index, 0);
            assert_eq!(d.path, "/sub");
        }
        Dispatch::Local(_) => panic!("delegation expected"),
    }
}

#[test]
fn metadata_at_root_is_a_directory() {
    let fs = two();
    for m in [fs.metadata("/", ""), fs.symlink_metadata("", "")] {
        match m.ok().unwrap() {
            Dispatch::Local(m) => {
                assert!(m.is_dir());
                assert_eq!(m.len(), 1);
            }
            Dispatch::Delegate(_) => panic!("synthetic metadata expected"),
        }
    }
}

#[test]
fn changes_at_root_are_forbidden() {
    let fs = two();
    assert_eq!(fs.create_dir("/", "").err(), Some(FsErrorKind::Forbidden));
    assert_eq!(fs.remove_dir("/", "").err(), Some(FsErrorKind::Forbidden));
    assert_eq!(fs.remove_file("", "").err(), Some(FsErrorKind::Forbidden));
}

#[test]
fn changes_in_mount_delegate() {
    let fs = two();
    let d = fs.create_dir("/beta/new", "").ok().unwrap();
    assert_eq!((d.index, d.path.as_str()), (1, "/new"));
    let d = fs.remove_file("/alpha/f.txt", "").ok().unwrap();
    assert_eq!((d.index, d.path.as_str()), (0, "/f.txt"));
}

#[test]
fn open_at_root_fails() {
    let fs = two();
    assert_eq!(fs.open("/", "").err(), Some(FsErrorKind::NotFound));
    let d = fs.open("/alpha/a", "").ok().unwrap();
    assert_eq!((d.index, d.path.as_str()), (0, "/a"));
}

#[test]
fn rename_across_mounts_is_not_implemented() {
    let fs = two();
    assert_eq!(fs.rename("/alpha/a", "/beta/b", "").err(), Some(FsErrorKind::NotImplemented));
    assert_eq!(fs.copy("/alpha/a", "/beta/b", "").err(), Some(FsErrorKind::NotImplemented));
    assert_eq!(fs.rename("/", "/beta/b", "").err(), Some(FsErrorKind::NotImplemented));
    assert_eq!(fs.copy("/alpha/a", "", "").err(), Some(FsErrorKind::NotImplemented));
}

#[test]
fn rename_within_mount_delegates() {
    let fs = two();
    let t = fs.rename("/alpha/a", "/alpha/b", "").ok().unwrap();
    assert_eq!((t.index, t.from.as_str(), t.to.as_str()), (0, "/a", "/b"));
    assert_eq!(*fs.backend(t.index), 10);
    let t = fs.copy("/beta/x/y", "/beta/z", "").ok().unwrap();
    assert_eq!((t.index, t.from.as_str(), t.to.as_str()), (1, "/x/y", "/z"));
}

#[test]
fn transfer_in_unknown_mount_is_not_found() {
    let fs = two();
    assert_eq!(fs.copy("/gamma/a", "/gamma/b", "").err(), Some(FsErrorKind::NotFound));
}

#[test]
fn table_size_and_first() {
    assert_eq!(two().len(), 2);
    assert_eq!(one().len(), 1);
    assert_eq!(two().get_first_fs(), 0);
}

#[test]
fn table_of_configured_dirs() {
    let dirs = parse_dir_args(vec!["/srv/a@alpha".to_string(), "/srv/beta".to_string()]);
    let fs = MultiFs::new(dirs);
    assert_eq!(fs.len(), 2);
    assert_eq!(fs.get_fs("alpha"), Ok(0));
    assert_eq!(fs.get_fs("beta"), Ok(1));
    let d = fs.route("/beta/x", "").ok().unwrap().unwrap();
    assert_eq!((d.index, d.path.as_str()), (1, "/x"));
}

#[test]
fn delegation_carries_rebuilt_path() {
    let fs = two();
    let d = fs.open("/alpha/docs/a.txt", "").ok().unwrap();
    assert_eq!(d.rebuilt.unwrap().as_url_string(), "/docs/a.txt");
    let t = fs.rename("/alpha/a", "/alpha/b", "").ok().unwrap();
    let (a, b) = t.rebuilt.unwrap();
    assert_eq!((a.as_url_string(), b.as_url_string()), ("/a".to_string(), "/b".to_string()));
    assert!(one().open("/x", "").ok().unwrap().rebuilt.is_none());
}

#[test]
fn rebuilt_path_keeps_the_prefix() {
    let fs = two();
    let d = fs.open("/alpha/docs/a.txt", "/dav").ok().unwrap();
    let p = d.rebuilt.unwrap();
    assert_eq!(p.prefix(), "/dav");
    assert_eq!(p.as_url_string(), "/docs/a.txt");
}

#[test]
fn malformed_inner_path_is_general_failure_before_lookup() {
    let fs = two();
    assert_eq!(fs.open("/alpha/a#b", "").err(), Some(FsErrorKind::GeneralFailure));
    assert_eq!(fs.open("/gamma/a#b", "").err(), Some(FsErrorKind::GeneralFailure));
    assert_eq!(fs.rename("/alpha/a", "/alpha/b#c", "").err(), Some(FsErrorKind::GeneralFailure));
}
