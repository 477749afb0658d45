//! The mount list as configured: `path` or `path@name` entries.
use vstd::prelude::*;

use crate::text::{find_char, first_index};

verus! {

/// The port served on when none is configured.
pub const DEFAULT_PORT: u16 = 8080;

/// The address served on when none is configured.
pub const DEFAULT_ADDR: &'static str = "127.0.0.1";

/// The command line: port, address, mount entries and a configuration file.
#[derive(Debug)]
pub struct Args {
    pub port: Option<u16>,
    pub addr: Option<String>,
    pub dir: Option<Vec<String>>,
    pub config: Option<String>,
}

/// One mount: the directory on disk and the name it is served under.
#[derive(Clone, Debug)]
pub struct DavDirConfig {
    pub path: String,
    pub name: String,
}

impl View for DavDirConfig {
    type V = (Seq<char>, Seq<char>);

    open spec fn view(&self) -> (Seq<char>, Seq<char>) {
        (self.path@, self.name@)
    }
}

/// The final component of a path, as `std::path::Path` reads it on this target.
pub uninterp spec fn file_name_of(path: Seq<char>) -> Option<Seq<char>>;

/// Relies on `std::path::Path::file_name`: the final component of `path`, if it
/// has one. A `str` is UTF-8, so the component converts without loss.
#[verifier::external_body]
fn file_name(path: &str) -> (r: Option<String>)
    ensures
        match r {
            Some(s) => file_name_of(path@) == Some(s@),
            None => file_name_of(path@) is None,
        },
{
    std::path::Path::new(path).file_name().map(|n| n.to_string_lossy().into_owned())
}

/// The name a mount gets when none is given: the path's final component, or
/// `rootdir` for a path without one.
pub open spec fn dir_name_spec(path: Seq<char>) -> Seq<char> {
    match file_name_of(path) {
        Some(n) => n,
        None => "rootdir"@,
    }
}

/// The name for a path whose final component is `file_name`: that component,
/// or `rootdir` when there is none.
pub fn name_or_rootdir(file_name: Option<String>) -> (r: String)
    ensures
        r@ == match file_name {
            Some(n) => n@,
            None => "rootdir"@,
        },
{
    match file_name {
        Some(n) => n,
        None => String::from_str("rootdir"),
    }
}

/// The default name of a mount at `path`.
pub fn get_dir_name(path: &str) -> (r: String)
    ensures
        r@ == dir_name_spec(path@),
{
    name_or_rootdir(file_name(path))
}

/// An entry split at `@`: the path before the first `@`, and the name up to
/// the next `@` (what follows is ignored); with no `@`, the default name.
pub open spec fn dir_spec(s: Seq<char>) -> (Seq<char>, Seq<char>) {
    let a = first_index(s, '@') as int;
    let path = s.subrange(0, a);
    if a < s.len() {
        let rest = s.subrange(a + 1, s.len() as int);
        (path, rest.subrange(0, first_index(rest, '@') as int))
    } else {
        (path, dir_name_spec(path))
    }
}

/// Parses one `path` or `path@name` entry. Every string is an entry.
pub fn parse_dir_str(string: &str) -> (r: Option<(String, String)>)
    ensures
        r matches Some((p, n)) && (p@, n@) == dir_spec(string@),
{
    let len = string.unicode_len();
    let a = find_char(string, 0, '@');
    assert(string@.subrange(0, len as int) =~= string@);
    let path = String::from_str(string.substring_char(0, a));
    let name = if a < len {
        let b = find_char(string, a + 1, '@');
        proof {
            let rest = string@.subrange(a + 1, len as int);
            assert(rest.subrange(0, b - a - 1) =~= string@.subrange(a + 1, b as int));
        }
        String::from_str(string.substring_char(a + 1, b))
    } else {
        get_dir_name(path.as_str())
    };
    Some((path, name))
}

/// Parses each entry in turn.
pub fn parse_dir_args(path_strs: Vec<String>) -> (r: Vec<DavDirConfig>)
    ensures
        r@.len() == path_strs@.len(),
        forall|i: int| 0 <= i < r@.len() ==> #[trigger] r@[i]@ == dir_spec(path_strs@[i]@),
{
    let mut out: Vec<DavDirConfig> = Vec::new();
    let mut i: usize = 0;
    while i < path_strs.len()
        invariant
            i <= path_strs@.len(),
            out@.len() == i,
            forall|j: int| 0 <= j < i ==> #[trigger] out@[j]@ == dir_spec(path_strs@[j]@),
        decreases path_strs@.len() - i,
    {
        match parse_dir_str(path_strs[i].as_str()) {
            Some((path, name)) => out.push(DavDirConfig { path, name }),
            None => {},
        }
        i = i + 1;
    }
    out
}

/// The mount of `path` under its default name.
pub fn dir_of_path(path: &str) -> (r: DavDirConfig)
    ensures
        r@ == (path@, dir_name_spec(path@)),
{
    DavDirConfig { path: String::from_str(path), name: get_dir_name(path) }
}

/// The mounts of the command line's entries, or the current directory when
/// there are none.
pub fn dirs_from_args(dir: Option<Vec<String>>) -> (r: Vec<DavDirConfig>)
    ensures
        match dir {
            Some(v) => v@.len() > 0 ==> r@.len() == v@.len() && forall|i: int|
                0 <= i < r@.len() ==> #[trigger] r@[i]@ == dir_spec(v@[i]@),
            None => true,
        },
        (dir is None || dir->Some_0@.len() == 0) ==> r@.len() == 1 && r@[0]@ == dir_spec(
            "./"@,
        ),
{
    match dir {
        Some(v) => {
            if v.len() > 0 {
                return parse_dir_args(v);
            }
        },
        None => {},
    }
    let mut v: Vec<String> = Vec::new();
    v.push(String::from_str("./"));
    parse_dir_args(v)
}

/// Adds the current directory when the list is empty; otherwise leaves it.
pub fn ensure_some_dir(dirs: &mut Vec<DavDirConfig>)
    ensures
        old(dirs)@.len() > 0 ==> final(dirs)@ == old(dirs)@,
        old(dirs)@.len() == 0 ==> final(dirs)@.len() == 1 && final(dirs)@[0]@ == (
        "./"@,
        dir_name_spec("./"@),
        ),
{
    if dirs.len() == 0 {
        dirs.push(dir_of_path("./"));
    }
}

/// Whether two mounts share a name.
pub fn has_duplicate_names(dirs: &Vec<DavDirConfig>) -> (r: bool)
    ensures
        r == exists|i: int, j: int|
            0 <= i < j < dirs@.len() && #[trigger] dirs@[i].name@ == #[trigger] dirs@[j].name@,
{
    let mut i: usize = 0;
    while i < dirs.len()
        invariant
            i <= dirs@.len(),
            forall|a: int, b: int|
                0 <= a < b < dirs@.len() && a < i ==> #[trigger] dirs@[a].name@ != #[trigger] dirs@[b].name@,
        decreases dirs@.len() - i,
    {
        let mut j: usize = i + 1;
        while j < dirs.len()
            invariant
                i < dirs@.len(),
                i + 1 <= j <= dirs@.len(),
                forall|a: int, b: int|
                    0 <= a < b < dirs@.len() && a < i ==> #[trigger] dirs@[a].name@ != #[trigger] dirs@[b].name@,
                forall|b: int| i < b < j ==> dirs@[i as int].name@ != #[trigger] dirs@[b].name@,
            decreases dirs@.len() - j,
        {
            if dirs[i].name == dirs[j].name {
                return true;
            }
            j = j + 1;
        }
        i = i + 1;
    }
    false
}

/// Why a configuration cannot be used.
#[derive(Clone, Copy, Debug, PartialEq, Eq, Structural)]
pub enum ConfigError {
    /// The configured port is not a number from 0 to 65535.
    InvalidPort,
    /// A `Dir` section of the configuration file has no `path`.
    MissingDirPath,
}

/// The number that a text of ASCII digits denotes.
pub open spec fn digits_value(d: Seq<char>) -> nat
    decreases d.len(),
{
    if d.len() == 0 {
        0
    } else {
        digits_value(d.drop_last()) * 10 + ((d.last() as u32) - ('0' as u32)) as nat
    }
}

/// One or more ASCII digits.
pub open spec fn is_digits(d: Seq<char>) -> bool {
    d.len() > 0 && forall|i: int| 0 <= i < d.len() ==> '0' <= #[trigger] d[i] <= '9'
}

/// The port that a text denotes: an optional `+`, then one or more ASCII
/// digits, whose value is at most 65535.
pub open spec fn port_of(s: Seq<char>) -> Option<u16> {
    let d = if s.len() > 0 && s[0] == '+' {
        s.drop_first()
    } else {
        s
    };
    if is_digits(d) && digits_value(d) <= 65535 {
        Some(digits_value(d) as u16)
    } else {
        None
    }
}

/// Relies on `<u16 as FromStr>::from_str`: an optional `+`, then decimal
/// digits whose value fits in `u16`.
#[verifier::external_body]
fn parse_port(s: &str) -> (r: Option<u16>)
    ensures
        r == port_of(s@),
{
    s.parse::<u16>().ok()
}

/// The port to serve on: the command line's, else the file's, else the default.
pub fn pick_port(arg: Option<u16>, file: Option<&str>) -> (r: Result<u16, ConfigError>)
    ensures
        r == match (arg, file) {
            (Some(p), _) => Ok::<u16, ConfigError>(p),
            (None, Some(t)) => match port_of(t@) {
                Some(p) => Ok(p),
                None => Err(ConfigError::InvalidPort),
            },
            (None, None) => Ok(DEFAULT_PORT),
        },
{
    match arg {
        Some(p) => Ok(p),
        None => match file {
            Some(t) => match parse_port(t) {
                Some(p) => Ok(p),
                None => Err(ConfigError::InvalidPort),
            },
            None => Ok(DEFAULT_PORT),
        },
    }
}

/// The address to serve on: the command line's, else the file's, else the default.
pub fn pick_addr(arg: Option<String>, file: Option<String>) -> (r: String)
    ensures
        r@ == match (arg, file) {
            (Some(a), _) => a@,
            (None, Some(f)) => f@,
            (None, None) => DEFAULT_ADDR@,
        },
{
    match arg {
        Some(a) => a,
        None => match file {
            Some(f) => f,
            None => String::from_str(DEFAULT_ADDR),
        },
    }
}

/// The mounts of a configuration file run: the command line's entries, then
/// one per `Dir` section under its default name, or the current directory when
/// that makes none. A section without a `path` is an error.
pub fn load_dirs(dir: Option<Vec<String>>, sections: Vec<Option<String>>) -> (r: Result<
    Vec<DavDirConfig>,
    ConfigError,
>)
    ensures
        (exists|k: int| 0 <= k < sections@.len() && #[trigger] sections@[k] is None) <==> r
            == Err::<Vec<DavDirConfig>, ConfigError>(ConfigError::MissingDirPath),
        r is Err ==> r == Err::<Vec<DavDirConfig>, ConfigError>(ConfigError::MissingDirPath),
        r matches Ok(v) ==> {
            let given = match dir {
                Some(d) => d@.len(),
                None => 0,
            };
            let total = given + sections@.len();
            &&& total > 0 ==> v@.len() == total
            &&& total == 0 ==> v@.len() == 1 && v@[0]@ == ("./"@, dir_name_spec("./"@))
            &&& forall|i: int|
                0 <= i < given ==> #[trigger] v@[i]@ == dir_spec(dir->Some_0@[i]@)
            &&& forall|k: int|
                0 <= k < sections@.len() ==> #[trigger] v@[given + k]@ == (
                sections@[k]->Some_0@,
                dir_name_spec(sections@[k]->Some_0@),
                )
        },
{
    let ghost given_strs: Seq<String> = match &dir {
        Some(d) => d@,
        None => Seq::empty(),
    };
    let mut dirs = match dir {
        Some(d) => parse_dir_args(d),
        None => Vec::new(),
    };
    let ghost given = dirs@.len();
    let mut k: usize = 0;
    while k < sections.len()
        invariant
            k <= sections@.len(),
            given == given_strs.len(),
            dirs@.len() == given + k,
            forall|i: int| 0 <= i < given ==> #[trigger] dirs@[i]@ == dir_spec(given_strs[i]@),
            forall|j: int| 0 <= j < k ==> #[trigger] sections@[j] is Some,
            forall|j: int|
                0 <= j < k ==> #[trigger] dirs@[given + j]@ == (
                sections@[j]->Some_0@,
                dir_name_spec(sections@[j]->Some_0@),
                ),
        decreases sections@.len() - k,
    {
        match &sections[k] {
            Some(path) => dirs.push(dir_of_path(path.as_str())),
            None => return Err(ConfigError::MissingDirPath),
        }
        k = k + 1;
    }
    ensure_some_dir(&mut dirs);
    Ok(dirs)
}

} // verus!
