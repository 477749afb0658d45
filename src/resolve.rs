//! Splitting a virtual request path into a mount name and the path inside that mount.
use vstd::prelude::*;

use crate::text::{find_char, first_index};

verus! {

/// The path with one leading `/` taken off, if it has one.
pub open spec fn strip_one_slash(s: Seq<char>) -> Seq<char> {
    if s.len() > 0 && s[0] == '/' {
        s.drop_first()
    } else {
        s
    }
}

/// What a virtual path designates: `None` for the virtual root, or the mount
/// name and the path inside that mount (which always starts with `/`).
pub open spec fn resolve_spec(s: Seq<char>) -> Option<(Seq<char>, Seq<char>)> {
    let t = strip_one_slash(s);
    let i = first_index(t, '/') as int;
    if i == 0 {
        None
    } else if i < t.len() {
        Some((t.subrange(0, i as int), seq!['/'] + t.subrange(i + 1 as int, t.len() as int)))
    } else {
        Some((t, seq!['/']))
    }
}

/// The target of a virtual path.
pub enum ResolvedTarget {
    /// The synthetic root that lists the mounts.
    Root,
    /// A path inside the mount of the given name.
    Backend { name: String, path: String },
}

impl View for ResolvedTarget {
    type V = Option<(Seq<char>, Seq<char>)>;

    open spec fn view(&self) -> Self::V {
        match self {
            ResolvedTarget::Root => None,
            ResolvedTarget::Backend { name, path } => Some((name@, path@)),
        }
    }
}

/// Splits `path` after one leading `/` at its first `/`: an empty first
/// segment designates the root; otherwise that segment names the mount and the
/// rest, with a `/` in front, is the path inside it.
pub fn resolve(path: &str) -> (r: ResolvedTarget)
    ensures
        r@ == resolve_spec(path@),
{
    let n = path.unicode_len();
    let start: usize = if n > 0 && path.get_char(0) == '/' {
        1
    } else {
        0
    };
    let i = find_char(path, start, '/');
    let ghost t = strip_one_slash(path@);
    assert(t =~= path@.subrange(start as int, n as int));
    if i == start {
        ResolvedTarget::Root
    } else {
        let name = String::from_str(path.substring_char(start, i));
        let rest = if i < n {
            String::from_str("/").concat(path.substring_char(i + 1, n))
        } else {
            String::from_str("/")
        };
        proof {
            reveal_strlit("/");
            assert(name@ =~= t.subrange(0, i - start));
            if i < n {
                assert(rest@ =~= seq!['/'] + t.subrange(i - start + 1, t.len() as int));
            } else {
                assert(name@ =~= t);
                assert(rest@ =~= seq!['/']);
            }
        }
        ResolvedTarget::Backend { name, path: rest }
    }
}

/// Resolution is a function of the path alone: two resolutions of the same
/// path give the same target.
pub proof fn law_resolve_is_deterministic(a: ResolvedTarget, b: ResolvedTarget, p: Seq<char>)
    requires
        a@ == resolve_spec(p),
        b@ == resolve_spec(p),
    ensures
        a@ == b@,
{
}

} // verus!
