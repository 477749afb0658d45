//! One filesystem made of several mounts: each operation either goes to the
//! mount that its path names, with the path inside that mount, or is answered
//! for the virtual root itself.
use vstd::prelude::*;

use dav_server::davpath::DavPath;
use dav_server::localfs::LocalFs;

use crate::config::DavDirConfig;
use crate::dav::{FsAsDir, FsMeta};
use crate::davpath::{dav_path_parses, rebuild_path};
use crate::resolve::{resolve, resolve_spec, ResolvedTarget};

verus! {

/// Why an operation failed.
#[derive(Clone, Copy, Debug, PartialEq, Eq, Structural)]
pub enum FsErrorKind {
    /// The mount, or the entity inside it, does not exist.
    NotFound,
    /// The path could not be rebuilt for the mount.
    GeneralFailure,
    /// A change of the virtual root was asked for.
    Forbidden,
    /// The operation has no meaning here (across mounts, or at the root).
    NotImplemented,
}

/// The opaque credential that requests carry.
#[derive(Clone, Copy, Debug)]
pub struct Cred;

/// The mount names of a list of mounts, in order.
pub open spec fn names_of<B>(mounts: Seq<(String, B)>) -> Seq<Seq<char>> {
    Seq::new(mounts.len(), |i: int| mounts[i].0@)
}

/// No name occurs twice.
pub open spec fn distinct(names: Seq<Seq<char>>) -> bool {
    forall|i: int, j: int|
        0 <= i < names.len() && 0 <= j < names.len() && names[i] == names[j] ==> i == j
}

/// Whether the path `inner` of a mount reads as a path under the URL `prefix`.
pub open spec fn rebuilds(prefix: Seq<char>, inner: Seq<char>) -> bool {
    dav_path_parses(prefix + inner)
}

/// Where a single path goes: `Ok(None)` for the virtual root, or
/// `Ok(Some((i, p, rebuilt)))` for path `p` in mount `i`. With one mount the
/// path goes there unchanged, as the request's own; with several, the inner
/// path is rebuilt under the URL prefix first (a general failure when it does
/// not read as a path), and only then is the mount looked up.
pub open spec fn route_spec(names: Seq<Seq<char>>, path: Seq<char>, prefix: Seq<char>) -> Result<
    Option<(nat, Seq<char>, bool)>,
    FsErrorKind,
> {
    if names.len() == 1 {
        Ok(Some((0nat, path, false)))
    } else {
        match resolve_spec(path) {
            None => Ok(None),
            Some((name, p)) => if !rebuilds(prefix, p) {
                Err(FsErrorKind::GeneralFailure)
            } else if names.contains(name) {
                Ok(Some((names.index_of(name) as nat, p, true)))
            } else {
                Err(FsErrorKind::NotFound)
            },
        }
    }
}

/// A routed single path, where the root has no meaning and fails with `e`.
pub open spec fn root_fails(
    route: Result<Option<(nat, Seq<char>, bool)>, FsErrorKind>,
    e: FsErrorKind,
) -> Result<(nat, Seq<char>, bool), FsErrorKind> {
    match route {
        Err(x) => Err(x),
        Ok(None) => Err(e),
        Ok(Some(x)) => Ok(x),
    }
}

/// Where a two-path operation goes: both paths must name the same mount, and
/// both inner paths must be rebuilt before the mount is looked up.
pub open spec fn transfer_spec(
    names: Seq<Seq<char>>,
    from: Seq<char>,
    to: Seq<char>,
    prefix: Seq<char>,
) -> Result<(nat, Seq<char>, Seq<char>, bool), FsErrorKind> {
    if names.len() == 1 {
        Ok((0nat, from, to, false))
    } else {
        match (resolve_spec(from), resolve_spec(to)) {
            (Some((a, p)), Some((b, q))) => if a != b {
                Err(FsErrorKind::NotImplemented)
            } else if !rebuilds(prefix, p) || !rebuilds(prefix, q) {
                Err(FsErrorKind::GeneralFailure)
            } else if names.contains(a) {
                Ok((names.index_of(a) as nat, p, q, true))
            } else {
                Err(FsErrorKind::NotFound)
            },
            _ => Err(FsErrorKind::NotImplemented),
        }
    }
}

/// A rebuilt path may also fail to take a non-empty URL prefix, which the
/// text alone does not decide; then the operation is a general failure.
pub open spec fn prefix_refused<T>(
    r: Result<T, FsErrorKind>,
    names: Seq<Seq<char>>,
    path: Seq<char>,
    prefix: Seq<char>,
) -> bool {
    &&& prefix.len() > 0
    &&& names.len() > 1
    &&& resolve_spec(path) is Some
    &&& r == Err::<T, FsErrorKind>(FsErrorKind::GeneralFailure)
}

/// As `prefix_refused`, for a two-path operation that reached the rebuild.
pub open spec fn transfer_prefix_refused(
    r: Result<Transfer, FsErrorKind>,
    names: Seq<Seq<char>>,
    from: Seq<char>,
    to: Seq<char>,
    prefix: Seq<char>,
) -> bool {
    &&& prefix.len() > 0
    &&& names.len() > 1
    &&& resolve_spec(from) matches Some((a, _))
    &&& resolve_spec(to) matches Some((b, _))
    &&& resolve_spec(from)->Some_0.0 == resolve_spec(to)->Some_0.0
    &&& r == Err::<Transfer, FsErrorKind>(FsErrorKind::GeneralFailure)
}

/// A call to hand to mount `index`, on `path` inside it. With several mounts
/// `rebuilt` holds that path under the request's URL prefix; with one mount it
/// is `None` and the request's own path goes to the mount.
pub struct Delegation {
    pub index: usize,
    pub path: String,
    pub rebuilt: Option<DavPath>,
}

impl View for Delegation {
    type V = (nat, Seq<char>, bool);

    open spec fn view(&self) -> (nat, Seq<char>, bool) {
        (self.index as nat, self.path@, self.rebuilt is Some)
    }
}

/// A two-path call to hand to mount `index`, with both paths rebuilt where
/// there are several mounts.
pub struct Transfer {
    pub index: usize,
    pub from: String,
    pub to: String,
    pub rebuilt: Option<(DavPath, DavPath)>,
}

impl View for Transfer {
    type V = (nat, Seq<char>, Seq<char>, bool);

    open spec fn view(&self) -> (nat, Seq<char>, Seq<char>, bool) {
        (self.index as nat, self.from@, self.to@, self.rebuilt is Some)
    }
}

/// An operation is either handed to a mount or answered here with a value.
pub enum Dispatch<T> {
    Delegate(Delegation),
    Local(T),
}

pub open spec fn delegation_view(r: Result<Delegation, FsErrorKind>) -> Result<
    (nat, Seq<char>, bool),
    FsErrorKind,
> {
    match r {
        Ok(d) => Ok(d@),
        Err(e) => Err(e),
    }
}

pub open spec fn transfer_view(r: Result<Transfer, FsErrorKind>) -> Result<
    (nat, Seq<char>, Seq<char>, bool),
    FsErrorKind,
> {
    match r {
        Ok(t) => Ok(t@),
        Err(e) => Err(e),
    }
}

pub open spec fn route_view(r: Result<Option<Delegation>, FsErrorKind>) -> Result<
    Option<(nat, Seq<char>, bool)>,
    FsErrorKind,
> {
    match r {
        Ok(Some(d)) => Ok(Some(d@)),
        Ok(None) => Ok(None),
        Err(e) => Err(e),
    }
}

/// The listing of the virtual root: one directory of length 1 per mount.
pub open spec fn is_root_listing(v: Seq<FsAsDir>, names: Seq<Seq<char>>) -> bool {
    &&& v.len() == names.len()
    &&& forall|i: int| 0 <= i < v.len() ==> #[trigger] v[i]@ == (names[i], 1u64)
}

/// Several mounts behind one virtual root. The mount table is fixed once made.
pub struct MultiFs<B> {
    mounts: Vec<(String, B)>,
}

impl<B> View for MultiFs<B> {
    type V = Seq<Seq<char>>;

    closed spec fn view(&self) -> Seq<Seq<char>> {
        names_of(self.mounts@)
    }
}

impl<B> MultiFs<B> {
    /// At least one mount, and no name twice.
    pub open spec fn wf(&self) -> bool {
        self@.len() > 0 && distinct(self@)
    }

    /// The backend of mount `i`.
    pub closed spec fn backend_spec(&self, i: int) -> B {
        self.mounts@[i].1
    }

    /// The mount table of the given (name, backend) pairs.
    pub fn from_mounts(mounts: Vec<(String, B)>) -> (r: Self)
        requires
            mounts@.len() > 0,
            distinct(names_of(mounts@)),
        ensures
            r.wf(),
            r@ == names_of(mounts@),
            forall|i: int| 0 <= i < mounts@.len() ==> r.backend_spec(i) == mounts@[i].1,
    {
        MultiFs { mounts }
    }

    /// The number of mounts.
    pub fn len(&self) -> (r: usize)
        ensures
            r == self@.len(),
    {
        self.mounts.len()
    }

    /// The backend of mount `index`.
    pub fn backend(&self, index: usize) -> (r: &B)
        requires
            index < self@.len(),
        ensures
            *r == self.backend_spec(index as int),
    {
        &self.mounts[index].1
    }

    /// The index of the mount called `name`.
    pub fn get_fs(&self, name: &str) -> (r: Result<usize, FsErrorKind>)
        requires
            self.wf(),
        ensures
            match r {
                Ok(i) => i < self@.len() && self@[i as int] == name@,
                Err(e) => e == FsErrorKind::NotFound && !self@.contains(name@),
            },
    {
        let key = String::from_str(name);
        let mut i: usize = 0;
        while i < self.mounts.len()
            invariant
                i <= self.mounts@.len(),
                key@ == name@,
                forall|j: int| 0 <= j < i ==> self@[j] != name@,
            decreases self.mounts@.len() - i,
        {
            if self.mounts[i].0 == key {
                return Ok(i);
            }
            i = i + 1;
        }
        Err(FsErrorKind::NotFound)
    }

    /// The first mount, which the table always has.
    pub fn get_first_fs(&self) -> (r: usize)
        requires
            self.wf(),
        ensures
            r < self@.len(),
    {
        0
    }

    proof fn lemma_index_of(&self, i: int)
        requires
            self.wf(),
            0 <= i < self@.len(),
        ensures
            self@.contains(self@[i]),
            self@.index_of(self@[i]) == i,
    {
        assert(self@.contains(self@[i]));
    }

    /// Where `path` goes: the root (`None`), or a path inside one mount,
    /// rebuilt under the URL `prefix` where there are several mounts.
    pub fn route(&self, path: &str, prefix: &str) -> (r: Result<Option<Delegation>, FsErrorKind>)
        requires
            self.wf(),
        ensures
            route_view(r) == route_spec(self@, path@, prefix@) || prefix_refused(
                r,
                self@,
                path@,
                prefix@,
            ),
    {
        if self.mounts.len() == 1 {
            return Ok(
                Some(
                    Delegation {
                        index: self.get_first_fs(),
                        path: String::from_str(path),
                        rebuilt: None,
                    },
                ),
            );
        }
        match resolve(path) {
            ResolvedTarget::Root => Ok(None),
            ResolvedTarget::Backend { name, path: sub } => {
                let rebuilt = match rebuild_path(sub.as_str(), prefix) {
                    Ok(p) => p,
                    Err(e) => return Err(e),
                };
                match self.get_fs(name.as_str()) {
                    Ok(i) => {
                        proof {
                            self.lemma_index_of(i as int);
                        }
                        Ok(Some(Delegation { index: i, path: sub, rebuilt: Some(rebuilt) }))
                    },
                    Err(e) => Err(e),
                }
            },
        }
    }

    /// One directory entry per mount, named after it, in table order.
    pub fn root_listing(&self) -> (r: Vec<FsAsDir>)
        ensures
            is_root_listing(r@, self@),
    {
        let mut v: Vec<FsAsDir> = Vec::new();
        let mut i: usize = 0;
        while i < self.mounts.len()
            invariant
                i <= self.mounts@.len(),
                v@.len() == i,
                forall|j: int| 0 <= j < i ==> #[trigger] v@[j]@ == (self@[j], 1u64),
            decreases self.mounts@.len() - i,
        {
            let name = self.mounts[i].0.clone();
            v.push(FsAsDir::new(name));
            i = i + 1;
        }
        v
    }

    /// Opening goes to a mount; the root has nothing to open.
    pub fn open(&self, path: &str, prefix: &str) -> (r: Result<Delegation, FsErrorKind>)
        requires
            self.wf(),
        ensures
            delegation_view(r) == root_fails(route_spec(self@, path@, prefix@), FsErrorKind::NotFound)
                || prefix_refused(r, self@, path@, prefix@),
    {
        match self.route(path, prefix) {
            Ok(Some(d)) => Ok(d),
            Ok(None) => Err(FsErrorKind::NotFound),
            Err(e) => Err(e),
        }
    }

    /// Listing goes to a mount; at the root it lists the mounts.
    pub fn read_dir(&self, path: &str, prefix: &str) -> (r: Result<Dispatch<Vec<FsAsDir>>, FsErrorKind>)
        requires
            self.wf(),
        ensures
            match route_spec(self@, path@, prefix@) {
                Err(e) => r == Err::<Dispatch<Vec<FsAsDir>>, FsErrorKind>(e),
                Ok(None) => r matches Ok(Dispatch::Local(v)) && is_root_listing(v@, self@),
                Ok(Some(x)) => r matches Ok(Dispatch::Delegate(d)) && d@ == x,
            } || prefix_refused(r, self@, path@, prefix@),
    {
        match self.route(path, prefix) {
            Ok(Some(d)) => Ok(Dispatch::Delegate(d)),
            Ok(None) => Ok(Dispatch::Local(self.root_listing())),
            Err(e) => Err(e),
        }
    }

    fn meta_at(&self, path: &str, prefix: &str) -> (r: Result<Dispatch<FsMeta>, FsErrorKind>)
        requires
            self.wf(),
        ensures
            match route_spec(self@, path@, prefix@) {
                Err(e) => r == Err::<Dispatch<FsMeta>, FsErrorKind>(e),
                Ok(None) => r matches Ok(Dispatch::Local(m)) && m@ == 1,
                Ok(Some(x)) => r matches Ok(Dispatch::Delegate(d)) && d@ == x,
            } || prefix_refused(r, self@, path@, prefix@),
    {
        match self.route(path, prefix) {
            Ok(Some(d)) => Ok(Dispatch::Delegate(d)),
            Ok(None) => Ok(Dispatch::Local(FsMeta::default())),
            Err(e) => Err(e),
        }
    }

    /// Metadata goes to a mount; the root is a directory of length 1.
    pub fn metadata(&self, path: &str, prefix: &str) -> (r: Result<Dispatch<FsMeta>, FsErrorKind>)
        requires
            self.wf(),
        ensures
            match route_spec(self@, path@, prefix@) {
                Err(e) => r == Err::<Dispatch<FsMeta>, FsErrorKind>(e),
                Ok(None) => r matches Ok(Dispatch::Local(m)) && m@ == 1,
                Ok(Some(x)) => r matches Ok(Dispatch::Delegate(d)) && d@ == x,
            } || prefix_refused(r, self@, path@, prefix@),
    {
        self.meta_at(path, prefix)
    }

    /// As `metadata`, for the link itself.
    pub fn symlink_metadata(&self, path: &str, prefix: &str) -> (r: Result<Dispatch<FsMeta>, FsErrorKind>)
        requires
            self.wf(),
        ensures
            match route_spec(self@, path@, prefix@) {
                Err(e) => r == Err::<Dispatch<FsMeta>, FsErrorKind>(e),
                Ok(None) => r matches Ok(Dispatch::Local(m)) && m@ == 1,
                Ok(Some(x)) => r matches Ok(Dispatch::Delegate(d)) && d@ == x,
            } || prefix_refused(r, self@, path@, prefix@),
    {
        self.meta_at(path, prefix)
    }

    fn change_at(&self, path: &str, prefix: &str) -> (r: Result<Delegation, FsErrorKind>)
        requires
            self.wf(),
        ensures
            delegation_view(r) == root_fails(route_spec(self@, path@, prefix@), FsErrorKind::Forbidden)
                || prefix_refused(r, self@, path@, prefix@),
    {
        match self.route(path, prefix) {
            Ok(Some(d)) => Ok(d),
            Ok(None) => Err(FsErrorKind::Forbidden),
            Err(e) => Err(e),
        }
    }

    /// Creating a directory goes to a mount; the root cannot change.
    pub fn create_dir(&self, path: &str, prefix: &str) -> (r: Result<Delegation, FsErrorKind>)
        requires
            self.wf(),
        ensures
            delegation_view(r) == root_fails(route_spec(self@, path@, prefix@), FsErrorKind::Forbidden)
                || prefix_refused(r, self@, path@, prefix@),
    {
        self.change_at(path, prefix)
    }

    /// Removing a directory goes to a mount; the root cannot change.
    pub fn remove_dir(&self, path: &str, prefix: &str) -> (r: Result<Delegation, FsErrorKind>)
        requires
            self.wf(),
        ensures
            delegation_view(r) == root_fails(route_spec(self@, path@, prefix@), FsErrorKind::Forbidden)
                || prefix_refused(r, self@, path@, prefix@),
    {
        self.change_at(path, prefix)
    }

    /// Removing a file goes to a mount; the root cannot change.
    pub fn remove_file(&self, path: &str, prefix: &str) -> (r: Result<Delegation, FsErrorKind>)
        requires
            self.wf(),
        ensures
            delegation_view(r) == root_fails(route_spec(self@, path@, prefix@), FsErrorKind::Forbidden)
                || prefix_refused(r, self@, path@, prefix@),
    {
        self.change_at(path, prefix)
    }

    fn transfer(&self, from: &str, to: &str, prefix: &str) -> (r: Result<Transfer, FsErrorKind>)
        requires
            self.wf(),
        ensures
            transfer_view(r) == transfer_spec(self@, from@, to@, prefix@)
                || transfer_prefix_refused(r, self@, from@, to@, prefix@),
    {
        if self.mounts.len() == 1 {
            return Ok(
                Transfer {
                    index: self.get_first_fs(),
                    from: String::from_str(from),
                    to: String::from_str(to),
                    rebuilt: None,
                },
            );
        }
        match (resolve(from), resolve(to)) {
            (
                ResolvedTarget::Backend { name: a, path: p },
                ResolvedTarget::Backend { name: b, path: q },
            ) => {
                if a != b {
                    return Err(FsErrorKind::NotImplemented);
                }
                let rp = rebuild_path(p.as_str(), prefix);
                let rq = rebuild_path(q.as_str(), prefix);
                let (pp, qq) = match (rp, rq) {
                    (Ok(pp), Ok(qq)) => (pp, qq),
                    _ => return Err(FsErrorKind::GeneralFailure),
                };
                match self.get_fs(a.as_str()) {
                    Ok(i) => {
                        proof {
                            self.lemma_index_of(i as int);
                        }
                        Ok(Transfer { index: i, from: p, to: q, rebuilt: Some((pp, qq)) })
                    },
                    Err(e) => Err(e),
                }
            },
            _ => Err(FsErrorKind::NotImplemented),
        }
    }

    /// Renaming stays inside one mount: both paths must name it.
    pub fn rename(&self, from: &str, to: &str, prefix: &str) -> (r: Result<Transfer, FsErrorKind>)
        requires
            self.wf(),
        ensures
            transfer_view(r) == transfer_spec(self@, from@, to@, prefix@)
                || transfer_prefix_refused(r, self@, from@, to@, prefix@),
    {
        self.transfer(from, to, prefix)
    }

    /// Copying stays inside one mount: both paths must name it.
    pub fn copy(&self, from: &str, to: &str, prefix: &str) -> (r: Result<Transfer, FsErrorKind>)
        requires
            self.wf(),
        ensures
            transfer_view(r) == transfer_spec(self@, from@, to@, prefix@)
                || transfer_prefix_refused(r, self@, from@, to@, prefix@),
    {
        self.transfer(from, to, prefix)
    }
}

#[verifier::external_type_specification]
#[verifier::external_body]
pub struct ExLocalFs(LocalFs);

/// Relies on `LocalFs::new`: a backend that serves the directory `path`,
/// with private modes on what it creates and case-sensitive lookups. It only
/// records its arguments.
#[verifier::external_body]
fn local_fs(path: &str) -> (r: Box<LocalFs>) {
    LocalFs::new(path, false, false, false)
}

/// The mount names of a configured mount list, in order.
pub open spec fn dir_names(dirs: Seq<DavDirConfig>) -> Seq<Seq<char>> {
    Seq::new(dirs.len(), |i: int| dirs[i].name@)
}

impl MultiFs<Box<LocalFs>> {
    /// One mount per configured directory, under its configured name.
    pub fn new(dirs: Vec<DavDirConfig>) -> (r: Self)
        requires
            dirs@.len() > 0,
            distinct(dir_names(dirs@)),
        ensures
            r.wf(),
            r@ == dir_names(dirs@),
    {
        let mut mounts: Vec<(String, Box<LocalFs>)> = Vec::new();
        let mut i: usize = 0;
        while i < dirs.len()
            invariant
                i <= dirs@.len(),
                mounts@.len() == i,
                forall|j: int| 0 <= j < i ==> #[trigger] mounts@[j].0@ == dirs@[j].name@,
            decreases dirs@.len() - i,
        {
            let backend = local_fs(dirs[i].path.as_str());
            mounts.push((dirs[i].name.clone(), backend));
            i = i + 1;
        }
        assert(names_of(mounts@) =~= dir_names(dirs@));
        MultiFs::from_mounts(mounts)
    }
}

/// With a single mount, every path, and every pair of paths, goes to that
/// mount unchanged, whatever the path holds.
pub proof fn law_single_mount_forwards_unchanged(
    names: Seq<Seq<char>>,
    path: Seq<char>,
    to: Seq<char>,
    prefix: Seq<char>,
)
    requires
        names.len() == 1,
    ensures
        route_spec(names, path, prefix) == Ok::<Option<(nat, Seq<char>, bool)>, FsErrorKind>(
            Some((0nat, path, false)),
        ),
        transfer_spec(names, path, to, prefix) == Ok::<
            (nat, Seq<char>, Seq<char>, bool),
            FsErrorKind,
        >((0nat, path, to, false)),
{
}

/// With several mounts, a name that no mount has resolves like any other and
/// fails with `NotFound` only when the mount is looked up, after its inner
/// path has been rebuilt.
pub proof fn law_unknown_mount_fails_at_lookup(
    names: Seq<Seq<char>>,
    path: Seq<char>,
    prefix: Seq<char>,
)
    requires
        names.len() > 1,
        resolve_spec(path) matches Some((n, p)) && !names.contains(n) && rebuilds(prefix, p),
    ensures
        route_spec(names, path, prefix) == Err::<Option<(nat, Seq<char>, bool)>, FsErrorKind>(
            FsErrorKind::NotFound,
        ),
{
}

/// With several mounts, creating or removing anything at the virtual root
/// fails with `Forbidden`.
pub proof fn law_root_is_immutable(names: Seq<Seq<char>>, path: Seq<char>, prefix: Seq<char>)
    requires
        names.len() > 1,
        resolve_spec(path) is None,
    ensures
        root_fails(route_spec(names, path, prefix), FsErrorKind::Forbidden) == Err::<
            (nat, Seq<char>, bool),
            FsErrorKind,
        >(FsErrorKind::Forbidden),
{
}

/// With several mounts, renaming or copying between two different mounts, or
/// from or to the root, fails with `NotImplemented`; within one known mount,
/// where both inner paths rebuild, it goes to that mount with both inner paths.
pub proof fn law_transfer_stays_in_one_mount(
    names: Seq<Seq<char>>,
    from: Seq<char>,
    to: Seq<char>,
    prefix: Seq<char>,
)
    requires
        names.len() > 1,
        distinct(names),
    ensures
        match (resolve_spec(from), resolve_spec(to)) {
            (Some((a, p)), Some((b, q))) => if a != b {
                transfer_spec(names, from, to, prefix) == Err::<
                    (nat, Seq<char>, Seq<char>, bool),
                    FsErrorKind,
                >(FsErrorKind::NotImplemented)
            } else {
                forall|i: int|
                    0 <= i < names.len() && names[i] == a && rebuilds(prefix, p) && rebuilds(
                        prefix,
                        q,
                    ) ==> transfer_spec(names, from, to, prefix) == Ok::<
                        (nat, Seq<char>, Seq<char>, bool),
                        FsErrorKind,
                    >((i as nat, p, q, true))
            },
            _ => transfer_spec(names, from, to, prefix) == Err::<
                (nat, Seq<char>, Seq<char>, bool),
                FsErrorKind,
            >(FsErrorKind::NotImplemented),
        },
{
    match (resolve_spec(from), resolve_spec(to)) {
        (Some((a, p)), Some((b, q))) => {
            if a == b {
                assert forall|i: int|
                    0 <= i < names.len() && names[i] == a && rebuilds(prefix, p) && rebuilds(
                        prefix,
                        q,
                    ) implies transfer_spec(names, from, to, prefix) == Ok::<
                    (nat, Seq<char>, Seq<char>, bool),
                    FsErrorKind,
                >((i as nat, p, q, true)) by {
                    assert(names.contains(a));
                }
            }
        },
        _ => {},
    }
}

} // verus!
