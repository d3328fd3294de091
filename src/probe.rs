use vstd::prelude::*;
use crate::error::ApplyError;

verus! {

/// What the permission prober reported about one existing path.
#[derive(Clone, Copy, Debug, PartialEq, Eq, Structural)]
pub struct PathInfo {
    pub is_dir: bool,
    pub readable: bool,
    pub writable: bool,
    pub executable: bool,
}

/// The existing paths that were probed, each with what was found. A path
/// that is not listed does not exist.
#[derive(Debug)]
pub struct FsView {
    entries: Vec<(String, PathInfo)>,
}

spec fn entry_for(entries: Seq<(String, PathInfo)>, p: Seq<char>) -> Option<PathInfo>
    decreases entries.len(),
{
    if entries.len() == 0 {
        None
    } else if entries.last().0@ == p {
        Some(entries.last().1)
    } else {
        entry_for(entries.drop_last(), p)
    }
}

impl View for FsView {
    type V = Map<Seq<char>, PathInfo>;

    closed spec fn view(&self) -> Map<Seq<char>, PathInfo> {
        Map::new(
            |p: Seq<char>| entry_for(self.entries@, p) is Some,
            |p: Seq<char>| entry_for(self.entries@, p)->0,
        )
    }
}

impl FsView {
    /// A view in which no path exists.
    pub fn new() -> (r: FsView)
        ensures
            r@ == Map::<Seq<char>, PathInfo>::empty(),
    {
        let r = FsView { entries: Vec::new() };
        assert(r@ =~= Map::<Seq<char>, PathInfo>::empty());
        r
    }

    /// Records that `path` exists with the given facts.
    pub fn insert(&mut self, path: String, info: PathInfo)
        ensures
            final(self)@ == old(self)@.insert(path@, info),
    {
        let ghost before = self.entries@;
        self.entries.push((path, info));
        proof {
            assert(self.entries@.drop_last() =~= before);
            assert forall|p: Seq<char>|
                entry_for(self.entries@, p) == if p == path@ {
                    Some(info)
                } else {
                    entry_for(before, p)
                } by {}
            assert(self@ =~= old(self)@.insert(path@, info));
        }
    }

    /// The facts recorded for `path`; `None` when it does not exist.
    pub fn info(&self, path: &str) -> (r: Option<PathInfo>)
        ensures
            r == info_of(self@, path@),
    {
        let k = path.to_owned();
        let mut i = self.entries.len();
        assert(self.entries@.subrange(0, i as int) =~= self.entries@);
        while i > 0
            invariant
                i <= self.entries.len(),
                k@ == path@,
                entry_for(self.entries@, path@) == entry_for(
                    self.entries@.subrange(0, i as int),
                    path@,
                ),
            decreases i,
        {
            i = i - 1;
            proof {
                assert(self.entries@.subrange(0, i + 1).drop_last() =~= self.entries@.subrange(
                    0,
                    i as int,
                ));
            }
            if self.entries[i].0 == k {
                return Some(self.entries[i].1);
            }
        }
        assert(self.entries@.subrange(0, 0).len() == 0);
        None
    }
}

/// The facts for `p`, or `None` when `p` does not exist.
pub open spec fn info_of(fs: Map<Seq<char>, PathInfo>, p: Seq<char>) -> Option<PathInfo> {
    if fs.contains_key(p) {
        Some(fs[p])
    } else {
        None
    }
}

/// `p` without its final component; `None` for a root, a prefix or the empty path.
pub uninterp spec fn parent_of(p: Seq<char>) -> Option<Seq<char>>;

/// Relies on `std::path::Path::parent`: the path without its final
/// component, which is shorter than the path, or `None` when it has none.
#[verifier::external_body]
pub(crate) fn parent(p: &str) -> (r: Option<String>)
    ensures
        match r {
            Some(q) => parent_of(p@) == Some(q@) && q@.len() < p@.len(),
            None => parent_of(p@) is None,
        },
{
    match std::path::Path::new(p).parent() {
        Some(q) => Some(q.to_string_lossy().into_owned()),
        None => None,
    }
}

/// Why a permission check fails, with the path it names.
#[derive(Clone, Copy, Debug, PartialEq, Eq, Structural)]
pub enum Denial {
    /// The path exists and the access is not granted.
    Denied,
    /// The path does not exist.
    Missing,
    /// The path is a directory where a file is needed.
    NotAFile,
    /// No existing directory was found to check.
    NoPath,
}

/// Outcome of a check, stated over the model.
pub type Verdict = Result<(), (Denial, Seq<char>)>;

/// Whether `r` is the error (or success) that `v` describes.
pub open spec fn reports(r: Result<(), ApplyError>, v: Verdict) -> bool {
    match v {
        Ok(()) => r is Ok,
        Err((Denial::Denied, p)) => r matches Err(ApplyError::InsufficientPrivileges(m)) && m@ == p,
        Err((Denial::Missing, p)) => r matches Err(ApplyError::PathNotFound(m)) && m@ == p,
        Err((Denial::NotAFile, p)) => r matches Err(ApplyError::NotAFile(m)) && m@ == p,
        Err((Denial::NoPath, _)) => r matches Err(ApplyError::PathNotFound0),
    }
}

/// The working directory, as it is probed.
pub open spec fn here() -> Seq<char> {
    seq!['.']
}

/// A granted access gives `Ok`; a refused one names `p`.
pub open spec fn grant(ok: bool, p: Seq<char>) -> Verdict {
    if ok {
        Ok(())
    } else {
        Err((Denial::Denied, p))
    }
}

/// Entries may be created in the working directory.
pub open spec fn here_creatable(fs: Map<Seq<char>, PathInfo>) -> Verdict {
    match info_of(fs, here()) {
        Some(i) => grant(i.executable, here()),
        None => Err((Denial::NoPath, here())),
    }
}

/// `dir` exists and may be entered, or else it could be created under its
/// nearest existing ancestor. (A parent is always shorter than its child, so
/// the last branch never applies; it only makes the walk visibly finite.)
pub open spec fn dir_creatable(fs: Map<Seq<char>, PathInfo>, dir: Seq<char>) -> Verdict
    decreases dir.len(),
{
    match info_of(fs, dir) {
        Some(i) => grant(i.executable, dir),
        None => match parent_of(dir) {
            None => here_creatable(fs),
            Some(q) => if q.len() < dir.len() {
                dir_creatable(fs, q)
            } else {
                Err((Denial::NoPath, dir))
            },
        },
    }
}

/// The directory that holds `child` could be created.
pub open spec fn parent_creatable(fs: Map<Seq<char>, PathInfo>, child: Seq<char>) -> Verdict {
    match parent_of(child) {
        None => here_creatable(fs),
        Some(q) => dir_creatable(fs, q),
    }
}

/// `dir` may be written to, or else it could be created.
pub open spec fn dir_writable(fs: Map<Seq<char>, PathInfo>, dir: Seq<char>) -> Verdict {
    match info_of(fs, dir) {
        Some(i) => grant(i.writable, dir),
        None => parent_creatable(fs, dir),
    }
}

/// The directory that would hold `path` may be written to.
pub open spec fn parent_writable(fs: Map<Seq<char>, PathInfo>, path: Seq<char>) -> Verdict {
    match parent_of(path) {
        Some(d) => dir_writable(fs, d),
        None => match info_of(fs, here()) {
            Some(i) => grant(i.writable, here()),
            None => Err((Denial::NoPath, here())),
        },
    }
}

/// `path` may be written: it exists and is writable, or it could be created.
pub open spec fn file_writable(fs: Map<Seq<char>, PathInfo>, path: Seq<char>) -> Verdict {
    match info_of(fs, path) {
        Some(i) => grant(i.writable, path),
        None => parent_writable(fs, path),
    }
}

/// `path` is an existing file for which `access` says the access is granted.
pub open spec fn file_usable(fs: Map<Seq<char>, PathInfo>, path: Seq<char>, access: bool) -> Verdict {
    match info_of(fs, path) {
        None => Err((Denial::Missing, path)),
        Some(i) => if i.is_dir {
            Err((Denial::NotAFile, path))
        } else {
            grant(access, path)
        },
    }
}

fn here_path() -> (r: String)
    ensures
        r@ == here(),
{
    proof { reveal_strlit("."); }
    let r = ".".to_owned();
    assert(r@ =~= here());
    r
}

fn deny(d: Denial, p: &str) -> (r: ApplyError)
    ensures
        reports(Err(r), Err((d, p@))),
{
    match d {
        Denial::Denied => ApplyError::InsufficientPrivileges(p.to_owned()),
        Denial::Missing => ApplyError::PathNotFound(p.to_owned()),
        Denial::NotAFile => ApplyError::NotAFile(p.to_owned()),
        Denial::NoPath => ApplyError::PathNotFound0,
    }
}

fn check_grant(ok: bool, p: &str) -> (r: Result<(), ApplyError>)
    ensures
        reports(r, grant(ok, p@)),
{
    if ok {
        Ok(())
    } else {
        Err(deny(Denial::Denied, p))
    }
}

fn can_create_here(fs: &FsView) -> (r: Result<(), ApplyError>)
    ensures
        reports(r, here_creatable(fs@)),
{
    let h = here_path();
    match fs.info(h.as_str()) {
        Some(i) => check_grant(i.executable, h.as_str()),
        None => Err(ApplyError::PathNotFound0),
    }
}

/// Checks that `dir` exists and may be entered, or else that it could be
/// created under its nearest existing ancestor.
pub fn can_create_dir(fs: &FsView, dir: &str) -> (r: Result<(), ApplyError>)
    ensures
        reports(r, dir_creatable(fs@, dir@)),
    decreases dir@.len(),
{
    match fs.info(dir) {
        Some(i) => check_grant(i.executable, dir),
        None => match parent(dir) {
            None => can_create_here(fs),
            Some(q) => can_create_dir(fs, q.as_str()),
        },
    }
}

/// Checks that the directory holding `child` could be created.
pub fn can_create_parent_dir(fs: &FsView, child: &str) -> (r: Result<(), ApplyError>)
    ensures
        reports(r, parent_creatable(fs@, child@)),
{
    match parent(child) {
        None => can_create_here(fs),
        Some(q) => can_create_dir(fs, q.as_str()),
    }
}

/// `can_create_dir` on a directory that may be absent.
pub fn can_create_dir_maybe(fs: &FsView, maybe_dir: Option<&str>) -> (r: Result<(), ApplyError>)
    ensures
        match maybe_dir {
            Some(d) => reports(r, dir_creatable(fs@, d@)),
            None => r matches Err(ApplyError::PathNotFound0),
        },
{
    match maybe_dir {
        Some(d) => can_create_dir(fs, d),
        None => Err(ApplyError::PathNotFound0),
    }
}

/// Checks that `dir` may be written to, or else that it could be created.
pub fn can_write_dir(fs: &FsView, dir: &str) -> (r: Result<(), ApplyError>)
    ensures
        reports(r, dir_writable(fs@, dir@)),
{
    match fs.info(dir) {
        Some(i) => check_grant(i.writable, dir),
        None => can_create_parent_dir(fs, dir),
    }
}

/// `can_write_dir` on a directory that may be absent.
pub fn can_write_dir_maybe(fs: &FsView, maybe_dir: Option<&str>) -> (r: Result<(), ApplyError>)
    ensures
        match maybe_dir {
            Some(d) => reports(r, dir_writable(fs@, d@)),
            None => r matches Err(ApplyError::PathNotFound0),
        },
{
    match maybe_dir {
        Some(d) => can_write_dir(fs, d),
        None => Err(ApplyError::PathNotFound0),
    }
}

/// Checks that the directory that would hold `path` may be written to.
pub fn can_write_to_parent_dir(fs: &FsView, path: &str) -> (r: Result<(), ApplyError>)
    ensures
        reports(r, parent_writable(fs@, path@)),
{
    match parent(path) {
        Some(d) => can_write_dir(fs, d.as_str()),
        None => {
            let h = here_path();
            match fs.info(h.as_str()) {
                Some(i) => check_grant(i.writable, h.as_str()),
                None => Err(ApplyError::PathNotFound0),
            }
        },
    }
}

/// Checks that `path` may be written: it exists and is writable, or it
/// could be created.
pub fn can_write_file(fs: &FsView, path: &str) -> (r: Result<(), ApplyError>)
    ensures
        reports(r, file_writable(fs@, path@)),
{
    match fs.info(path) {
        Some(i) => check_grant(i.writable, path),
        None => can_write_to_parent_dir(fs, path),
    }
}

/// Checks that `path` is an existing file that may be executed.
pub fn can_execute(fs: &FsView, path: &str) -> (r: Result<(), ApplyError>)
    ensures
        reports(r, file_usable(fs@, path@, info_of(fs@, path@) matches Some(i) && i.executable)),
{
    match fs.info(path) {
        None => Err(deny(Denial::Missing, path)),
        Some(i) => if i.is_dir {
            Err(deny(Denial::NotAFile, path))
        } else {
            check_grant(i.executable, path)
        },
    }
}

/// Checks that `path` is an existing file that may be read.
pub fn can_read_file(fs: &FsView, path: &str) -> (r: Result<(), ApplyError>)
    ensures
        reports(r, file_usable(fs@, path@, info_of(fs@, path@) matches Some(i) && i.readable)),
{
    match fs.info(path) {
        None => Err(deny(Denial::Missing, path)),
        Some(i) => if i.is_dir {
            Err(deny(Denial::NotAFile, path))
        } else {
            check_grant(i.readable, path)
        },
    }
}

/// The paths whose facts the checks above may consult for `path`: the path
/// itself, each of its ancestors, and the working directory.
pub fn probe_paths(path: &str) -> (r: Vec<String>)
    ensures
        r@.len() >= 2,
        r@[0]@ == path@,
        r@.last()@ == here(),
        forall|i: int|
            0 <= i < r@.len() - 2 ==> parent_of(#[trigger] r@[i]@) == Some(r@[i + 1]@),
        parent_of(r@[r@.len() - 2]@) is None,
    decreases path@.len(),
{
    let mut out: Vec<String> = Vec::new();
    out.push(path.to_owned());
    match parent(path) {
        None => {
            out.push(here_path());
            out
        },
        Some(q) => {
            let rest = probe_paths(q.as_str());
            let mut i: usize = 0;
            while i < rest.len()
                invariant
                    i <= rest.len(),
                    out@.len() == i + 1,
                    out@[0]@ == path@,
                    forall|j: int| 0 <= j < i ==> out@[j + 1] == rest@[j],
                decreases rest.len() - i,
            {
                out.push(rest[i].clone());
                i = i + 1;
            }
            assert forall|j: int| 0 <= j < out@.len() - 2 implies parent_of(
                #[trigger] out@[j]@,
            ) == Some(out@[j + 1]@) by {
                if j > 0 {
                    assert(out@[j] == rest@[j - 1]);
                }
            }
            out
        },
    }
}

} // verus!
