use vstd::prelude::*;
use crate::error::ApplyError;
use crate::files::{DestFile, GenFile, Mode};
use crate::probe::{
    can_create_parent_dir, can_write_file, file_writable, parent, parent_creatable, parent_of,
    reports, FsView, PathInfo, Verdict,
};

verus! {

/// What the comparison tool printed about a change.
#[derive(Debug, PartialEq, Eq)]
pub enum DiffText {
    /// The tool's output, byte for byte.
    Text(Vec<u8>),
    /// The destination cannot be compared.
    Unsupported,
}

/// How a candidate file compares to its destination.
#[derive(Debug, PartialEq, Eq)]
pub enum DiffStatus {
    NoChanges,
    NewFile,
    Changed(DiffText),
    Unsupported,
    Failed,
}

/// Classifies one comparison from what was observed: whether the destination
/// exists, whether it is a regular file, and, when it is, how the comparison
/// tool exited and what it printed. Exit code 0 means identical, 1 means
/// different; anything else, or no exit code, is a failure.
pub fn diff_status(dest_exists: bool, dest_is_file: bool, exit_code: Option<i32>, output: Vec<u8>) -> (r: DiffStatus)
    ensures
        !dest_exists ==> r is NewFile,
        dest_exists && !dest_is_file ==> r is Unsupported,
        dest_exists && dest_is_file ==> match exit_code {
            Some(0) => r is NoChanges,
            Some(1) => r matches DiffStatus::Changed(DiffText::Text(t)) && t@ == output@,
            _ => r is Failed,
        },
{
    if !dest_exists {
        DiffStatus::NewFile
    } else if !dest_is_file {
        DiffStatus::Unsupported
    } else {
        match exit_code {
            Some(0) => DiffStatus::NoChanges,
            Some(1) => DiffStatus::Changed(DiffText::Text(output)),
            _ => DiffStatus::Failed,
        }
    }
}

/// What is to be done about a missing directory.
#[derive(Debug, PartialEq, Eq)]
pub enum DirPlan {
    /// The directory exists.
    Ready,
    /// Create this directory and its missing ancestors.
    Make(String),
    /// Ask the operator whether to create this directory.
    Ask(String),
    /// Passive: it was checked that the directory could be created.
    Checked,
}

/// The next step of a file materialization.
#[derive(Debug, PartialEq, Eq)]
pub enum FilePlan {
    /// The destination already matches: report that nothing changes.
    NoChange,
    /// Passive, new file: report that it would be created.
    WouldCreate,
    /// Report that the destination would be updated, with this difference.
    ShowDiff(DiffText),
    /// Create the directory, when one is given, then copy the candidate over
    /// the destination.
    Copy(Option<String>),
    /// Copy with the operator confirming any overwrite.
    CopyInteractive,
    /// Ask the operator what to do about this difference.
    Ask(DiffText),
    /// The operator chose to leave the destination as it is.
    Skip,
    /// Open the merge tool on the candidate and the destination.
    Merge,
    /// Open the merge tool on the destination and the template.
    MergeIntoTemplate,
}

/// Whether carrying out `p` may change the destination.
pub open spec fn writes_destination(p: FilePlan) -> bool {
    p is Copy || p is CopyInteractive || p is Merge
}

/// The check part of a result: `Ok` whatever the plan.
pub open spec fn checked<T>(r: Result<T, ApplyError>) -> Result<(), ApplyError> {
    match r {
        Ok(_) => Ok(()),
        Err(e) => Err(e),
    }
}

/// The plan for a missing directory `dir` under `mode`.
pub open spec fn dir_planned(mode: Mode, fs: Map<Seq<char>, PathInfo>, dir: Seq<char>, r: Result<DirPlan, ApplyError>) -> bool {
    if fs.contains_key(dir) {
        r == Ok::<DirPlan, ApplyError>(DirPlan::Ready)
    } else {
        match mode {
            Mode::Passive => reports(checked(r), parent_creatable(fs, dir)) && (r is Ok ==> r
                == Ok::<DirPlan, ApplyError>(DirPlan::Checked)),
            Mode::Active => r matches Ok(DirPlan::Make(d)) && d@ == dir,
            Mode::Interactive => r matches Ok(DirPlan::Ask(d)) && d@ == dir,
        }
    }
}

/// Decides how to make sure that `dir` exists: nothing when it does;
/// otherwise passive only checks that it could be created, active creates
/// it, interactive asks first.
pub fn create_dir(mode: Mode, fs: &FsView, dir: &str) -> (r: Result<DirPlan, ApplyError>)
    ensures
        dir_planned(mode, fs@, dir@, r),
{
    if fs.info(dir).is_some() {
        return Ok(DirPlan::Ready);
    }
    match mode {
        Mode::Passive => match can_create_parent_dir(fs, dir) {
            Ok(()) => Ok(DirPlan::Checked),
            Err(e) => Err(e),
        },
        Mode::Active => Ok(DirPlan::Make(dir.to_owned())),
        Mode::Interactive => Ok(DirPlan::Ask(dir.to_owned())),
    }
}

/// Acts on the operator's answer about creating `dir`: `y` creates it, `n`
/// only checks that it could be created, anything else asks again.
pub fn create_dir_answer(answer: char, fs: &FsView, dir: &str) -> (r: Result<DirPlan, ApplyError>)
    ensures
        answer == 'y' ==> (r matches Ok(DirPlan::Make(d)) && d@ == dir@),
        answer == 'n' ==> reports(checked(r), parent_creatable(fs@, dir@)) && (r is Ok ==> r
            == Ok::<DirPlan, ApplyError>(DirPlan::Checked)),
        answer != 'y' && answer != 'n' ==> (r matches Ok(DirPlan::Ask(d)) && d@ == dir@),
{
    if answer == 'y' {
        Ok(DirPlan::Make(dir.to_owned()))
    } else if answer == 'n' {
        match can_create_parent_dir(fs, dir) {
            Ok(()) => Ok(DirPlan::Checked),
            Err(e) => Err(e),
        }
    } else {
        Ok(DirPlan::Ask(dir.to_owned()))
    }
}

/// `create_dir` on a directory that may be absent.
pub fn create_dir_maybe(mode: Mode, fs: &FsView, maybe_dir: Option<&str>) -> (r: Result<DirPlan, ApplyError>)
    ensures
        match maybe_dir {
            Some(d) => dir_planned(mode, fs@, d@, r),
            None => r matches Err(ApplyError::PathNotFound0),
        },
{
    match maybe_dir {
        Some(d) => create_dir(mode, fs, d),
        None => Err(ApplyError::PathNotFound0),
    }
}

/// Decides how to make sure that the directory holding `child` exists; a
/// path without a parent is refused.
pub fn create_parent_dir(mode: Mode, fs: &FsView, child: &str) -> (r: Result<DirPlan, ApplyError>)
    ensures
        match parent_of(child@) {
            None => r matches Err(ApplyError::InsufficientPrivileges(m)) && m@ == child@,
            Some(d) => dir_planned(mode, fs@, d, r),
        },
{
    match parent(child) {
        Some(d) => create_dir(mode, fs, d.as_str()),
        None => Err(ApplyError::InsufficientPrivileges(child.to_owned())),
    }
}

/// The copy plan for `dest`: its directory made first when it is missing.
pub open spec fn copy_planned(fs: Map<Seq<char>, PathInfo>, dest: Seq<char>, r: Result<FilePlan, ApplyError>) -> bool {
    match parent_of(dest) {
        None => r matches Err(ApplyError::InsufficientPrivileges(m)) && m@ == dest,
        Some(d) => if fs.contains_key(d) {
            r == Ok::<FilePlan, ApplyError>(FilePlan::Copy(None))
        } else {
            r matches Ok(FilePlan::Copy(Some(x))) && x@ == d
        },
    }
}

fn copy_active(fs: &FsView, dest: &DestFile) -> (r: Result<FilePlan, ApplyError>)
    ensures
        copy_planned(fs@, dest.spec_path(), r),
{
    let d = dest.path();
    match create_parent_dir(Mode::Active, fs, d.as_str()) {
        Ok(DirPlan::Make(dir)) => Ok(FilePlan::Copy(Some(dir))),
        Ok(_) => Ok(FilePlan::Copy(None)),
        Err(e) => Err(e),
    }
}

/// Both the destination's and the candidate's directories could be created.
pub open spec fn both_creatable(fs: Map<Seq<char>, PathInfo>, dest: Seq<char>, gen: Seq<char>) -> Verdict {
    match parent_creatable(fs, dest) {
        Err(v) => Err(v),
        Ok(()) => parent_creatable(fs, gen),
    }
}

fn create_passive(fs: &FsView, gen: &GenFile, dest: &DestFile) -> (r: Result<FilePlan, ApplyError>)
    ensures
        reports(checked(r), both_creatable(fs@, dest.spec_path(), gen.spec_path())),
        r is Ok ==> r == Ok::<FilePlan, ApplyError>(FilePlan::WouldCreate),
{
    let d = dest.path();
    match can_create_parent_dir(fs, d.as_str()) {
        Err(e) => return Err(e),
        Ok(()) => {},
    }
    let g = gen.path();
    match can_create_parent_dir(fs, g.as_str()) {
        Err(e) => Err(e),
        Ok(()) => Ok(FilePlan::WouldCreate),
    }
}

/// The plan for a destination that differs from the candidate by `text`.
pub open spec fn change_planned(mode: Mode, fs: Map<Seq<char>, PathInfo>, dest: Seq<char>, text: DiffText, r: Result<FilePlan, ApplyError>) -> bool {
    match mode {
        Mode::Passive => r == Ok::<FilePlan, ApplyError>(FilePlan::ShowDiff(text)),
        Mode::Active => copy_planned(fs, dest, r),
        Mode::Interactive => r == Ok::<FilePlan, ApplyError>(FilePlan::Ask(text)),
    }
}

/// Decides what to do with a generated candidate, given how it compares to
/// the destination: the destination must be writable; no change needs
/// nothing; a failed comparison fails; a new file is checked (passive),
/// copied with its directory made (active) or copied with confirmation
/// (interactive); a change is shown (passive), copied (active) or put to the
/// operator (interactive). Passive never plans a write.
pub fn update_from_template(mode: Mode, fs: &FsView, status: DiffStatus, gen: &GenFile, dest: &DestFile) -> (r: Result<FilePlan, ApplyError>)
    ensures
        match file_writable(fs@, dest.spec_path()) {
            Err(v) => reports(checked(r), Err(v)),
            Ok(()) => match status {
                DiffStatus::NoChanges => r == Ok::<FilePlan, ApplyError>(FilePlan::NoChange),
                DiffStatus::Failed => r matches Err(ApplyError::DiffFailed(m)) && m@ == dest.spec_path(),
                DiffStatus::NewFile => match mode {
                    Mode::Passive => reports(checked(r), both_creatable(fs@, dest.spec_path(), gen.spec_path()))
                        && (r is Ok ==> r == Ok::<FilePlan, ApplyError>(FilePlan::WouldCreate)),
                    Mode::Active => copy_planned(fs@, dest.spec_path(), r),
                    Mode::Interactive => r == Ok::<FilePlan, ApplyError>(FilePlan::CopyInteractive),
                },
                DiffStatus::Changed(t) => change_planned(mode, fs@, dest.spec_path(), t, r),
                DiffStatus::Unsupported => change_planned(mode, fs@, dest.spec_path(), DiffText::Unsupported, r),
            },
        },
        mode == Mode::Passive ==> !(r matches Ok(p) && writes_destination(p)),
{
    let d = dest.path();
    match can_write_file(fs, d.as_str()) {
        Err(e) => return Err(e),
        Ok(()) => {},
    }
    match status {
        DiffStatus::NoChanges => Ok(FilePlan::NoChange),
        DiffStatus::Failed => Err(ApplyError::DiffFailed(d)),
        DiffStatus::NewFile => match mode {
            Mode::Passive => create_passive(fs, gen, dest),
            Mode::Active => copy_active(fs, dest),
            Mode::Interactive => Ok(FilePlan::CopyInteractive),
        },
        DiffStatus::Changed(t) => match mode {
            Mode::Passive => Ok(FilePlan::ShowDiff(t)),
            Mode::Active => copy_active(fs, dest),
            Mode::Interactive => Ok(FilePlan::Ask(t)),
        },
        DiffStatus::Unsupported => match mode {
            Mode::Passive => Ok(FilePlan::ShowDiff(DiffText::Unsupported)),
            Mode::Active => copy_active(fs, dest),
            Mode::Interactive => Ok(FilePlan::Ask(DiffText::Unsupported)),
        },
    }
}

/// Acts on the operator's menu choice about a changed destination: `o`
/// overwrites, `m` merges, `k` skips, `d` shows the difference, `t` merges
/// into the template; anything else asks again.
pub fn update_from_template_interactive(answer: char, fs: &FsView, text: DiffText, dest: &DestFile) -> (r: Result<FilePlan, ApplyError>)
    ensures
        answer == 'o' ==> copy_planned(fs@, dest.spec_path(), r),
        answer == 'm' ==> r == Ok::<FilePlan, ApplyError>(FilePlan::Merge),
        answer == 'k' ==> r == Ok::<FilePlan, ApplyError>(FilePlan::Skip),
        answer == 'd' ==> r == Ok::<FilePlan, ApplyError>(FilePlan::ShowDiff(text)),
        answer == 't' ==> r == Ok::<FilePlan, ApplyError>(FilePlan::MergeIntoTemplate),
        !(answer == 'o' || answer == 'm' || answer == 'k' || answer == 'd' || answer == 't') ==> r
            == Ok::<FilePlan, ApplyError>(FilePlan::Ask(text)),
{
    if answer == 'o' {
        copy_active(fs, dest)
    } else if answer == 'm' {
        Ok(FilePlan::Merge)
    } else if answer == 'k' {
        Ok(FilePlan::Skip)
    } else if answer == 'd' {
        Ok(FilePlan::ShowDiff(text))
    } else if answer == 't' {
        Ok(FilePlan::MergeIntoTemplate)
    } else {
        Ok(FilePlan::Ask(text))
    }
}

} // verus!
