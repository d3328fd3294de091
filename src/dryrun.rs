use vstd::prelude::*;
use crate::diff::DiffStatus;
use crate::cmd::exectable_full_path_which;
use crate::error::ApplyError;
use crate::files::{Mode, VirtualFile};
use crate::template::{fill_args, replace_all};
use crate::vars::Vars;

verus! {

/// Terminal outcome of one action.
#[derive(Clone, Copy, Debug, PartialEq, Eq, Structural)]
pub enum ActionResult {
    Applied,
    Skipped,
    AlreadyApplied,
    Created,
}

/// The outcome that a comparison result stands for.
pub open spec fn result_of_status(ds: DiffStatus) -> ActionResult {
    match ds {
        DiffStatus::NoChanges => ActionResult::AlreadyApplied,
        DiffStatus::NewFile => ActionResult::Applied,
        DiffStatus::Changed(_) => ActionResult::Applied,
        DiffStatus::Unsupported => ActionResult::Skipped,
        DiffStatus::Failed => ActionResult::Skipped,
    }
}

impl From<DiffStatus> for ActionResult {
    fn from(ds: DiffStatus) -> (r: ActionResult) {
        match ds {
            DiffStatus::NoChanges => ActionResult::AlreadyApplied,
            DiffStatus::NewFile => ActionResult::Applied,
            DiffStatus::Changed(_) => ActionResult::Applied,
            DiffStatus::Unsupported => ActionResult::Skipped,
            DiffStatus::Failed => ActionResult::Skipped,
        }
    }
}

impl vstd::std_specs::convert::FromSpecImpl<DiffStatus> for ActionResult {
    open spec fn obeys_from_spec() -> bool {
        true
    }

    open spec fn from_spec(ds: DiffStatus) -> ActionResult {
        result_of_status(ds)
    }
}

/// A command ready to run: the script and its arguments after substitution.
#[derive(Debug, PartialEq, Eq)]
pub struct Invocation {
    pub script: VirtualFile,
    pub args: Vec<String>,
}

/// Where one command action stands.
#[derive(Debug, PartialEq, Eq)]
pub enum CmdState {
    /// The operator is to be asked whether to run it.
    Confirm(Invocation),
    /// It is to be run; its exit is reported back.
    Run(Invocation),
    /// Passive: it is only reported as what would run. Outcome: skipped.
    Simulated(Invocation),
    /// The operator declined to run it. Outcome: skipped.
    Declined(Invocation),
    /// Finished with this outcome.
    Done(Result<ActionResult, ApplyError>),
}

/// What happened while a command action was pending.
#[derive(Debug, PartialEq, Eq)]
pub enum CmdEvent {
    /// The operator's answer, its first character.
    Answer(char),
    /// The process ended, with its exit code, or none when a signal ended it.
    Exited(Option<i32>),
    /// The process could not be started.
    SpawnFailed(String),
}

/// Whether the action is over.
pub open spec fn is_final(s: CmdState) -> bool {
    s is Simulated || s is Declined || s is Done
}

/// The outcome of a finished action.
pub open spec fn outcome(s: CmdState) -> Option<Result<ActionResult, ApplyError>> {
    match s {
        CmdState::Simulated(_) => Some(Ok(ActionResult::Skipped)),
        CmdState::Declined(_) => Some(Ok(ActionResult::Skipped)),
        CmdState::Done(r) => Some(r),
        _ => None,
    }
}

/// The result of a process that ended with `code`.
pub open spec fn exit_result(code: Option<i32>) -> Result<ActionResult, ApplyError> {
    match code {
        Some(0) => Ok(ActionResult::Applied),
        Some(n) => Err(ApplyError::NotZeroExit(n)),
        None => Err(ApplyError::CmdExitedPrematurely),
    }
}

/// The state after `e` happens in state `s`. Events that do not fit the
/// state leave it unchanged.
pub open spec fn next(s: CmdState, e: CmdEvent) -> CmdState {
    match (s, e) {
        (CmdState::Confirm(inv), CmdEvent::Answer(c)) => if c == 'y' {
            CmdState::Run(inv)
        } else if c == 'n' {
            CmdState::Declined(inv)
        } else {
            CmdState::Confirm(inv)
        },
        (CmdState::Run(_), CmdEvent::Exited(code)) => CmdState::Done(exit_result(code)),
        (CmdState::Run(_), CmdEvent::SpawnFailed(m)) => CmdState::Done(
            Err(ApplyError::ExecError(m)),
        ),
        (s, _) => s,
    }
}

/// The state after the events `es`, in order.
pub open spec fn run_events(s: CmdState, es: Seq<CmdEvent>) -> CmdState
    decreases es.len(),
{
    if es.len() == 0 {
        s
    } else {
        next(run_events(s, es.drop_last()), es.last())
    }
}

/// The state a command action starts in: `Done` with the substitution error
/// when an argument names an unbound key; else `Run` when active, `Simulated`
/// when passive and `Confirm` when interactive.
pub open spec fn started(mode: Mode, cmd: VirtualFile, args: Seq<Seq<char>>, vars: Map<Seq<char>, Seq<char>>, s: CmdState) -> bool {
    match fill_args(vars, args) {
        Err(k) => s matches CmdState::Done(Err(ApplyError::VarNotFound(m))) && m@ == k,
        Ok(filled) => match s {
            CmdState::Run(inv) => mode == Mode::Active && inv.script == cmd
                && inv.args@.map_values(|a: String| a@) == filled,
            CmdState::Simulated(inv) => mode == Mode::Passive && inv.script == cmd
                && inv.args@.map_values(|a: String| a@) == filled,
            CmdState::Confirm(inv) => mode == Mode::Interactive && inv.script == cmd
                && inv.args@.map_values(|a: String| a@) == filled,
            _ => false,
        },
    }
}

/// Starts a command action under `mode`, substituting `@@key@@` tokens in
/// its arguments first.
pub fn execute(mode: Mode, cmd: &VirtualFile, args: Vec<String>, vars: &Vars) -> (r: CmdState)
    ensures
        started(mode, *cmd, args@.map_values(|a: String| a@), vars@, r),
{
    match replace_all(args.as_slice(), vars) {
        Err(e) => CmdState::Done(Err(e)),
        Ok(filled) => {
            let inv = Invocation { script: cmd.duplicate(), args: filled };
            match mode {
                Mode::Active => CmdState::Run(inv),
                Mode::Passive => CmdState::Simulated(inv),
                Mode::Interactive => CmdState::Confirm(inv),
            }
        },
    }
}

/// The result of a process that ended with `code`: exit code 0 is success,
/// any other code is `NotZeroExit` with that code, none is a premature end.
pub fn exit_status(code: Option<i32>) -> (r: Result<ActionResult, ApplyError>)
    ensures
        r == exit_result(code),
{
    match code {
        Some(n) => if n == 0 {
            Ok(ActionResult::Applied)
        } else {
            Err(ApplyError::NotZeroExit(n))
        },
        None => Err(ApplyError::CmdExitedPrematurely),
    }
}

/// Advances a command action by one event.
pub fn step(s: CmdState, e: CmdEvent) -> (r: CmdState)
    ensures
        r == next(s, e),
{
    match s {
        CmdState::Confirm(inv) => match e {
            CmdEvent::Answer(c) => if c == 'y' {
                CmdState::Run(inv)
            } else if c == 'n' {
                CmdState::Declined(inv)
            } else {
                CmdState::Confirm(inv)
            },
            _ => CmdState::Confirm(inv),
        },
        CmdState::Run(inv) => match e {
            CmdEvent::Exited(code) => CmdState::Done(exit_status(code)),
            CmdEvent::SpawnFailed(m) => CmdState::Done(Err(ApplyError::ExecError(m))),
            _ => CmdState::Run(inv),
        },
        other => other,
    }
}

/// The outcome of a finished action; `None` while it is pending.
pub fn finished(s: &CmdState) -> (r: Option<Result<ActionResult, ApplyError>>)
    ensures
        r == outcome(*s),
{
    match s {
        CmdState::Simulated(_) => Some(Ok(ActionResult::Skipped)),
        CmdState::Declined(_) => Some(Ok(ActionResult::Skipped)),
        CmdState::Done(r) => Some(copy_result(r)),
        _ => None,
    }
}

fn copy_result(r: &Result<ActionResult, ApplyError>) -> (c: Result<ActionResult, ApplyError>)
    ensures
        c == *r,
{
    match r {
        Ok(a) => Ok(*a),
        Err(e) => Err(copy_error(e)),
    }
}

/// An equal copy of an error.
pub fn copy_error(e: &ApplyError) -> (c: ApplyError)
    ensures
        c == *e,
{
    match e {
        ApplyError::Error(s) => ApplyError::Error(s.clone()),
        ApplyError::Warn => ApplyError::Warn,
        ApplyError::PathNotFound(s) => ApplyError::PathNotFound(s.clone()),
        ApplyError::PathBufNotFound(s) => ApplyError::PathBufNotFound(s.clone()),
        ApplyError::FileCreateError(s) => ApplyError::FileCreateError(s.clone()),
        ApplyError::FileWriteError(s) => ApplyError::FileWriteError(s.clone()),
        ApplyError::VarNotFound(s) => ApplyError::VarNotFound(s.clone()),
        ApplyError::NameNotFound(s) => ApplyError::NameNotFound(s.clone()),
        ApplyError::CmdExitedPrematurely => ApplyError::CmdExitedPrematurely,
        ApplyError::NotZeroExit(n) => ApplyError::NotZeroExit(*n),
        ApplyError::CommandNotFound(s) => ApplyError::CommandNotFound(s.clone()),
        ApplyError::ExpectedArg(s) => ApplyError::ExpectedArg(s.clone()),
        ApplyError::UnExpectedArg(s) => ApplyError::UnExpectedArg(s.clone()),
        ApplyError::InsufficientPrivileges(s) => ApplyError::InsufficientPrivileges(s.clone()),
        ApplyError::PathNotFound0 => ApplyError::PathNotFound0,
        ApplyError::DiffFailed(s) => ApplyError::DiffFailed(s.clone()),
        ApplyError::NotAFile(s) => ApplyError::NotAFile(s.clone()),
        ApplyError::CopyError(a, b, c) => ApplyError::CopyError(a.clone(), b.clone(), c.clone()),
        ApplyError::ExecError(s) => ApplyError::ExecError(s.clone()),
        ApplyError::NoParent(s) => ApplyError::NoParent(s.clone()),
        ApplyError::ScriptError(s) => ApplyError::ScriptError(s.clone()),
        ApplyError::IoError(s) => ApplyError::IoError(s.clone()),
        ApplyError::ConfigError(s) => ApplyError::ConfigError(s.clone()),
        ApplyError::YamlReadError(s) => ApplyError::YamlReadError(s.clone()),
    }
}

/// A finished action stays finished, with the same outcome, whatever
/// happens next.
pub proof fn law_final_is_stable(s: CmdState, es: Seq<CmdEvent>)
    requires
        is_final(s),
    ensures
        run_events(s, es) == s,
    decreases es.len(),
{
    if es.len() > 0 {
        law_final_is_stable(s, es.drop_last());
    }
}

/// A passive action never reaches the point where a process is spawned,
/// whatever events follow.
pub proof fn law_passive_never_spawns(
    cmd: VirtualFile,
    args: Seq<Seq<char>>,
    vars: Map<Seq<char>, Seq<char>>,
    s: CmdState,
    es: Seq<CmdEvent>,
)
    requires
        started(Mode::Passive, cmd, args, vars, s),
    ensures
        !(run_events(s, es) is Run),
        outcome(run_events(s, es)) == outcome(s),
{
    law_final_is_stable(s, es);
}

/// An active action that is run ends in success when the process exits
/// with 0, and in `NotZeroExit` carrying the code otherwise.
pub proof fn law_active_exit_codes(inv: Invocation, code: i32)
    ensures
        code == 0 ==> outcome(next(CmdState::Run(inv), CmdEvent::Exited(Some(code))))
            == Some(Ok::<ActionResult, ApplyError>(ActionResult::Applied)),
        code != 0 ==> outcome(next(CmdState::Run(inv), CmdEvent::Exited(Some(code))))
            == Some(Err::<ActionResult, ApplyError>(ApplyError::NotZeroExit(code))),
{
}

/// At the interactive question, an answer other than `y` or `n` asks again,
/// and `n` then ends the action as skipped without running anything.
pub proof fn law_interactive_reprompt(inv: Invocation, c: char)
    requires
        c != 'y',
        c != 'n',
    ensures
        next(CmdState::Confirm(inv), CmdEvent::Answer(c)) == CmdState::Confirm(inv),
        run_events(CmdState::Confirm(inv), seq![CmdEvent::Answer(c), CmdEvent::Answer('n')])
            == CmdState::Declined(inv),
        outcome(CmdState::Declined(inv)) == Some(
            Ok::<ActionResult, ApplyError>(ActionResult::Skipped),
        ),
{
    let es = seq![CmdEvent::Answer(c), CmdEvent::Answer('n')];
    assert(es.drop_last().drop_last() =~= Seq::<CmdEvent>::empty());
    assert(es.drop_last().last() == CmdEvent::Answer(c));
    assert(es.last() == CmdEvent::Answer('n'));
    let s0 = CmdState::Confirm(inv);
    assert(run_events(s0, es.drop_last().drop_last()) == s0);
    assert(run_events(s0, es.drop_last()) == next(s0, CmdEvent::Answer(c)));
    assert(run_events(s0, es) == next(run_events(s0, es.drop_last()), CmdEvent::Answer('n')));
}

/// Starts running the command line `cmd_line` (program, then arguments)
/// once the program was searched for, `found` being the search's outcome: a
/// failed search ends the action with `CommandNotFound`; otherwise the found
/// path is run with the remaining items as arguments.
pub fn dryrun_with(mode: Mode, vars: &Vars, cmd_line: Vec<String>, found: Result<String, which::Error>) -> (r: CmdState)
    requires
        cmd_line@.len() > 0,
    ensures
        match found {
            Err(_) => r matches CmdState::Done(Err(ApplyError::CommandNotFound(m))) && m@ == cmd_line@[0]@,
            Ok(p) => started(
                mode,
                VirtualFile::FsPath(p),
                cmd_line@.subrange(1, cmd_line@.len() as int).map_values(|a: String| a@),
                vars@,
                r,
            ),
        },
{
    match exectable_full_path_which(cmd_line[0].as_str(), found) {
        Err(e) => CmdState::Done(Err(e)),
        Ok(exe) => {
            let script = VirtualFile::FsPath(exe);
            let mut args: Vec<String> = Vec::new();
            let mut i: usize = 1;
            while i < cmd_line.len()
                invariant
                    1 <= i <= cmd_line.len(),
                    args@ == cmd_line@.subrange(1, i as int),
                decreases cmd_line.len() - i,
            {
                args.push(cmd_line[i].clone());
                i = i + 1;
            }
            execute(mode, &script, args, vars)
        },
    }
}

/// Starts running the command line `cmd_line`, searching for its program
/// first; a failed search ends the action with `CommandNotFound`.
pub fn dryrun(mode: Mode, vars: &Vars, cmd_line: Vec<String>) -> (r: CmdState)
    requires
        cmd_line@.len() > 0,
    ensures
        (r matches CmdState::Done(Err(ApplyError::CommandNotFound(m))) && m@ == cmd_line@[0]@)
            || exists|p: String|
            started(
                mode,
                VirtualFile::FsPath(p),
                cmd_line@.subrange(1, cmd_line@.len() as int).map_values(|a: String| a@),
                vars@,
                r,
            ),
{
    let found = crate::cmd::which_for(cmd_line[0].as_str());
    dryrun_with(mode, vars, cmd_line, found)
}

} // verus!
