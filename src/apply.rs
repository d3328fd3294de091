use vstd::prelude::*;
use crate::dryrun::{
    execute, finished, outcome, next, started, step, ActionResult, CmdEvent, CmdState,
};
use crate::error::ApplyError;
use crate::files::{Mode, VirtualFile};
use crate::vars::Vars;

verus! {

/// Where an apply action stands: first its check script is run, then, when
/// the check fails, its apply script.
#[derive(Debug)]
pub enum ApplyState {
    /// The check script is running. It is always run for real and never
    /// prompts: its exit code alone says whether the action is applied.
    Checking { check: CmdState, mode: Mode, then: VirtualFile, vars: Vars },
    /// The apply script is under way in the caller's mode.
    Applying(CmdState),
    /// Finished with this outcome.
    Done(Result<ActionResult, ApplyError>),
}

/// Starts running `script` with no arguments as the check of an action.
pub fn do_is_applied(vars: &Vars, script: &VirtualFile) -> (r: CmdState)
    ensures
        started(Mode::Active, *script, seq![], vars@, r),
{
    let args: Vec<String> = Vec::new();
    assert(args@.map_values(|a: String| a@) =~= Seq::<Seq<char>>::empty());
    execute(Mode::Active, script, args, vars)
}

/// Whether a finished check says that the action is applied: it is when the
/// check script succeeded.
pub fn is_applied(check: &Result<ActionResult, ApplyError>) -> (r: bool)
    ensures
        r == check is Ok,
{
    check.is_ok()
}

/// Starts running `script` with no arguments as the effect of an action.
pub fn do_apply(vars: &Vars, script: &VirtualFile, mode: Mode) -> (r: CmdState)
    ensures
        started(mode, *script, seq![], vars@, r),
{
    execute_apply(script, vars, mode)
}

/// Starts running `script` with no arguments under `mode`.
pub fn execute_apply(script: &VirtualFile, vars: &Vars, mode: Mode) -> (r: CmdState)
    ensures
        started(mode, *script, seq![], vars@, r),
{
    let args: Vec<String> = Vec::new();
    assert(args@.map_values(|a: String| a@) =~= Seq::<Seq<char>>::empty());
    execute(mode, script, args, vars)
}

/// Starts an apply action: with a check script, the check runs first;
/// without one the apply script starts at once.
pub fn apply_action(mode: Mode, maybe_ifnot: Option<String>, then: String, vars: Vars) -> (r: ApplyState)
    ensures
        match maybe_ifnot {
            Some(ifnot) => r matches ApplyState::Checking { check, mode: m, then: t, vars: v }
                && started(Mode::Active, VirtualFile::InMemory(ifnot), seq![], vars@, check)
                && m == mode && t == VirtualFile::InMemory(then) && v@ == vars@,
            None => r matches ApplyState::Applying(c) && started(
                mode,
                VirtualFile::InMemory(then),
                seq![],
                vars@,
                c,
            ),
        },
{
    match maybe_ifnot {
        Some(ifnot) => {
            let check_script = VirtualFile::InMemory(ifnot);
            let check = do_is_applied(&vars, &check_script);
            ApplyState::Checking { check, mode, then: VirtualFile::InMemory(then), vars }
        },
        None => {
            let apply_script = VirtualFile::InMemory(then);
            ApplyState::Applying(do_apply(&vars, &apply_script, mode))
        },
    }
}

/// Whether `r` may follow `s` when `e` happens: the check's outcome decides
/// between "already applied" (the check succeeded) and starting the apply
/// script (it failed); the apply script's outcome is the action's outcome.
pub open spec fn apply_next(s: ApplyState, e: CmdEvent, r: ApplyState) -> bool {
    match s {
        ApplyState::Checking { check, mode, then, vars } => {
            let c = next(check, e);
            match outcome(c) {
                Some(Ok(_)) => r == ApplyState::Done(Ok(ActionResult::AlreadyApplied)),
                Some(Err(_)) => r matches ApplyState::Applying(a) && started(
                    mode,
                    then,
                    seq![],
                    vars@,
                    a,
                ),
                None => r matches ApplyState::Checking { check: c2, mode: m2, then: t2, vars: v2 }
                    && c2 == c && m2 == mode && t2 == then && v2@ == vars@,
            }
        },
        ApplyState::Applying(a) => {
            let c = next(a, e);
            match outcome(c) {
                Some(o) => r == ApplyState::Done(o),
                None => r == ApplyState::Applying(c),
            }
        },
        ApplyState::Done(o) => r == ApplyState::Done(o),
    }
}

/// Advances an apply action by one event.
pub fn apply_step(s: ApplyState, e: CmdEvent) -> (r: ApplyState)
    ensures
        apply_next(s, e, r),
{
    match s {
        ApplyState::Checking { check, mode, then, vars } => {
            let c = step(check, e);
            match finished(&c) {
                Some(Ok(_)) => ApplyState::Done(Ok(ActionResult::AlreadyApplied)),
                Some(Err(_)) => {
                    let a = do_apply(&vars, &then, mode);
                    ApplyState::Applying(a)
                },
                None => ApplyState::Checking { check: c, mode, then, vars },
            }
        },
        ApplyState::Applying(a) => {
            let c = step(a, e);
            match finished(&c) {
                Some(o) => ApplyState::Done(o),
                None => ApplyState::Applying(c),
            }
        },
        ApplyState::Done(o) => ApplyState::Done(o),
    }
}

/// The outcome of a finished apply action; `None` while it is under way.
pub fn apply_outcome(s: &ApplyState) -> (r: Option<&Result<ActionResult, ApplyError>>)
    ensures
        match s {
            ApplyState::Done(o) => r == Some(o),
            _ => r is None,
        },
{
    match s {
        ApplyState::Done(o) => Some(o),
        _ => None,
    }
}

/// The command that the action is waiting on, if any.
pub fn pending(s: &ApplyState) -> (r: Option<&CmdState>)
    ensures
        match s {
            ApplyState::Checking { check, .. } => r == Some(check),
            ApplyState::Applying(a) => r == Some(a),
            ApplyState::Done(_) => r is None,
        },
{
    match s {
        ApplyState::Checking { check, .. } => Some(check),
        ApplyState::Applying(a) => Some(a),
        ApplyState::Done(_) => None,
    }
}

/// When the check script exits with 0 the action is already applied and
/// the apply script is never started.
pub proof fn law_passing_check_skips_apply(
    inv: crate::dryrun::Invocation,
    mode: Mode,
    then: VirtualFile,
    vars: Vars,
    r: ApplyState,
)
    requires
        apply_next(
            ApplyState::Checking { check: CmdState::Run(inv), mode, then, vars },
            CmdEvent::Exited(Some(0)),
            r,
        ),
    ensures
        r == ApplyState::Done(Ok(ActionResult::AlreadyApplied)),
{
}

/// When the check script exits with a non-zero code, an active action runs
/// its apply script with no arguments, and the action is applied once that
/// script exits with 0.
pub proof fn law_failing_check_runs_apply(
    inv: crate::dryrun::Invocation,
    then: VirtualFile,
    vars: Vars,
    code: i32,
    r: ApplyState,
    r2: ApplyState,
)
    requires
        code != 0,
        apply_next(
            ApplyState::Checking { check: CmdState::Run(inv), mode: Mode::Active, then, vars },
            CmdEvent::Exited(Some(code)),
            r,
        ),
        apply_next(r, CmdEvent::Exited(Some(0)), r2),
    ensures
        r matches ApplyState::Applying(CmdState::Run(a)) && a.script == then && a.args@.len() == 0,
        r2 == ApplyState::Done(Ok(ActionResult::Applied)),
{
    crate::template::lemma_fill_args_empty(vars@);
}

} // verus!
