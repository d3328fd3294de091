use fastidious::apply::{
    apply_action, apply_outcome, apply_step, do_apply, do_is_applied, is_applied, pending,
    ApplyState,
};
use fastidious::diff::{
    create_dir, create_dir_answer, create_parent_dir, diff_status, update_from_template,
    update_from_template_interactive, DiffStatus, DiffText, DirPlan, FilePlan,
};
use fastidious::dryrun::{dryrun_with, execute, exit_status, finished, step, ActionResult, CmdEvent, CmdState};
use fastidious::error::ApplyError;
use fastidious::files::{decimal_string, get_mode, DestFile, GenFile, Materialized, Mode, SrcFile, VirtualFile};
use fastidious::passive::{action_line, Verb};
use fastidious::probe::{FsView, PathInfo};
use fastidious::template::render;
use fastidious::vars::Vars;

fn cwd_view() -> FsView {
    let mut fs = FsView::new();
    fs.insert(
        ".".to_string(),
        PathInfo { is_dir: true, readable: true, writable: true, executable: true },
    );
    fs
}

#[test]
fn test_execute_active() -> Result<(), ApplyError> {
    let always_true = VirtualFile::FsPath("/bin/true".to_string());
    let always_false = VirtualFile::FsPath("/bin/false".to_string());
    let run = execute(Mode::Active, &always_true, Vec::new(), &Vars::new());
    assert!(matches!(run, CmdState::Run(_)));
    assert_eq!(finished(&step(run, CmdEvent::Exited(Some(0)))), Some(Ok(ActionResult::Applied)));
    let run = execute(Mode::Active, &always_false, Vec::new(), &Vars::new());
    match finished(&step(run, CmdEvent::Exited(Some(1)))) {
        Some(Err(e)) => assert_eq!(e, ApplyError::NotZeroExit(1)),
        _ => return Err(ApplyError::Error(String::from("OK not expected"))),
    }
    let echo_hello = VirtualFile::in_memory_shell("echo hello".into());
    let run = execute(Mode::Active, &echo_hello, Vec::new(), &Vars::new());
    match &run {
        CmdState::Run(inv) => assert_eq!(inv.script, VirtualFile::InMemory("echo hello".into())),
        _ => panic!("expected a run"),
    }
    finished(&step(run, CmdEvent::Exited(Some(0)))).unwrap()?;
    Ok(())
}

#[test]
fn exit_codes_decide_the_outcome() {
    assert_eq!(exit_status(Some(0)), Ok(ActionResult::Applied));
    assert_eq!(exit_status(Some(3)), Err(ApplyError::NotZeroExit(3)));
    assert_eq!(exit_status(None), Err(ApplyError::CmdExitedPrematurely));
    let run = execute(Mode::Active, &VirtualFile::FsPath("x".into()), Vec::new(), &Vars::new());
    assert_eq!(
        finished(&step(run, CmdEvent::SpawnFailed("no such file".into()))),
        Some(Err(ApplyError::ExecError("no such file".into())))
    );
}

#[test]
fn passive_never_spawns() {
    let mut vars = Vars::new();
    vars.insert("who".into(), "world".into());
    let s = execute(
        Mode::Passive,
        &VirtualFile::FsPath("/bin/echo".into()),
        vec!["@@who@@".to_string()],
        &vars,
    );
    match &s {
        CmdState::Simulated(inv) => assert_eq!(inv.args, vec!["world\n".to_string()]),
        _ => panic!("expected a simulated run"),
    }
    let mut spawned = 0;
    let mut s = s;
    for e in [CmdEvent::Answer('y'), CmdEvent::Exited(Some(0))] {
        if matches!(s, CmdState::Run(_)) {
            spawned += 1;
        }
        s = step(s, e);
    }
    assert_eq!(spawned, 0);
    assert_eq!(finished(&s), Some(Ok(ActionResult::Skipped)));
}

#[test]
fn unbound_argument_ends_before_running() {
    let s = execute(
        Mode::Active,
        &VirtualFile::FsPath("/bin/echo".into()),
        vec!["@@missing@@".to_string()],
        &Vars::new(),
    );
    assert_eq!(s, CmdState::Done(Err(ApplyError::VarNotFound("missing".into()))));
}

#[test]
fn interactive_reprompts_then_skips() {
    let s = execute(Mode::Interactive, &VirtualFile::FsPath("/bin/true".into()), Vec::new(), &Vars::new());
    assert!(matches!(s, CmdState::Confirm(_)));
    let s = step(s, CmdEvent::Answer('q'));
    assert!(matches!(s, CmdState::Confirm(_)));
    let s = step(s, CmdEvent::Answer('n'));
    assert!(matches!(s, CmdState::Declined(_)));
    assert_eq!(finished(&s), Some(Ok(ActionResult::Skipped)));
}

#[test]
fn interactive_yes_runs() {
    let s = execute(Mode::Interactive, &VirtualFile::FsPath("/bin/true".into()), Vec::new(), &Vars::new());
    let s = step(s, CmdEvent::Answer('y'));
    assert!(matches!(s, CmdState::Run(_)));
}

#[test]
fn test_appply() -> Result<(), ApplyError> {
    let apply_script = VirtualFile::in_memory_shell(String::from("touch test1.tmp"));
    let is_applied_script = VirtualFile::in_memory_shell(String::from("test -f test1.tmp"));

    let name_config = Vars::new();
    let check = do_is_applied(&name_config, &is_applied_script);
    assert!(matches!(check, CmdState::Run(_)));
    let check = step(check, CmdEvent::Exited(Some(1)));
    assert!(!is_applied(&finished(&check).unwrap()));
    let apply = do_apply(&name_config, &apply_script, Mode::Active);
    let apply = step(apply, CmdEvent::Exited(Some(0)));
    finished(&apply).unwrap()?;
    Ok(())
}

#[test]
fn first_apply_runs_the_apply_script() {
    let s = apply_action(
        Mode::Active,
        Some("test -f marker".to_string()),
        "touch marker".to_string(),
        Vars::new(),
    );
    assert!(matches!(pending(&s), Some(CmdState::Run(_))));
    let s = apply_step(s, CmdEvent::Exited(Some(1)));
    match &s {
        ApplyState::Applying(CmdState::Run(inv)) => {
            assert_eq!(inv.script, VirtualFile::InMemory("touch marker".into()))
        }
        _ => panic!("expected the apply script to run"),
    }
    let s = apply_step(s, CmdEvent::Exited(Some(0)));
    assert_eq!(apply_outcome(&s), Some(&Ok(ActionResult::Applied)));
}

#[test]
fn second_apply_is_already_applied() {
    let s = apply_action(
        Mode::Active,
        Some("test -f marker".to_string()),
        "touch marker".to_string(),
        Vars::new(),
    );
    let s = apply_step(s, CmdEvent::Exited(Some(0)));
    assert!(pending(&s).is_none());
    assert_eq!(apply_outcome(&s), Some(&Ok(ActionResult::AlreadyApplied)));
}

#[test]
fn apply_without_check_starts_at_once() {
    let s = apply_action(Mode::Passive, None, "touch marker".to_string(), Vars::new());
    assert!(matches!(s, ApplyState::Applying(CmdState::Simulated(_))));
    let s = apply_step(s, CmdEvent::Exited(Some(0)));
    assert_eq!(apply_outcome(&s), Some(&Ok(ActionResult::Skipped)));
}

#[test]
fn failing_apply_script_is_surfaced() {
    let s = apply_action(Mode::Active, Some("false".into()), "exit 4".into(), Vars::new());
    let s = apply_step(s, CmdEvent::Exited(Some(1)));
    let s = apply_step(s, CmdEvent::Exited(Some(4)));
    assert_eq!(apply_outcome(&s), Some(&Err(ApplyError::NotZeroExit(4))));
}

#[test]
fn diff_status_classifies() {
    assert_eq!(diff_status(false, false, Some(0), Vec::new()), DiffStatus::NewFile);
    assert_eq!(diff_status(true, false, Some(0), Vec::new()), DiffStatus::Unsupported);
    assert_eq!(diff_status(true, true, Some(0), Vec::new()), DiffStatus::NoChanges);
    assert_eq!(
        diff_status(true, true, Some(1), b"1c1\n".to_vec()),
        DiffStatus::Changed(DiffText::Text(b"1c1\n".to_vec()))
    );
    assert_eq!(diff_status(true, true, Some(2), Vec::new()), DiffStatus::Failed);
    assert_eq!(diff_status(true, true, None, Vec::new()), DiffStatus::Failed);
}

#[test]
fn test_do_action() -> Result<(), ApplyError> {
    let mut vars: Vars = Vars::new();
    vars.insert("value".into(), "FILLED".into());
    let src = SrcFile::new(VirtualFile::InMemory(String::from("key=@@value@@")));
    let dest = DestFile::new(String::from("key_unit_test.txt"));
    let text = match src.virtual_file() {
        VirtualFile::InMemory(t) => t.clone(),
        VirtualFile::FsPath(_) => panic!("expected text"),
    };
    let generated = render(&vars, &text)?;
    assert_eq!(generated, "key=FILLED\n");
    let fs = cwd_view();
    let gen = GenFile::with_number(7);
    let status = diff_status(dest._exists(&fs), false, None, Vec::new());
    assert_eq!(status, DiffStatus::NewFile);
    let plan = update_from_template(Mode::Passive, &fs, status, &gen, &dest)?;
    assert_eq!(plan, FilePlan::WouldCreate);
    Ok(())
}

#[test]
fn active_new_file_is_copied() {
    let fs = cwd_view();
    let gen = GenFile::with_number(7);
    let dest = DestFile::new(String::from("./key_unit_test.txt"));
    let plan = update_from_template(Mode::Active, &fs, DiffStatus::NewFile, &gen, &dest);
    assert_eq!(plan, Ok(FilePlan::Copy(None)));
    let deep = DestFile::new(String::from("./out/key.txt"));
    let plan = update_from_template(Mode::Active, &fs, DiffStatus::NewFile, &gen, &deep);
    assert_eq!(plan, Ok(FilePlan::Copy(Some("./out".to_string()))));
}

#[test]
fn changed_destination_by_mode() {
    let fs = cwd_view();
    let gen = GenFile::with_number(1);
    let dest = DestFile::new(String::from("./f.txt"));
    let text = || DiffText::Text(b"<a\n>b\n".to_vec());
    assert_eq!(
        update_from_template(Mode::Passive, &fs, DiffStatus::Changed(text()), &gen, &dest),
        Ok(FilePlan::ShowDiff(text()))
    );
    assert_eq!(
        update_from_template(Mode::Interactive, &fs, DiffStatus::Changed(text()), &gen, &dest),
        Ok(FilePlan::Ask(text()))
    );
    assert_eq!(
        update_from_template(Mode::Active, &fs, DiffStatus::NoChanges, &gen, &dest),
        Ok(FilePlan::NoChange)
    );
    assert_eq!(
        update_from_template(Mode::Active, &fs, DiffStatus::Failed, &gen, &dest),
        Err(ApplyError::DiffFailed("./f.txt".to_string()))
    );
    assert_eq!(
        update_from_template(Mode::Interactive, &fs, DiffStatus::NewFile, &gen, &dest),
        Ok(FilePlan::CopyInteractive)
    );
}

#[test]
fn unwritable_destination_is_refused() {
    let mut fs = FsView::new();
    fs.insert(
        ".".to_string(),
        PathInfo { is_dir: true, readable: true, writable: false, executable: true },
    );
    let gen = GenFile::with_number(1);
    let dest = DestFile::new(String::from("./f.txt"));
    assert_eq!(
        update_from_template(Mode::Active, &fs, DiffStatus::NewFile, &gen, &dest),
        Err(ApplyError::InsufficientPrivileges(".".to_string()))
    );
}

#[test]
fn menu_choices() {
    let fs = cwd_view();
    let dest = DestFile::new(String::from("./f.txt"));
    let t = || DiffText::Unsupported;
    assert_eq!(update_from_template_interactive('o', &fs, t(), &dest), Ok(FilePlan::Copy(None)));
    assert_eq!(update_from_template_interactive('m', &fs, t(), &dest), Ok(FilePlan::Merge));
    assert_eq!(update_from_template_interactive('k', &fs, t(), &dest), Ok(FilePlan::Skip));
    assert_eq!(update_from_template_interactive('d', &fs, t(), &dest), Ok(FilePlan::ShowDiff(t())));
    assert_eq!(update_from_template_interactive('t', &fs, t(), &dest), Ok(FilePlan::MergeIntoTemplate));
    assert_eq!(update_from_template_interactive('x', &fs, t(), &dest), Ok(FilePlan::Ask(t())));
}

#[test]
fn directory_plans() {
    let fs = cwd_view();
    assert_eq!(create_dir(Mode::Active, &fs, "."), Ok(DirPlan::Ready));
    assert_eq!(create_dir(Mode::Active, &fs, "./d"), Ok(DirPlan::Make("./d".into())));
    assert_eq!(create_dir(Mode::Passive, &fs, "./d"), Ok(DirPlan::Checked));
    assert_eq!(create_dir(Mode::Interactive, &fs, "./d"), Ok(DirPlan::Ask("./d".into())));
    assert_eq!(create_dir_answer('y', &fs, "./d"), Ok(DirPlan::Make("./d".into())));
    assert_eq!(create_dir_answer('n', &fs, "./d"), Ok(DirPlan::Checked));
    assert_eq!(create_dir_answer('?', &fs, "./d"), Ok(DirPlan::Ask("./d".into())));
    assert_eq!(
        create_parent_dir(Mode::Active, &fs, "/"),
        Err(ApplyError::InsufficientPrivileges("/".into()))
    );
}

#[test]
fn test_virtual_file() {
    let text = String::from("Hello");
    let vf = VirtualFile::InMemory(text.clone());
    match vf.readable_with(&FsView::new(), 42) {
        Ok(Materialized::Temporary { path, contents }) => {
            assert_eq!(path, "r42.tmp");
            assert_eq!(contents, text);
        }
        _ => panic!("expected a temporary file"),
    }
    match vf.executable_with(&FsView::new(), 42) {
        Ok(Materialized::Temporary { path, contents }) => {
            assert_eq!(path, "42.tmp.sh");
            assert_eq!(contents, "#!/bin/sh\nHello");
        }
        _ => panic!("expected a temporary file"),
    }
    let on_disk = VirtualFile::FsPath("/nowhere".into());
    assert_eq!(
        on_disk.executable_with(&FsView::new(), 1),
        Err(ApplyError::PathNotFound("/nowhere".into()))
    );
}

#[test]
fn test_filter() {
    let _vars = Vars::new();
    let _src = SrcFile::new(VirtualFile::FsPath("Cargo.toml".to_string()));
}

#[test]
fn names_and_modes() {
    assert_eq!(decimal_string(0), "0");
    assert_eq!(decimal_string(4294967295), "4294967295");
    assert!(GenFile::new().path().ends_with(".gen.tmp"));
    assert_eq!(GenFile::with_number(305).path(), "305.gen.tmp");
    assert_eq!(get_mode(true, false, true), Mode::Active);
    assert_eq!(get_mode(false, false, true), Mode::Interactive);
    assert_eq!(get_mode(false, true, false), Mode::Passive);
    assert_eq!(action_line(Verb::Would, "run", "ls -l"), "Would: run: ls -l");
    assert_eq!(ActionResult::from(DiffStatus::NoChanges), ActionResult::AlreadyApplied);
    assert_eq!(ActionResult::from(DiffStatus::NewFile), ActionResult::Applied);
    assert_eq!(ActionResult::from(DiffStatus::Failed), ActionResult::Skipped);
}

#[test]
fn command_not_found_is_reported() {
    let s = dryrun_with(
        Mode::Active,
        &Vars::new(),
        vec!["definitely-not-a-command".to_string(), "x".to_string()],
        Err(which_error()),
    );
    assert_eq!(s, CmdState::Done(Err(ApplyError::CommandNotFound("definitely-not-a-command".into()))));
    let s = dryrun_with(
        Mode::Passive,
        &Vars::new(),
        vec!["ls".to_string(), "-l".to_string()],
        Ok("/bin/ls".to_string()),
    );
    match s {
        CmdState::Simulated(inv) => {
            assert_eq!(inv.script, VirtualFile::FsPath("/bin/ls".into()));
            assert_eq!(inv.args, vec!["-l".to_string()]);
        }
        _ => panic!("expected a simulated run"),
    }
}

fn which_error() -> which::Error {
    which::which("definitely-not-a-command-anywhere").unwrap_err()
}
