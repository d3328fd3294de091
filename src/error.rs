use vstd::prelude::*;

verus! {

/// Every failure the library reports.
#[non_exhaustive]
#[derive(Debug, PartialEq, Eq)]
pub enum ApplyError {
    Error(String),
    Warn,
    PathNotFound(String),
    PathBufNotFound(String),
    FileCreateError(String),
    FileWriteError(String),
    VarNotFound(String),
    NameNotFound(String),
    CmdExitedPrematurely,
    NotZeroExit(i32),
    CommandNotFound(String),
    ExpectedArg(String),
    UnExpectedArg(String),
    InsufficientPrivileges(String),
    PathNotFound0,
    DiffFailed(String),
    NotAFile(String),
    CopyError(String, String, String),
    ExecError(String),
    NoParent(String),
    ScriptError(String),
    IoError(String),
    ConfigError(String),
    YamlReadError(String),
}

} // verus!
