use vstd::prelude::*;
use crate::error::ApplyError;

verus! {

#[verifier::external_type_specification]
#[verifier::external_body]
pub struct ExWhichError(which::Error);

/// Relies on `which::which`: the full path of an executable that the search
/// found for `prg`, or the search's error. What is found depends on `PATH`
/// and on the disk, so nothing is promised of it.
#[verifier::external_body]
pub(crate) fn which_for(prg: &str) -> (r: Result<String, which::Error>) {
    match which::which(prg) {
        Ok(p) => Ok(p.to_string_lossy().into_owned()),
        Err(e) => Err(e),
    }
}

/// The outcome of a search for `prg`: the path found, or `CommandNotFound`
/// naming `prg`.
pub fn exectable_full_path_which(prg: &str, maybe_prg: Result<String, which::Error>) -> (r: Result<String, ApplyError>)
    ensures
        match maybe_prg {
            Ok(p) => r == Ok::<String, ApplyError>(p),
            Err(_) => r matches Err(ApplyError::CommandNotFound(m)) && m@ == prg@,
        },
{
    match maybe_prg {
        Ok(prg_path) => Ok(prg_path),
        Err(_) => Err(ApplyError::CommandNotFound(prg.to_owned())),
    }
}

/// Searches for the executable `prg`; fails with `CommandNotFound` naming it.
pub fn exectable_full_path(prg: &str) -> (r: Result<String, ApplyError>)
    ensures
        r is Err ==> (r matches Err(ApplyError::CommandNotFound(m)) && m@ == prg@),
{
    let maybe_prg = which_for(prg);
    exectable_full_path_which(prg, maybe_prg)
}

} // verus!
