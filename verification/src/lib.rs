//! Describing, displaying, and executing external operating-system processes,
//! including chains of processes connected through standard-input/output pipes.

use vstd::prelude::*;

pub mod process;

verus! {

/// Indicator of whether output should be verbose.
#[derive(Clone, Copy, Debug, PartialEq, Eq, Structural)]
pub enum Verbosity {
    Brief(usize),
    Verbose,
}

/// Returns a [`Verbosity`] based on a condition: verbose output when the flag
/// is set, otherwise brief output capped at `max_args` arguments.
pub fn verbose_if(verbose: bool, max_args: usize) -> (r: Verbosity)
    ensures
        r == (if verbose {
            Verbosity::Verbose
        } else {
            Verbosity::Brief(max_args)
        }),
{
    if verbose {
        Verbosity::Verbose
    } else {
        Verbosity::Brief(max_args)
    }
}

/// Indicator of whether to overwrite or fail when writing to existing files.
#[derive(Clone, Copy, Debug, PartialEq, Eq, Structural)]
pub enum OverwritePolicy {
    Force,
    Fail,
}

/// Returns an [`OverwritePolicy`] based on a condition.
pub fn force_if(force: bool) -> (r: OverwritePolicy)
    ensures
        r == (if force {
            OverwritePolicy::Force
        } else {
            OverwritePolicy::Fail
        }),
{
    if force {
        OverwritePolicy::Force
    } else {
        OverwritePolicy::Fail
    }
}

/// Decides whether creating a directory must be refused: only the `Fail`
/// policy on an already-existing path is a conflict; `Force` never is.
pub fn mkdir_conflict(policy: OverwritePolicy, exists: bool) -> (r: bool)
    ensures
        r == (policy == OverwritePolicy::Fail && exists),
{
    match policy {
        OverwritePolicy::Fail => exists,
        OverwritePolicy::Force => false,
    }
}

} // verus!
