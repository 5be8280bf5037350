//! The harness-fatal preconditions of a run: the command line must carry
//! exactly one file argument, and the target must exist and be readable
//! before any backend is invoked. Each check pins the exit status the
//! process must use when it fails.

use vstd::prelude::*;

verus! {

/// Exit status for a usage error (wrong argument count).
pub const USAGE_EXIT_STATUS: i32 = 2;

/// Exit status for an inaccessible target file.
pub const TARGET_EXIT_STATUS: i32 = 1;

/// Accepts exactly two command-line arguments (the program name and one file
/// path); anything else is a usage error with exit status 2.
pub fn check_arg_count(arg_count: usize) -> (r: Result<(), i32>)
    ensures
        r is Ok <==> arg_count == 2,
        r is Err ==> r->Err_0 == USAGE_EXIT_STATUS,
{
    if arg_count == 2 {
        Ok(())
    } else {
        Err(USAGE_EXIT_STATUS)
    }
}

/// Decides the single fail-fast check shared across all backends: when the
/// target was not accessible, the whole run is fatal with exit status 1,
/// before any backend is invoked.
pub fn check_target(target_accessible: bool) -> (r: Result<(), i32>)
    ensures
        r is Ok <==> target_accessible,
        r is Err ==> r->Err_0 == TARGET_EXIT_STATUS,
{
    if target_accessible {
        Ok(())
    } else {
        Err(TARGET_EXIT_STATUS)
    }
}

} // verus!
